use vstd::prelude::*;

use crate::decimal::{decimal, push_decimal};

verus! {

/// One cookie, from either the cookie store or the session file.
#[derive(Clone, Debug)]
pub struct Cookie {
    pub name: String,
    pub value: String,
    pub domain: String,
    pub path: String,
    pub expires: Option<i64>,
    pub http_only: Option<bool>,
    pub secure: Option<bool>,
    pub same_site: Option<bool>,
}

/// The part of an expression line for an optional expiry.
pub open spec fn expires_part(e: Option<i64>) -> Seq<char> {
    match e {
        Some(x) => "; Expires="@ + decimal(x as int),
        None => Seq::empty(),
    }
}

/// The part of an expression line for the same-site attribute.
pub open spec fn same_site_part(s: Option<bool>) -> Seq<char> {
    match s {
        Some(true) => "; SameSite=Strict"@,
        Some(false) => "; SameSite=None"@,
        None => Seq::empty(),
    }
}

/// `name=value; Domain=..; Path=..` followed by the attributes that are present.
pub open spec fn expression_line(c: Cookie) -> Seq<char> {
    c.name@ + "="@ + c.value@ + "; Domain="@ + c.domain@ + "; Path="@ + c.path@
        + expires_part(c.expires)
        + (if c.http_only == Some(true) { "; HttpOnly"@ } else { Seq::empty() })
        + (if c.secure == Some(true) { "; Secure"@ } else { Seq::empty() })
        + same_site_part(c.same_site)
}

/// `TRUE` for a flag that is present and set, `FALSE` otherwise.
pub open spec fn flag_text(f: Option<bool>) -> Seq<char> {
    if f == Some(true) {
        "TRUE"@
    } else {
        "FALSE"@
    }
}

/// The expiry column of the table: `0` for a session cookie.
pub open spec fn expires_text(e: Option<i64>) -> Seq<char> {
    match e {
        Some(x) => decimal(x as int),
        None => "0"@,
    }
}

/// The seven tab-separated columns of a Netscape table line, and its newline.
pub open spec fn table_line(c: Cookie) -> Seq<char> {
    c.domain@ + "\t"@ + flag_text(c.same_site) + "\t"@ + c.path@ + "\t"@ + flag_text(c.secure)
        + "\t"@ + expires_text(c.expires) + "\t"@ + c.name@ + "\t"@ + c.value@ + "\n"@
}

/// A stored integer flag read as a boolean: any nonzero value is set.
pub fn flag_from_number(n: i64) -> (r: bool)
    ensures
        r == (n != 0),
{
    n != 0
}

/// An optional stored integer flag read as an optional boolean.
pub fn optional_flag(n: Option<i64>) -> (r: Option<bool>)
    ensures
        r == (match n {
            Some(x) => Some(x != 0),
            None => None::<bool>,
        }),
{
    match n {
        Some(x) => Some(flag_from_number(x)),
        None => None,
    }
}

fn push_flag(out: &mut String, f: Option<bool>)
    ensures
        final(out)@ == old(out)@ + flag_text(f),
{
    if f == Some(true) {
        out.append("TRUE");
    } else {
        out.append("FALSE");
    }
}

impl Cookie {
    /// The cookie built from one row of the store's cookie table. The three
    /// flag columns hold integers; a missing or unreadable one is absent.
    pub fn from_store_row(
        name: String,
        value: String,
        host: String,
        path: String,
        expiry: Option<i64>,
        is_http_only: Option<i64>,
        is_secure: Option<i64>,
        same_site: Option<i64>,
    ) -> (r: Cookie)
        ensures
            r.name == name,
            r.value == value,
            r.domain == host,
            r.path == path,
            r.expires == expiry,
            r.http_only == (match is_http_only {
                Some(x) => Some(x != 0),
                None => None::<bool>,
            }),
            r.secure == (match is_secure {
                Some(x) => Some(x != 0),
                None => None::<bool>,
            }),
            r.same_site == (match same_site {
                Some(x) => Some(x != 0),
                None => None::<bool>,
            }),
    {
        Cookie {
            name,
            value,
            domain: host,
            path,
            expires: expiry,
            http_only: optional_flag(is_http_only),
            secure: optional_flag(is_secure),
            same_site: optional_flag(same_site),
        }
    }

    /// A field-for-field copy.
    pub fn duplicate(&self) -> (r: Cookie)
        ensures
            r == *self,
    {
        Cookie {
            name: self.name.clone(),
            value: self.value.clone(),
            domain: self.domain.clone(),
            path: self.path.clone(),
            expires: self.expires,
            http_only: self.http_only,
            secure: self.secure,
            same_site: self.same_site,
        }
    }

    /// The cookie as one `Set-Cookie`-like expression, without a newline.
    pub fn to_string(&self) -> (r: String)
        ensures
            r@ == expression_line(*self),
    {
        let mut r = String::new();
        r.append(self.name.as_str());
        r.append("=");
        r.append(self.value.as_str());
        r.append("; Domain=");
        r.append(self.domain.as_str());
        r.append("; Path=");
        r.append(self.path.as_str());
        let ghost head = r@;
        if let Some(e) = self.expires {
            r.append("; Expires=");
            push_decimal(&mut r, e);
        }
        let ghost with_expiry = r@;
        assert(with_expiry =~= head + expires_part(self.expires));
        if self.http_only == Some(true) {
            r.append("; HttpOnly");
        }
        if self.secure == Some(true) {
            r.append("; Secure");
        }
        match self.same_site {
            Some(true) => r.append("; SameSite=Strict"),
            Some(false) => r.append("; SameSite=None"),
            None => {},
        }
        assert(r@ =~= expression_line(*self));
        r
    }

    /// The cookie as one Netscape table line, ending in a newline.
    pub fn to_curl_string(&self) -> (r: String)
        ensures
            r@ == table_line(*self),
    {
        let mut r = String::new();
        r.append(self.domain.as_str());
        r.append("\t");
        push_flag(&mut r, self.same_site);
        r.append("\t");
        r.append(self.path.as_str());
        r.append("\t");
        push_flag(&mut r, self.secure);
        r.append("\t");
        match self.expires {
            Some(e) => push_decimal(&mut r, e),
            None => r.append("0"),
        }
        r.append("\t");
        r.append(self.name.as_str());
        r.append("\t");
        r.append(self.value.as_str());
        r.append("\n");
        assert(r@ =~= table_line(*self));
        r
    }
}

} // verus!
