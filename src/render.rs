use vstd::prelude::*;

use crate::cookie::{expression_line, table_line, Cookie};
use crate::decimal::{decimal, push_decimal};
use vstd::pervasive::unreached;

verus! {

/// The output formats.
#[derive(Clone, Copy, Debug, PartialEq, Eq, Structural)]
pub enum OutputFormat {
    /// One header expression per line.
    Javascript,
    /// Netscape table, as curl and wget read it.
    Netscape,
    /// One JSON array.
    Json,
}

impl Default for OutputFormat {
    fn default() -> (r: OutputFormat)
        ensures
            r == OutputFormat::Javascript,
    {
        OutputFormat::Javascript
    }
}

/// Expression lines joined by newlines, with no newline after the last.
pub open spec fn expressions_text(s: Seq<Cookie>) -> Seq<char>
    decreases s.len(),
{
    if s.len() == 0 {
        Seq::empty()
    } else if s.len() == 1 {
        expression_line(s[0])
    } else {
        expressions_text(s.drop_last()) + "\n"@ + expression_line(s.last())
    }
}

/// Table lines, one after the other.
pub open spec fn table_text(s: Seq<Cookie>) -> Seq<char>
    decreases s.len(),
{
    if s.len() == 0 {
        Seq::empty()
    } else {
        table_text(s.drop_last()) + table_line(s.last())
    }
}

/// What `serde_json` writes for a string: the quoted, escaped literal.
pub uninterp spec fn json_string(s: Seq<char>) -> Seq<char>;

/// An optional integer in JSON: its decimal text, or `null`.
pub open spec fn json_int(e: Option<i64>) -> Seq<char> {
    match e {
        Some(x) => decimal(x as int),
        None => "null"@,
    }
}

/// An optional boolean in JSON: `true`, `false` or `null`.
pub open spec fn json_bool(b: Option<bool>) -> Seq<char> {
    match b {
        Some(true) => "true"@,
        Some(false) => "false"@,
        None => "null"@,
    }
}

/// A cookie's JSON object, its fields in declaration order, given its four
/// text fields already written as JSON strings.
pub open spec fn json_object_of(
    name: Seq<char>,
    value: Seq<char>,
    domain: Seq<char>,
    path: Seq<char>,
    c: Cookie,
) -> Seq<char> {
    "{\"name\":"@ + name + ",\"value\":"@ + value + ",\"domain\":"@ + domain + ",\"path\":"@
        + path + ",\"expires\":"@ + json_int(c.expires) + ",\"http_only\":"@ + json_bool(
        c.http_only,
    ) + ",\"secure\":"@ + json_bool(c.secure) + ",\"same_site\":"@ + json_bool(c.same_site)
        + "}"@
}

/// One cookie as a JSON object.
pub open spec fn json_object(c: Cookie) -> Seq<char> {
    json_object_of(
        json_string(c.name@),
        json_string(c.value@),
        json_string(c.domain@),
        json_string(c.path@),
        c,
    )
}

/// JSON objects separated by commas.
pub open spec fn json_items(s: Seq<Cookie>) -> Seq<char>
    decreases s.len(),
{
    if s.len() == 0 {
        Seq::empty()
    } else if s.len() == 1 {
        json_object(s[0])
    } else {
        json_items(s.drop_last()) + ","@ + json_object(s.last())
    }
}

/// The whole list as one JSON array on one line.
pub open spec fn json_text(s: Seq<Cookie>) -> Seq<char> {
    "["@ + json_items(s) + "]"@
}

/// Relies on `serde_json::to_string` on a `str`: the JSON string literal for
/// it, quoted and escaped, which depends on the text alone. A `str` is
/// written by `serialize_str` into a `Vec<u8>`, whose writer never fails, so
/// the result is always `Ok`.
#[verifier::external_body]
fn json_quoted(s: &str) -> (r: Result<String, serde_json::Error>)
    ensures
        r is Ok,
        r matches Ok(t) ==> t@ == json_string(s@),
{
    serde_json::to_string(s)
}

/// `serde_json::Error`, the error type of `serde_json::to_string`, carried
/// through unread.
#[verifier::external_type_specification]
#[verifier::external_body]
pub struct ExJsonError(serde_json::Error);

fn quoted(s: &String) -> (r: String)
    ensures
        r@ == json_string(s@),
{
    match json_quoted(s.as_str()) {
        Ok(t) => t,
        Err(_) => unreached(),
    }
}

fn push_json_int(out: &mut String, e: Option<i64>)
    ensures
        final(out)@ == old(out)@ + json_int(e),
{
    match e {
        Some(x) => push_decimal(out, x),
        None => out.append("null"),
    }
}

fn push_json_bool(out: &mut String, b: Option<bool>)
    ensures
        final(out)@ == old(out)@ + json_bool(b),
{
    match b {
        Some(true) => out.append("true"),
        Some(false) => out.append("false"),
        None => out.append("null"),
    }
}

/// The cookie's JSON object, from its name, value, domain and path already
/// written as JSON strings and its other fields as they are.
pub fn json_object_text(c: &Cookie, name: &str, value: &str, domain: &str, path: &str) -> (r:
    String)
    ensures
        r@ == json_object_of(name@, value@, domain@, path@, *c),
{
    let mut out = String::from_str("{\"name\":");
    out.append(name);
    out.append(",\"value\":");
    out.append(value);
    out.append(",\"domain\":");
    out.append(domain);
    out.append(",\"path\":");
    out.append(path);
    out.append(",\"expires\":");
    push_json_int(&mut out, c.expires);
    out.append(",\"http_only\":");
    push_json_bool(&mut out, c.http_only);
    out.append(",\"secure\":");
    push_json_bool(&mut out, c.secure);
    out.append(",\"same_site\":");
    push_json_bool(&mut out, c.same_site);
    out.append("}");
    assert(out@ =~= json_object_of(name@, value@, domain@, path@, *c));
    out
}

fn push_json_object(out: &mut String, c: &Cookie)
    ensures
        final(out)@ == old(out)@ + json_object(*c),
{
    let name = quoted(&c.name);
    let value = quoted(&c.value);
    let domain = quoted(&c.domain);
    let path = quoted(&c.path);
    let text = json_object_text(c, name.as_str(), value.as_str(), domain.as_str(), path.as_str());
    out.append(text.as_str());
}

/// Each cookie's expression line, joined by newlines; no newline at the end.
pub fn render_expressions(cookies: &Vec<Cookie>) -> (r: String)
    ensures
        r@ == expressions_text(cookies@),
{
    let mut r = String::new();
    let mut i: usize = 0;
    while i < cookies.len()
        invariant
            i <= cookies@.len(),
            r@ == expressions_text(cookies@.subrange(0, i as int)),
        decreases cookies@.len() - i,
    {
        proof {
            let pre = cookies@.subrange(0, i as int + 1);
            assert(pre.drop_last() =~= cookies@.subrange(0, i as int));
        }
        if i > 0 {
            r.append("\n");
        }
        let line = cookies[i].to_string();
        r.append(line.as_str());
        i = i + 1;
    }
    assert(cookies@.subrange(0, cookies@.len() as int) =~= cookies@);
    r
}

/// Each cookie's table line, one after the other.
pub fn render_table(cookies: &Vec<Cookie>) -> (r: String)
    ensures
        r@ == table_text(cookies@),
{
    let mut r = String::new();
    let mut i: usize = 0;
    while i < cookies.len()
        invariant
            i <= cookies@.len(),
            r@ == table_text(cookies@.subrange(0, i as int)),
        decreases cookies@.len() - i,
    {
        proof {
            let pre = cookies@.subrange(0, i as int + 1);
            assert(pre.drop_last() =~= cookies@.subrange(0, i as int));
        }
        let line = cookies[i].to_curl_string();
        r.append(line.as_str());
        i = i + 1;
    }
    assert(cookies@.subrange(0, cookies@.len() as int) =~= cookies@);
    r
}

/// The whole list as one JSON array on one line.
pub fn render_json(cookies: &Vec<Cookie>) -> (r: String)
    ensures
        r@ == json_text(cookies@),
{
    let mut r = String::from_str("[");
    let mut i: usize = 0;
    while i < cookies.len()
        invariant
            i <= cookies@.len(),
            r@ == "["@ + json_items(cookies@.subrange(0, i as int)),
        decreases cookies@.len() - i,
    {
        proof {
            let pre = cookies@.subrange(0, i as int + 1);
            assert(pre.drop_last() =~= cookies@.subrange(0, i as int));
        }
        let ghost before = r@;
        if i > 0 {
            r.append(",");
        }
        push_json_object(&mut r, &cookies[i]);
        assert(r@ =~= "["@ + json_items(cookies@.subrange(0, i as int + 1)));
        i = i + 1;
    }
    r.append("]");
    assert(cookies@.subrange(0, cookies@.len() as int) =~= cookies@);
    r
}

/// The list rendered in the chosen format.
pub fn render(cookies: &Vec<Cookie>, format: OutputFormat) -> (r: String)
    ensures
        r@ == match format {
            OutputFormat::Javascript => expressions_text(cookies@),
            OutputFormat::Netscape => table_text(cookies@),
            OutputFormat::Json => json_text(cookies@),
        },
{
    match format {
        OutputFormat::Javascript => render_expressions(cookies),
        OutputFormat::Netscape => render_table(cookies),
        OutputFormat::Json => render_json(cookies),
    }
}

} // verus!
