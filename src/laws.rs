use vstd::prelude::*;

use crate::cookie::{expires_text, flag_text, table_line, Cookie};
use crate::decimal::{decimal, digit_char, nat_digits};
use crate::select::{kept_for, selected};

verus! {

/// How many times `ch` occurs in `s`.
pub open spec fn count_of(s: Seq<char>, ch: char) -> nat
    decreases s.len(),
{
    if s.len() == 0 {
        0
    } else {
        count_of(s.drop_last(), ch) + if s.last() == ch {
            1nat
        } else {
            0nat
        }
    }
}

/// `s` holds no `ch`.
pub open spec fn free_of(s: Seq<char>, ch: char) -> bool {
    forall|i: int| 0 <= i < s.len() ==> s[i] != ch
}

proof fn lemma_count_concat(a: Seq<char>, b: Seq<char>, ch: char)
    ensures
        count_of(a + b, ch) == count_of(a, ch) + count_of(b, ch),
    decreases b.len(),
{
    if b.len() == 0 {
        assert(a + b =~= a);
    } else {
        lemma_count_concat(a, b.drop_last(), ch);
        assert((a + b).drop_last() =~= a + b.drop_last());
    }
}

proof fn lemma_count_free(s: Seq<char>, ch: char)
    requires
        free_of(s, ch),
    ensures
        count_of(s, ch) == 0,
    decreases s.len(),
{
    if s.len() > 0 {
        lemma_count_free(s.drop_last(), ch);
    }
}

proof fn lemma_digit_char(d: nat)
    requires
        d < 10,
    ensures
        digit_char(d) != '\t' && digit_char(d) != '\n' && digit_char(d) != '-',
{
    assert(d == 0 || d == 1 || d == 2 || d == 3 || d == 4 || d == 5 || d == 6 || d == 7 || d == 8
        || d == 9);
}

proof fn lemma_digits_free(n: nat)
    ensures
        forall|i: int|
            0 <= i < nat_digits(n).len() ==> nat_digits(n)[i] != '\t' && nat_digits(n)[i] != '\n'
                && nat_digits(n)[i] != '-',
    decreases n,
{
    lemma_digit_char(n % 10);
    let ds = nat_digits(n);
    if n >= 10 {
        lemma_digits_free(n / 10);
        let p = nat_digits(n / 10);
        assert(ds == p.push(digit_char(n % 10)));
        assert forall|i: int| 0 <= i < ds.len() implies ds[i] != '\t' && ds[i] != '\n' && ds[i]
            != '-' by {
            if i < p.len() {
                assert(ds[i] == p[i]);
            }
        }
    } else {
        assert(n % 10 == n);
        assert(ds == seq![digit_char(n)]);
    }
}

proof fn lemma_decimal_free(x: int)
    ensures
        free_of(decimal(x), '\t'),
        free_of(decimal(x), '\n'),
{
    if x < 0 {
        lemma_digits_free((-x) as nat);
    } else {
        lemma_digits_free(x as nat);
    }
}

proof fn lemma_count_literals()
    ensures
        count_of("\t"@, '\t') == 1,
        count_of("\t"@, '\n') == 0,
        count_of("\n"@, '\t') == 0,
        count_of("\n"@, '\n') == 1,
        free_of("TRUE"@, '\t') && free_of("TRUE"@, '\n'),
        free_of("FALSE"@, '\t') && free_of("FALSE"@, '\n'),
        free_of("0"@, '\t') && free_of("0"@, '\n'),
{
    reveal_strlit("\t");
    reveal_strlit("\n");
    reveal_strlit("TRUE");
    reveal_strlit("FALSE");
    reveal_strlit("0");
    reveal_with_fuel(count_of, 2);
}

proof fn lemma_columns_free(c: Cookie, ch: char)
    requires
        ch == '\t' || ch == '\n',
    ensures
        free_of(flag_text(c.same_site), ch),
        free_of(flag_text(c.secure), ch),
        free_of(expires_text(c.expires), ch),
{
    lemma_count_literals();
    if let Some(x) = c.expires {
        lemma_decimal_free(x as int);
    }
}

proof fn lemma_count_step(a: Seq<char>, b: Seq<char>)
    ensures
        count_of(a + b, '\t') == count_of(a, '\t') + count_of(b, '\t'),
        count_of(a + b, '\n') == count_of(a, '\n') + count_of(b, '\n'),
{
    lemma_count_concat(a, b, '\t');
    lemma_count_concat(a, b, '\n');
}

proof fn lemma_count_free_both(s: Seq<char>)
    requires
        free_of(s, '\t'),
        free_of(s, '\n'),
    ensures
        count_of(s, '\t') == 0,
        count_of(s, '\n') == 0,
{
    lemma_count_free(s, '\t');
    lemma_count_free(s, '\n');
}

/// A table line has exactly seven tab-separated columns and ends with its
/// only newline, for a cookie whose text fields hold no tab and no newline.
pub proof fn lemma_table_line_shape(c: Cookie)
    requires
        free_of(c.name@, '\t') && free_of(c.name@, '\n'),
        free_of(c.value@, '\t') && free_of(c.value@, '\n'),
        free_of(c.domain@, '\t') && free_of(c.domain@, '\n'),
        free_of(c.path@, '\t') && free_of(c.path@, '\n'),
    ensures
        count_of(table_line(c), '\t') == 6,
        count_of(table_line(c), '\n') == 1,
        table_line(c).last() == '\n',
{
    lemma_count_literals();
    lemma_columns_free(c, '\t');
    lemma_columns_free(c, '\n');
    let t = "\t"@;
    let same_site = flag_text(c.same_site);
    let secure = flag_text(c.secure);
    let expires = expires_text(c.expires);
    lemma_count_free_both(c.domain@);
    lemma_count_free_both(c.path@);
    lemma_count_free_both(c.name@);
    lemma_count_free_both(c.value@);
    lemma_count_free_both(same_site);
    lemma_count_free_both(secure);
    lemma_count_free_both(expires);
    let s1 = c.domain@ + t;
    lemma_count_step(c.domain@, t);
    let s2 = s1 + same_site;
    lemma_count_step(s1, same_site);
    let s3 = s2 + t;
    lemma_count_step(s2, t);
    let s4 = s3 + c.path@;
    lemma_count_step(s3, c.path@);
    let s5 = s4 + t;
    lemma_count_step(s4, t);
    let s6 = s5 + secure;
    lemma_count_step(s5, secure);
    let s7 = s6 + t;
    lemma_count_step(s6, t);
    let s8 = s7 + expires;
    lemma_count_step(s7, expires);
    let s9 = s8 + t;
    lemma_count_step(s8, t);
    let s10 = s9 + c.name@;
    lemma_count_step(s9, c.name@);
    let s11 = s10 + t;
    lemma_count_step(s10, t);
    let s12 = s11 + c.value@;
    lemma_count_step(s11, c.value@);
    let s13 = s12 + "\n"@;
    lemma_count_step(s12, "\n"@);
    assert(table_line(c) == s13);
    reveal_strlit("\n");
}

/// Table columns: the second is `TRUE` only for a same-site cookie and
/// `FALSE` when the attribute is absent or unset; the fourth likewise for
/// `secure`; the fifth is `0` for a cookie without expiry and the decimal
/// expiry otherwise.
pub proof fn lemma_table_columns(c: Cookie)
    ensures
        table_line(c) == c.domain@ + "\t"@ + (if c.same_site == Some(true) {
            "TRUE"@
        } else {
            "FALSE"@
        }) + "\t"@ + c.path@ + "\t"@ + (if c.secure == Some(true) {
            "TRUE"@
        } else {
            "FALSE"@
        }) + "\t"@ + (match c.expires {
            None => "0"@,
            Some(x) => decimal(x as int),
        }) + "\t"@ + c.name@ + "\t"@ + c.value@ + "\n"@,
{
}

/// Merging never reorders: without a domain the result is the store's
/// cookies followed by the session's; with one, the store's kept cookies
/// followed by the session's kept cookies.
pub proof fn lemma_merge_order(store: Seq<Cookie>, session: Seq<Cookie>, domain: Option<Seq<char>>)
    ensures
        selected(store, session, domain) == match domain {
            Some(d) => store.filter(kept_for(d)) + session.filter(kept_for(d)),
            None => store + session,
        },
{
    if let Some(d) = domain {
        Seq::filter_distributes_over_add(store, session, kept_for(d));
    }
}

} // verus!
