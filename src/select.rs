use vstd::prelude::*;

use crate::cookie::Cookie;

verus! {

/// A cookie is kept for a requested domain when its domain is that domain
/// or that domain with a leading dot.
pub open spec fn domain_kept(c: Cookie, d: Seq<char>) -> bool {
    c.domain@ == d || c.domain@ == seq!['.'] + d
}

/// The filter predicate for a requested domain.
pub open spec fn kept_for(d: Seq<char>) -> spec_fn(Cookie) -> bool {
    |c: Cookie| domain_kept(c, d)
}

/// Store cookies, then session cookies, narrowed to a domain when one is given.
pub open spec fn selected(store: Seq<Cookie>, session: Seq<Cookie>, domain: Option<Seq<char>>) -> Seq<
    Cookie,
> {
    match domain {
        Some(d) => (store + session).filter(kept_for(d)),
        None => store + session,
    }
}

/// Whether the cookie belongs to `domain` (exactly, or with a leading dot).
pub fn matches_domain(c: &Cookie, domain: &String) -> (r: bool)
    ensures
        r == domain_kept(*c, domain@),
{
    if c.domain == *domain {
        return true;
    }
    let mut dotted = String::from_str(".");
    dotted.append(domain.as_str());
    proof {
        reveal_strlit(".");
    }
    assert(dotted@ =~= seq!['.'] + domain@);
    c.domain == dotted
}

/// The cookies of `domain` (exactly, or with a leading dot), in their order.
pub fn filter_by_domain(cookies: Vec<Cookie>, domain: &String) -> (r: Vec<Cookie>)
    ensures
        r@ == cookies@.filter(kept_for(domain@)),
{
    let mut r: Vec<Cookie> = Vec::new();
    let mut i: usize = 0;
    while i < cookies.len()
        invariant
            i <= cookies@.len(),
            r@ == cookies@.subrange(0, i as int).filter(kept_for(domain@)),
        decreases cookies@.len() - i,
    {
        let c = &cookies[i];
        let keep = matches_domain(c, domain);
        proof {
            let pre = cookies@.subrange(0, i as int + 1);
            assert(pre.drop_last() =~= cookies@.subrange(0, i as int));
            assert(pre.last() == cookies@[i as int]);
            reveal_with_fuel(Seq::filter, 1);
        }
        if keep {
            r.push(c.duplicate());
        }
        i = i + 1;
    }
    assert(cookies@.subrange(0, cookies@.len() as int) =~= cookies@);
    r
}

/// Store cookies followed by session cookies, never reordered and never
/// merged by key, then narrowed to `domain` when one is given.
pub fn merge_cookies(store: Vec<Cookie>, session: Vec<Cookie>, domain: Option<&String>) -> (r: Vec<
    Cookie,
>)
    ensures
        r@ == selected(
            store@,
            session@,
            match domain {
                Some(d) => Some(d@),
                None => None,
            },
        ),
{
    let mut all = store;
    let mut rest = session;
    all.append(&mut rest);
    match domain {
        Some(d) => filter_by_domain(all, d),
        None => all,
    }
}

} // verus!
