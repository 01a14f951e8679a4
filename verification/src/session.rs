use vstd::prelude::*;

verus! {

/// Whether a presented cookie value authorizes a session: the cookie must be
/// present and its value must equal the configured one exactly.
pub open spec fn spec_session_authorized(cookie: Option<Seq<char>>, expected: Seq<char>) -> bool {
    match cookie {
        Option::Some(v) => v == expected,
        Option::None => false,
    }
}

/// The session validator: a stateless predicate on the presented cookie
/// value. Absent cookie, or any value other than the configured one, is
/// unauthorized.
pub fn session_authorized(cookie: Option<&String>, expected: &String) -> (r: bool)
    ensures
        r == spec_session_authorized(cookie.deep_view(), expected@),
{
    match cookie {
        Option::Some(v) => v.eq(expected),
        Option::None => false,
    }
}

} // verus!
