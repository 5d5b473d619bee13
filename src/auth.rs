//! Bearer-token admission for the browser-driven scraper service.
use crate::text::{copy_str, same_text};
use vstd::prelude::*;

verus! {

/// The admission rule: the name of the environment variable that holds the
/// expected bearer token.
pub struct BearerAuth {
    pub token: String,
}

impl BearerAuth {
    pub fn new() -> (r: Self)
        ensures
            r.token@ == "AUTH_KEY"@,
    {
        BearerAuth { token: copy_str("AUTH_KEY") }
    }
}

/// Whether a request is let through: one with a bearer token exactly when
/// the token is `expected`; one without only for the documentation paths
/// `/` and `/openapi.json`.
pub open spec fn admitted(path: Seq<char>, bearer: Option<Seq<char>>, expected: Seq<char>) -> bool {
    match bearer {
        Some(t) => t == expected,
        None => path == "/openapi.json"@ || path == "/"@,
    }
}

/// Whether a request for `path`, with the bearer token `bearer` if it has
/// one, is let through.
pub fn authorize(path: &str, bearer: Option<&str>, expected: &str) -> (r: bool)
    ensures
        r == admitted(
            path@,
            match bearer {
                Some(t) => Some(t@),
                None => None,
            },
            expected@,
        ),
{
    match bearer {
        Some(t) => same_text(t, expected),
        None => same_text(path, "/openapi.json") || same_text(path, "/"),
    }
}

} // verus!
