//! Bearer-token extraction from an Authorization header.

use vstd::prelude::*;
use vstd::string::*;

use crate::strutil::{starts_with_seq, str_starts_with};

verus! {

/// The token after a `Bearer ` or `bearer ` prefix, if either stands at
/// the front of the header.
pub fn extract_bearer_token(auth_header: &str) -> (r: Option<&str>)
    ensures
        r is Some == (starts_with_seq(auth_header@, "Bearer "@) || starts_with_seq(
            auth_header@,
            "bearer "@,
        )),
        r matches Some(t) ==> t@ == auth_header@.subrange(7, auth_header@.len() as int),
{
    if str_starts_with(auth_header, "Bearer ") || str_starts_with(auth_header, "bearer ") {
        let len = auth_header.unicode_len();
        proof {
            reveal_strlit("Bearer ");
            reveal_strlit("bearer ");
            assert(len >= 7);
        }
        Some(auth_header.substring_char(7, len))
    } else {
        None
    }
}

} // verus!
