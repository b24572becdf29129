//! Authentication: a caller-supplied credential checked against the
//! configured shared secret by exact string equality.

use vstd::prelude::*;
use crate::config::AppState;

verus! {

/// The credential a request effectively supplies: the per-request header
/// takes precedence; only when no header value is present does the query
/// parameter count.
pub open spec fn spec_provided(header: Option<String>, query: Option<String>) -> Option<Seq<char>> {
    match header {
        Some(h) => Some(h@),
        None => match query {
            Some(q) => Some(q@),
            None => None,
        },
    }
}

/// A request authenticates exactly when it supplies a credential equal,
/// character for character, to the configured secret.
pub open spec fn spec_auth_ok(header: Option<String>, query: Option<String>, secret: Seq<char>) -> bool {
    match spec_provided(header, query) {
        Some(c) => c == secret,
        None => false,
    }
}

/// Checks the supplied credential against the configured secret. Any
/// mismatch, a missing credential included, is refused with status 401.
pub fn authenticate(state: &AppState, header_key: &Option<String>, query_key: &Option<String>) -> (r: Result<(), u16>)
    ensures
        r is Ok <==> spec_auth_ok(*header_key, *query_key, state.api_key@),
        r matches Err(code) ==> code == 401,
{
    let provided = match header_key {
        Some(h) => Some(h),
        None => match query_key {
            Some(q) => Some(q),
            None => None,
        },
    };
    match provided {
        Some(k) => {
            if *k == state.api_key {
                Ok(())
            } else {
                Err(401)
            }
        },
        None => Err(401),
    }
}

/// No credential fails, a wrong credential fails through either channel and
/// the header always takes precedence, while the exact secret succeeds
/// through either channel.
pub proof fn lemma_auth_cases(secret: String, wrong: String, exact: String)
    requires
        wrong@ != secret@,
        exact@ == secret@,
    ensures
        !spec_auth_ok(Option::<String>::None, Option::<String>::None, secret@),
        !spec_auth_ok(Some(wrong), Option::<String>::None, secret@),
        !spec_auth_ok(Option::<String>::None, Some(wrong), secret@),
        !spec_auth_ok(Some(wrong), Some(exact), secret@),
        spec_auth_ok(Some(exact), Option::<String>::None, secret@),
        spec_auth_ok(Option::<String>::None, Some(exact), secret@),
        spec_auth_ok(Some(exact), Some(wrong), secret@),
{
}

} // verus!
