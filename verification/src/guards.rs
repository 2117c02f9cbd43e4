//! Request guards of the HTTP surface.
//!
//! The HTTP adapter itself lives outside the library; the decision each
//! guard makes is here. Rate limiting is entirely the adapter's clock-bound
//! concern and stays with it.

use vstd::prelude::*;
use vstd::string::StringExecFns;

verus! {

/// A bearer token taken from a request's Authorization header.
pub struct AuthorizationHeader {
    pub token: String,
}

/// The authorization guard's decision: a request that carries an
/// Authorization header passes with its token; one without is rejected
/// with the guard's fixed message.
pub fn authorize(token: Option<String>) -> (r: Result<AuthorizationHeader, String>)
    ensures
        match r {
            Ok(h) => token matches Some(t) && h.token == t,
            Err(m) => token is None && m@ == "No access token provided"@,
        },
{
    match token {
        Option::Some(t) => Result::Ok(AuthorizationHeader { token: t }),
        Option::None => Result::Err(String::from_str("No access token provided")),
    }
}

} // verus!
