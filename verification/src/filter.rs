//! The authorization filter's core: extract the bearer token from the
//! `Authorization` header and decode the claims it carries.
//!
//! The surrounding router rejects a request without the header outright;
//! everything after that — the `Bearer ` prefix, the decode, the expiry
//! check the JWT library performs — is decided here.
use vstd::prelude::*;

use crate::auth::Claims;
use crate::auth::jwt_claims_of;
use crate::auth::jwt_decode;
use crate::auth::opt_view;

verus! {

/// A failure of the authorization filter; each is answered as unauthorized.
#[derive(Debug, Clone, Copy, PartialEq)]
pub enum Error {
    /// The request carries no `Authorization` header.
    MissingAuthHeader,
    /// The header does not start with `Bearer `.
    MissingBearerPrefix,
    /// The token failed to decode: bad form, wrong signature, or expired.
    DecodeToken,
}

impl Error {
    /// The HTTP status a filter failure is reported with.
    pub fn status_code(&self) -> (r: u16)
        ensures
            r == 401,
    {
        401
    }
}

/// The header starts with the bearer scheme marker.
pub open spec fn has_bearer_prefix(h: Seq<char>) -> bool {
    h.len() >= 7 && h.subrange(0, 7) == "Bearer "@
}

/// Strip the `Bearer ` prefix from an authorization header.
pub fn bearer_token(header: &str) -> (r: Option<&str>)
    ensures
        r matches Some(t) ==> has_bearer_prefix(header@) && t@ == header@.subrange(
            7,
            header@.len() as int,
        ),
        r is None ==> !has_bearer_prefix(header@),
{
    let len: usize = header.unicode_len();
    proof {
        reveal_strlit("Bearer ");
    }
    if len < 7 {
        return None;
    }
    let prefix = "Bearer ";
    let mut i: usize = 0;
    while i < 7
        invariant
            i <= 7,
            len == header@.len(),
            len >= 7,
            prefix@ == "Bearer "@,
            forall|j: int| 0 <= j < i ==> header@[j] == "Bearer "@[j],
        decreases 7 - i,
    {
        proof {
            reveal_strlit("Bearer ");
        }
        let c = header.get_char(i);
        let p = prefix.get_char(i);
        if c != p {
            proof {
                assert(header@.subrange(0, 7) != "Bearer "@) by {
                    assert(header@.subrange(0, 7)[i as int] == header@[i as int]);
                }
            }
            return None;
        }
        i = i + 1;
    }
    proof {
        assert(header@.subrange(0, 7) =~= "Bearer "@);
    }
    Some(header.substring_char(7, len))
}

/// Decode and validate a bearer token: on success the claims are exactly
/// those the token encodes under this secret.
pub fn decode_jwt(token: &str, secret: &[u8]) -> (r: Result<Claims, Error>)
    ensures
        r matches Ok(c) ==> jwt_claims_of(secret@, token@) == Some(
            (c.sub@, c.exp, opt_view(c.gid)),
        ),
        r is Err ==> r == Err::<Claims, Error>(Error::DecodeToken),
{
    match jwt_decode(secret, token) {
        Some(c) => Ok(c),
        None => Err(Error::DecodeToken),
    }
}

/// Authorize a request from its `Authorization` header: require the bearer
/// scheme, then decode and validate the token. On success the claims handed
/// to the handler are exactly those the token encodes.
pub fn authorize(header: &str, secret: &[u8]) -> (r: Result<Claims, Error>)
    ensures
        !has_bearer_prefix(header@) <==> r == Err::<Claims, Error>(Error::MissingBearerPrefix),
        r matches Ok(c) ==> has_bearer_prefix(header@) && jwt_claims_of(
            secret@,
            header@.subrange(7, header@.len() as int),
        ) == Some((c.sub@, c.exp, opt_view(c.gid))),
        r is Err ==> r == Err::<Claims, Error>(Error::MissingBearerPrefix) || r == Err::<
            Claims,
            Error,
        >(Error::DecodeToken),
{
    let token = match bearer_token(header) {
        None => {
            return Err(Error::MissingBearerPrefix);
        },
        Some(t) => t,
    };
    match decode_jwt(token, secret) {
        Ok(c) => Ok(c),
        Err(_) => Err(Error::DecodeToken),
    }
}

} // verus!
