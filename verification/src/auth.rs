//! The token issuer: validates an app's credentials and identifiers and
//! issues a short-lived signed bearer token.
//!
//! The token's subject is `<uid>.<app>`, its optional group claim
//! `<gid>.<app>`, and it expires five minutes after issue. Signing and
//! verification are the JWT library's; its calls stand behind trusted
//! wrappers whose contracts name the token and the claims it carries.
use vstd::prelude::*;

use crate::clock::now_unix;
use crate::config::spec_lookup;
use crate::config::lookup;
use crate::text::join_dot;
use crate::text::str_eq;

verus! {

/// A failure of the token issuer. Credential failures are reported opaquely;
/// identifier failures name the field.
#[derive(Debug, Clone, PartialEq)]
pub enum Error {
    /// The app is not known.
    AppLookup,
    /// The key does not match the app's key.
    InvalidKey,
    /// The user id is empty, too long, or not alphanumeric.
    InvalidUserId,
    /// The group id is empty, too long, or not alphanumeric.
    InvalidGroupId,
    /// The signing library failed, or the clock was unusable.
    CreateToken,
}

impl Error {
    /// The HTTP status this failure is reported with. Credential failures
    /// are both unauthorized, deliberately indistinguishable.
    pub fn status_code(&self) -> (r: u16)
        ensures
            *self == Error::AppLookup || *self == Error::InvalidKey ==> r == 401,
            *self == Error::InvalidUserId || *self == Error::InvalidGroupId ==> r == 400,
            *self == Error::CreateToken ==> r == 500,
    {
        match self {
            Error::AppLookup => 401,
            Error::InvalidKey => 401,
            Error::InvalidUserId => 400,
            Error::InvalidGroupId => 400,
            Error::CreateToken => 500,
        }
    }

    /// The message this failure is reported with.
    pub fn message(&self) -> (r: &'static str)
        ensures
            *self == Error::AppLookup || *self == Error::InvalidKey ==> r@ == "Unauthorized"@,
            *self == Error::InvalidUserId ==> r@ == "Invalid uid"@,
            *self == Error::InvalidGroupId ==> r@ == "Invalid gid"@,
            *self == Error::CreateToken ==> r@ == "Internal Server Error"@,
    {
        match self {
            Error::AppLookup => "Unauthorized",
            Error::InvalidKey => "Unauthorized",
            Error::InvalidUserId => "Invalid uid",
            Error::InvalidGroupId => "Invalid gid",
            Error::CreateToken => "Internal Server Error",
        }
    }
}

/// The claims carried by a token.
#[derive(Debug, PartialEq)]
pub struct Claims {
    /// Subject of the token: `<uid>.<app>`.
    pub sub: String,
    /// Expiration time, seconds since the Unix epoch.
    pub exp: u64,
    /// Optional group id: `<gid>.<app>`.
    pub gid: Option<String>,
}

impl Clone for Claims {
    fn clone(&self) -> (res: Self)
        ensures
            res == *self,
    {
        Claims {
            sub: self.sub.clone(),
            exp: self.exp,
            gid: crate::resource::clone_opt_string(&self.gid),
        }
    }
}

/// A request for a token: a backend app authenticates on behalf of its user.
#[derive(Debug, Clone, PartialEq)]
pub struct TokenRequest {
    /// The id of the app authenticating its user.
    pub app: String,
    /// The API key for the app.
    pub key: String,
    /// The id of the user of the app. Must be unique within the app.
    pub uid: String,
    /// Optional id of the group the user belongs to.
    pub gid: Option<String>,
}

/// A freshly issued token.
#[derive(Debug, Clone, PartialEq)]
pub struct TokenResponse {
    /// The signed bearer token.
    pub token: String,
}

/// The view of an optional owned string.
pub open spec fn opt_view(g: Option<String>) -> Option<Seq<char>> {
    match g {
        Some(s) => Some(s@),
        None => None,
    }
}

/// The view of an optional string slice.
pub open spec fn opt_str_view(g: Option<&str>) -> Option<Seq<char>> {
    match g {
        Some(s) => Some(s@),
        None => None,
    }
}

/// The signed token the JWT library produces for these claims under this
/// secret. HS256 with the default header is deterministic, so the token is a
/// function of the secret and the claims alone.
pub uninterp spec fn jwt_token_of(
    secret: Seq<u8>,
    sub: Seq<char>,
    exp: u64,
    gid: Option<Seq<char>>,
) -> Seq<char>;

/// The claims a token carries under this secret, when it verifies at all: a
/// token determines its payload, and the signature check ties it to the
/// secret.
pub uninterp spec fn jwt_claims_of(secret: Seq<u8>, token: Seq<char>) -> Option<
    (Seq<char>, u64, Option<Seq<char>>),
>;

/// Relies on jsonwebtoken::encode with the default (HS256) header: the token
/// is a function of the secret and the claims alone, and decoding it with
/// the same secret yields exactly the claims that were encoded. The call
/// always returns a token: serializing the header and this fixed claim
/// shape cannot fail, an HMAC key from a plain secret accepts any length,
/// and signing is infallible, so the library's only failure paths (wrong
/// key family, no crypto provider) are unreachable here.
#[verifier::external_body]
fn jwt_encode(secret: &[u8], sub: &str, exp: u64, gid: Option<&str>) -> (r: Option<String>)
    ensures
        r is Some,
        r matches Some(t) ==> t@ == jwt_token_of(secret@, sub@, exp, opt_str_view(gid))
            && jwt_claims_of(secret@, t@) == Some((sub@, exp, opt_str_view(gid))),
{
    let mut claims = serde_json::Map::new();
    claims.insert("sub".to_owned(), serde_json::Value::from(sub));
    claims.insert("exp".to_owned(), serde_json::Value::from(exp));
    let gid_value = match gid {
        Some(g) => serde_json::Value::from(g),
        None => serde_json::Value::Null,
    };
    claims.insert("gid".to_owned(), gid_value);
    jsonwebtoken::encode(
        &jsonwebtoken::Header::default(),
        &serde_json::Value::Object(claims),
        &jsonwebtoken::EncodingKey::from_secret(secret),
    )
    .ok()
}

/// Relies on jsonwebtoken::decode with default validation (HS256, signature
/// and expiry checked): a token that verifies yields exactly the claims it
/// encodes, and nothing else is promised — an expired or foreign token may
/// fail at any time.
#[verifier::external_body]
pub(crate) fn jwt_decode(secret: &[u8], token: &str) -> (r: Option<Claims>)
    ensures
        r matches Some(c) ==> jwt_claims_of(secret@, token@) == Some(
            (c.sub@, c.exp, opt_view(c.gid)),
        ),
{
    let key = jsonwebtoken::DecodingKey::from_secret(secret);
    let validation = jsonwebtoken::Validation::default();
    let data = jsonwebtoken::decode::<serde_json::Value>(token, &key, &validation).ok()?;
    let sub = data.claims.get("sub")?.as_str()?.to_owned();
    let exp = data.claims.get("exp")?.as_u64()?;
    let gid = match data.claims.get("gid") {
        Some(serde_json::Value::String(g)) => Some(g.clone()),
        None | Some(serde_json::Value::Null) => None,
        Some(_) => return None,
    };
    Some(Claims { sub, exp, gid })
}

/// A single alphanumeric ASCII character.
pub open spec fn is_alnum(c: char) -> bool {
    (('0' as u32) <= (c as u32) && (c as u32) <= ('9' as u32)) || (('a' as u32) <= (c as u32) && (
    c as u32) <= ('z' as u32)) || (('A' as u32) <= (c as u32) && (c as u32) <= ('Z' as u32))
}

/// A valid identifier: non-empty, at most `n` characters, all of them
/// alphanumeric ASCII.
pub open spec fn spec_valid_id(s: Seq<char>, n: int) -> bool {
    s.len() > 0 && s.len() <= n && forall|i: int| 0 <= i < s.len() ==> is_alnum(#[trigger] s[i])
}

/// Decide whether `s` is a valid identifier of at most `n` characters.
pub fn is_valid_id(s: &str, n: usize) -> (r: bool)
    ensures
        r == spec_valid_id(s@, n as int),
{
    let len: usize = s.unicode_len();
    if len == 0 || len > n {
        return false;
    }
    let mut i: usize = 0;
    while i < len
        invariant
            len == s@.len(),
            i <= len,
            forall|j: int| 0 <= j < i ==> is_alnum(#[trigger] s@[j]),
        decreases len - i,
    {
        let c = s.get_char(i);
        let u = c as u32;
        let ok = (48 <= u && u <= 57) || (97 <= u && u <= 122) || (65 <= u && u <= 90);
        if !ok {
            return false;
        }
        i = i + 1;
    }
    true
}

/// The longest identifier that still fits in a label value together with the
/// app name and the separating dot: identifier, dot and app must stay within
/// 63 characters.
pub open spec fn max_id_len(app: Seq<char>) -> int {
    63 - 1 - app.len()
}

/// A subject or group claim: `<id>.<app>`.
pub open spec fn sub_of(id: Seq<char>, app: Seq<char>) -> Seq<char> {
    id + "."@ + app
}

/// Sign a token carrying this subject, optional group, and an expiry five
/// minutes from `now`. Fails only when the clock is unusable or the signing
/// library refuses.
fn create_jwt(sub: String, gid: Option<String>, secret: &[u8], now: i64) -> (r: Result<
    String,
    Error,
>)
    ensures
        0 <= now && now + 300 <= i64::MAX <==> r is Ok,
        r matches Ok(t) ==> t@ == jwt_token_of(
            secret@,
            sub@,
            (now + 300) as u64,
            opt_view(gid),
        ) && jwt_claims_of(secret@, t@) == Some((sub@, (now + 300) as u64, opt_view(gid))),
        r is Err ==> r == Err::<String, Error>(Error::CreateToken),
{
    if now < 0 {
        return Err(Error::CreateToken);
    }
    let exp_at = match now.checked_add(300) {
        Some(e) => e,
        None => {
            return Err(Error::CreateToken);
        },
    };
    let exp: u64 = exp_at as u64;
    let gid_ref: Option<&str> = match &gid {
        Some(g) => Some(g.as_str()),
        None => None,
    };
    match jwt_encode(secret, sub.as_str(), exp, gid_ref) {
        Some(t) => Ok(t),
        None => Err(Error::CreateToken),
    }
}

/// Everything `token` checks before it signs, in one guard: the app is
/// known, the key matches, and the identifiers fit.
pub open spec fn token_request_valid(apps: Seq<(String, String)>, req: TokenRequest) -> bool {
    &&& spec_lookup(apps, req.app@) matches Some(k) && k@ == req.key@
    &&& spec_valid_id(req.uid@, max_id_len(req.app@))
    &&& (req.gid matches Some(g) ==> spec_valid_id(g@, max_id_len(req.app@)))
}

/// The group claim a request yields: the group id qualified by the app, when
/// one was given.
pub open spec fn spec_gid_claim(req: TokenRequest) -> Option<Seq<char>> {
    match req.gid {
        Some(g) => Some(sub_of(g@, req.app@)),
        None => None,
    }
}

/// Issue a token at the instant `now`.
///
/// Validation is exact: an unknown app and a wrong key are rejected
/// opaquely, in that order; then the user id and, if present, the group id
/// must each be non-empty, alphanumeric, and short enough that
/// `<id>.<app>` fits in a 63-character label value. The issued token
/// carries subject `<uid>.<app>`, group `<gid>.<app>` when given, and
/// expires 300 seconds after `now`.
pub fn token_at(apps: &Vec<(String, String)>, request: &TokenRequest, secret: &[u8], now: i64) -> (
    r: Result<TokenResponse, Error>)
    requires
        crate::resource::keys_unique(apps@),
    ensures
        (spec_lookup(apps@, request.app@) is None) <==> r == Err::<TokenResponse, Error>(
            Error::AppLookup,
        ),
        (spec_lookup(apps@, request.app@) matches Some(k) && k@ != request.key@) <==> r == Err::<
            TokenResponse,
            Error,
        >(Error::InvalidKey),
        (spec_lookup(apps@, request.app@) matches Some(k) && k@ == request.key@
            && !spec_valid_id(request.uid@, max_id_len(request.app@))) <==> r == Err::<
            TokenResponse,
            Error,
        >(Error::InvalidUserId),
        (spec_lookup(apps@, request.app@) matches Some(k) && k@ == request.key@
            && spec_valid_id(request.uid@, max_id_len(request.app@)) && (request.gid matches Some(
            g,
        ) && !spec_valid_id(g@, max_id_len(request.app@)))) <==> r == Err::<
            TokenResponse,
            Error,
        >(Error::InvalidGroupId),
        r is Ok <==> token_request_valid(apps@, *request) && 0 <= now && now + 300 <= i64::MAX,
        r == Err::<TokenResponse, Error>(Error::CreateToken) <==> token_request_valid(
            apps@,
            *request,
        ) && !(0 <= now && now + 300 <= i64::MAX),
        r matches Ok(resp) ==> resp.token@ == jwt_token_of(
            secret@,
            sub_of(request.uid@, request.app@),
            (now + 300) as u64,
            spec_gid_claim(*request),
        ) && jwt_claims_of(secret@, resp.token@) == Some(
            (sub_of(request.uid@, request.app@), (now + 300) as u64, spec_gid_claim(*request)),
        ),
{
    let key = match lookup(apps, request.app.as_str()) {
        None => {
            return Err(Error::AppLookup);
        },
        Some(k) => k,
    };
    if !str_eq(key.as_str(), request.key.as_str()) {
        return Err(Error::InvalidKey);
    }
    let app_len: usize = request.app.unicode_len();
    let max: usize = if app_len >= 62 {
        0
    } else {
        62 - app_len
    };
    if !is_valid_id(request.uid.as_str(), max) {
        return Err(Error::InvalidUserId);
    }
    let sub = join_dot(request.uid.as_str(), request.app.as_str());
    let gid_full: Option<String> = match &request.gid {
        Some(g) => {
            if !is_valid_id(g.as_str(), max) {
                return Err(Error::InvalidGroupId);
            }
            Some(join_dot(g.as_str(), request.app.as_str()))
        },
        None => None,
    };
    match create_jwt(sub, gid_full, secret, now) {
        Ok(t) => Ok(TokenResponse { token: t }),
        Err(e) => Err(e),
    }
}

/// Issue a token now. The validation outcome does not depend on the clock;
/// a token is only ever issued for a fully valid request, with the subject
/// and group claims the request determines.
pub fn token(apps: &Vec<(String, String)>, request: &TokenRequest, secret: &[u8]) -> (r: Result<
    TokenResponse,
    Error,
>)
    requires
        crate::resource::keys_unique(apps@),
    ensures
        (spec_lookup(apps@, request.app@) is None) <==> r == Err::<TokenResponse, Error>(
            Error::AppLookup,
        ),
        (spec_lookup(apps@, request.app@) matches Some(k) && k@ != request.key@) <==> r == Err::<
            TokenResponse,
            Error,
        >(Error::InvalidKey),
        (spec_lookup(apps@, request.app@) matches Some(k) && k@ == request.key@
            && !spec_valid_id(request.uid@, max_id_len(request.app@))) <==> r == Err::<
            TokenResponse,
            Error,
        >(Error::InvalidUserId),
        (spec_lookup(apps@, request.app@) matches Some(k) && k@ == request.key@
            && spec_valid_id(request.uid@, max_id_len(request.app@)) && (request.gid matches Some(
            g,
        ) && !spec_valid_id(g@, max_id_len(request.app@)))) <==> r == Err::<
            TokenResponse,
            Error,
        >(Error::InvalidGroupId),
        r is Ok || r == Err::<TokenResponse, Error>(Error::CreateToken) <==> token_request_valid(
            apps@,
            *request,
        ),
        r matches Ok(resp) ==> exists|e: u64|
            jwt_claims_of(secret@, resp.token@) == Some(
                (sub_of(request.uid@, request.app@), e, spec_gid_claim(*request)),
            ),
{
    let now = now_unix();
    token_at(apps, request, secret, now)
}

} // verus!
