//! Who is calling: the claims of a validated access token, the caller that
//! the operations see, and the secret that tokens are checked against.
use vstd::prelude::*;
use crate::error::ApiError;
use crate::runtime::now_utc;
use crate::text::{has_prefix, starts_with};

verus! {

/// The claims of an access token.
#[derive(Debug)]
pub struct Claims {
    /// The user's id.
    pub sub: String,
    pub email: String,
    /// Expiry, in seconds since the Unix epoch.
    pub exp: i64,
    /// Issue time, in seconds since the Unix epoch.
    pub iat: i64,
}

/// The caller of an operation, as its access token identifies it.
#[derive(Debug)]
pub struct AuthenticatedUser {
    pub user_id: String,
    pub email: String,
    pub is_admin: bool,
}

/// Holds the secret that access tokens are signed with.
pub struct TokenService {
    secret: String,
}

impl TokenService {
    /// A token service for `secret`.
    pub fn new(secret: String) -> (s: Self)
        ensures
            s.secret() == secret,
    {
        TokenService { secret }
    }

    /// The secret that tokens are checked against.
    pub closed spec fn secret(&self) -> String {
        self.secret
    }

    /// The secret that tokens are checked against.
    pub fn secret_str(&self) -> (s: &str)
        ensures
            s@ == self.secret()@,
    {
        self.secret.as_str()
    }

    /// Checks an access token at time `now` (seconds since the Unix epoch):
    /// its signature under the secret, then its expiry; answers its claims,
    /// or `InvalidToken`.
    pub fn validate_access_token_at(&self, token: &str, now: i64) -> (r: Result<Claims, ApiError>)
        ensures
            claims_answer(r, claims_verdict(jwt_claims(self.secret()@, token@), now)),
    {
        claims_from_decoded(decode_access_token(self.secret.as_str(), token), now)
    }

    /// Checks an access token by the clock: its signature under the secret,
    /// then its expiry; answers its claims, or `InvalidToken`.
    pub fn validate_access_token(&self, token: &str) -> (r: Result<Claims, ApiError>)
        ensures
            exists|now: i64| claims_answer(r, #[trigger] claims_verdict(jwt_claims(self.secret()@, token@), now)),
    {
        let now = now_utc();
        self.validate_access_token_at(token, now)
    }
}

/// What `jsonwebtoken::decode` makes of `token` under the HMAC secret
/// `secret` with the default validation but expiry left unchecked: the
/// `sub`, `email`, `exp` and `iat` claims of a token whose HS256 signature
/// checks out, or `None`.
pub uninterp spec fn jwt_claims(secret: Seq<char>, token: Seq<char>) -> Option<(Seq<char>, Seq<char>, i64, i64)>;

/// The claims of a decoded token, as text.
pub open spec fn decoded_view(d: Option<(String, String, i64, i64)>) -> Option<(Seq<char>, Seq<char>, i64, i64)> {
    match d {
        Some(c) => Some((c.0@, c.1@, c.2, c.3)),
        None => None,
    }
}

/// Decodes the access token `token` with `jsonwebtoken::decode` under the
/// HMAC secret `secret` and the default validation with the expiry check
/// switched off, into a JSON value; answers its `sub`, `email`, `exp` and
/// `iat` claims, or `None` where decoding fails or a claim is missing or
/// not a string, string, integer and integer. The answer is `jwt_claims` of
/// the two texts: it depends on nothing else.
#[verifier::external_body]
fn decode_access_token(secret: &str, token: &str) -> (r: Option<(String, String, i64, i64)>)
    ensures
        decoded_view(r) == jwt_claims(secret@, token@),
{
    let key = jsonwebtoken::DecodingKey::from_secret(secret.as_bytes());
    let mut validation = jsonwebtoken::Validation::default();
    validation.validate_exp = false;
    let data = jsonwebtoken::decode::<serde_json::Value>(token, &key, &validation).ok()?;
    let c = data.claims;
    Some((c.get("sub")?.as_str()?.to_owned(), c.get("email")?.as_str()?.to_owned(), c.get("exp")?.as_i64()?, c.get("iat")?.as_i64()?))
}

/// How many seconds past its `exp` a token is still accepted.
pub const TOKEN_LEEWAY_SECS: i64 = 60;

/// Whether a token that expires at `exp` has expired at `now`, leeway
/// allowed.
pub open spec fn token_expired(exp: i64, now: i64) -> bool {
    exp < now - TOKEN_LEEWAY_SECS
}

/// The claims of a decoded token that has not expired at `now`.
pub open spec fn claims_verdict(decoded: Option<(Seq<char>, Seq<char>, i64, i64)>, now: i64) -> Option<(Seq<char>, Seq<char>, i64, i64)> {
    match decoded {
        Some(c) => if token_expired(c.2, now) { None } else { Some(c) },
        None => None,
    }
}

/// `r` answers the verdict `v`: its claims, or `InvalidToken` for none.
pub open spec fn claims_answer(r: Result<Claims, ApiError>, v: Option<(Seq<char>, Seq<char>, i64, i64)>) -> bool {
    match v {
        Some(c) => r matches Ok(k) && k.sub@ == c.0 && k.email@ == c.1 && k.exp == c.2 && k.iat == c.3,
        None => r == Err::<Claims, ApiError>(ApiError::InvalidToken),
    }
}

/// The claims of a decoded token (`sub`, `email`, `exp`, `iat`) if it has
/// not expired at `now`; `InvalidToken` for an expired token or one that did
/// not decode.
pub fn claims_from_decoded(decoded: Option<(String, String, i64, i64)>, now: i64) -> (r: Result<Claims, ApiError>)
    ensures
        claims_answer(r, claims_verdict(decoded_view(decoded), now)),
{
    match decoded {
        Some((sub, email, exp, iat)) => {
            if (exp as i128) < (now as i128) - (TOKEN_LEEWAY_SECS as i128) {
                Err(ApiError::InvalidToken)
            } else {
                Ok(Claims { sub, email, exp, iat })
            }
        },
        None => Err(ApiError::InvalidToken),
    }
}

/// The token that an `Authorization` header carries: what follows
/// `Bearer `.
pub open spec fn bearer_of(authorization: Option<Seq<char>>) -> Option<Seq<char>> {
    match authorization {
        Some(h) => if has_prefix(h, "Bearer "@) { Some(h.skip(7)) } else { None },
        None => None,
    }
}

/// `r` names the caller that the verdict `v` admits (never an
/// administrator), or is `InvalidToken` where there is none.
pub open spec fn user_answer(r: Result<AuthenticatedUser, ApiError>, v: Option<(Seq<char>, Seq<char>, i64, i64)>) -> bool {
    match v {
        Some(c) => r matches Ok(u) && u.user_id@ == c.0 && u.email@ == c.1 && !u.is_admin,
        None => r == Err::<AuthenticatedUser, ApiError>(ApiError::InvalidToken),
    }
}

/// The token of an `Authorization` header, if it is a bearer token.
pub fn bearer_token(authorization: Option<&str>) -> (r: Option<&str>)
    ensures
        opt_view(r) == bearer_of(opt_view(authorization)),
{
    proof { reveal_strlit("Bearer "); }
    match authorization {
        Some(h) => {
            if starts_with(h, "Bearer ") {
                Some(h.substring_char(7, h.unicode_len()))
            } else {
                None
            }
        },
        None => None,
    }
}

/// The view of an optional text.
pub open spec fn opt_view(o: Option<&str>) -> Option<Seq<char>> {
    match o {
        Some(s) => Some(s@),
        None => None,
    }
}

/// Who calls at time `now`, by the `Authorization` header of a request: a
/// bearer token that checks out names the caller; anything else is
/// `InvalidToken`.
pub fn authenticate_at(tokens: &TokenService, authorization: Option<&str>, now: i64) -> (r: Result<AuthenticatedUser, ApiError>)
    ensures
        match bearer_of(opt_view(authorization)) {
            Some(t) => user_answer(r, claims_verdict(jwt_claims(tokens.secret()@, t), now)),
            None => r == Err::<AuthenticatedUser, ApiError>(ApiError::InvalidToken),
        },
{
    match bearer_token(authorization) {
        Some(token) => match tokens.validate_access_token_at(token, now) {
            Ok(c) => Ok(AuthenticatedUser { user_id: c.sub, email: c.email, is_admin: false }),
            Err(e) => Err(e),
        },
        None => Err(ApiError::InvalidToken),
    }
}

/// Who calls, by the clock and the `Authorization` header of a request: a
/// bearer token that checks out names the caller; anything else is
/// `InvalidToken`.
pub fn authenticate(tokens: &TokenService, authorization: Option<&str>) -> (r: Result<AuthenticatedUser, ApiError>)
    ensures
        bearer_of(opt_view(authorization)) is None ==> r == Err::<AuthenticatedUser, ApiError>(ApiError::InvalidToken),
        bearer_of(opt_view(authorization)) matches Some(t) ==> exists|now: i64|
            user_answer(r, #[trigger] claims_verdict(jwt_claims(tokens.secret()@, t), now)),
{
    let now = now_utc();
    authenticate_at(tokens, authorization, now)
}

/// Law: a token that decodes is accepted up to one minute past its expiry
/// and refused after that; one that does not decode is always refused; and
/// what is accepted keeps the token's claims.
pub proof fn law_token_accepted_until_a_minute_past_expiry(decoded: Option<(Seq<char>, Seq<char>, i64, i64)>, now: i64)
    ensures
        decoded is None ==> claims_verdict(decoded, now) is None,
        decoded matches Some(c) ==> (claims_verdict(decoded, now) is Some <==> now <= c.2 + 60),
        claims_verdict(decoded, now) is Some ==> claims_verdict(decoded, now) == decoded,
{
}

/// Law: a token accepted at some time is accepted at every earlier time.
pub proof fn law_token_accepted_earlier(decoded: Option<(Seq<char>, Seq<char>, i64, i64)>, now: i64, earlier: i64)
    requires
        claims_verdict(decoded, now) is Some,
        earlier <= now,
    ensures
        claims_verdict(decoded, earlier) == claims_verdict(decoded, now),
{
}

} // verus!
