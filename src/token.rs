use vstd::prelude::*;
use crate::entities::{ClaimsData, ClaimsToUserToken};

verus! {

#[verifier::external_type_specification]
#[verifier::external_body]
pub struct ExJwtError(jsonwebtoken::errors::Error);

/// How long an issued token stays valid, in seconds.
pub const TOKEN_LIFETIME_SECS: u64 = 86400;

/// The compact token that `jsonwebtoken::encode` gives for `claims` under the
/// default HS256 header, signed with the bytes of `secret`.
pub uninterp spec fn jwt_hs256_token(claims: ClaimsData, secret: Seq<char>) -> Seq<char>;

/// The claims that `jsonwebtoken::decode` finds in `token` when its structure
/// is sound and its HS256 signature matches `secret` (expiry not considered);
/// `None` when it rejects the token or the payload lacks one of the fields.
pub uninterp spec fn jwt_hs256_claims(token: Seq<char>, secret: Seq<char>) -> Option<ClaimsData>;

/// Relies on `jsonwebtoken::encode` with `Header::default()` (HS256) and
/// `EncodingKey::from_secret`: an HMAC key with an HMAC algorithm never fails
/// and a JSON object always serialises, and `decode` under the same secret
/// finds the same claims again.
#[verifier::external_body]
fn jwt_encode(claims: &ClaimsToUserToken, secret: &str) -> (r: Result<
    String,
    jsonwebtoken::errors::Error,
>)
    ensures
        r is Ok,
        r is Ok ==> r->Ok_0@ == jwt_hs256_token(claims@, secret@),
        r is Ok ==> jwt_hs256_claims(r->Ok_0@, secret@) == Some(claims@),
{
    let mut payload = serde_json::Map::new();
    payload.insert("id".to_string(), serde_json::Value::from(claims.id.clone()));
    payload.insert("exp".to_string(), serde_json::Value::from(claims.exp));
    payload.insert("full_name".to_string(), serde_json::Value::from(claims.full_name.clone()));
    payload.insert("email".to_string(), serde_json::Value::from(claims.email.clone()));
    let key = jsonwebtoken::EncodingKey::from_secret(secret.as_bytes());
    jsonwebtoken::encode(&jsonwebtoken::Header::default(), &payload, &key)
}

/// Relies on `jsonwebtoken::decode` with `DecodingKey::from_secret` and the
/// default HS256 validation, expiry check switched off (it is decided by the
/// caller against an explicit clock reading); the payload's fields are moved
/// into the claims record.
#[verifier::external_body]
fn jwt_decode(token: &str, secret: &str) -> (r: Option<ClaimsToUserToken>)
    ensures
        r is Some ==> jwt_hs256_claims(token@, secret@) == Some(r->Some_0@),
        r is None ==> jwt_hs256_claims(token@, secret@) is None,
{
    let mut validation = jsonwebtoken::Validation::default();
    validation.validate_exp = false;
    let key = jsonwebtoken::DecodingKey::from_secret(secret.as_bytes());
    let data = jsonwebtoken::decode::<serde_json::Map<String, serde_json::Value>>(token, &key, &validation).ok()?;
    let text = |k: &str| data.claims.get(k).and_then(|v| v.as_str()).map(|s| s.to_string());
    let exp = data.claims.get("exp").and_then(|v| v.as_u64())?;
    Some(ClaimsToUserToken { id: text("id")?, exp, full_name: text("full_name")?, email: text("email")? })
}

/// Relies on `std::time::SystemTime::elapsed` from `UNIX_EPOCH`: whole seconds
/// since the epoch, or `None` when the clock reads earlier. Nothing is promised
/// of the value.
#[verifier::external_body]
pub(crate) fn unix_seconds_now() -> (r: Option<u64>) {
    std::time::UNIX_EPOCH.elapsed().ok().map(|d| d.as_secs())
}

/// Why a token could not be issued or was not accepted.
#[derive(Debug, Clone, Copy, PartialEq, Eq, Structural)]
pub enum TokenError {
    /// Bad structure, bad signature or expired: deliberately one outcome.
    InvalidToken,
    /// The clock reads before the epoch, or the expiry would not fit.
    ClockUnavailable,
}

/// The claims issued at `now`: the expiry is exactly one lifetime later.
pub open spec fn claims_issued_at(
    id: Seq<char>,
    full_name: Seq<char>,
    email: Seq<char>,
    now: u64,
) -> ClaimsData {
    (id, full_name, email, (now + TOKEN_LIFETIME_SECS) as u64)
}

/// What verifying `token` under `secret` at instant `now` yields: its claims
/// when the signature holds and `now` is before the expiry, else nothing.
pub open spec fn token_verdict(token: Seq<char>, secret: Seq<char>, now: u64) -> Option<ClaimsData> {
    match jwt_hs256_claims(token, secret) {
        Some(c) => if now < c.3 {
            Some(c)
        } else {
            None
        },
        None => None,
    }
}

/// Issues the token for a subject at clock reading `now`.
///
/// The token verifies, under the same secret, to exactly the issued subject at
/// every instant before the expiry, and is rejected at every instant from the
/// expiry on.
pub fn issue_token_at(id: String, full_name: String, email: String, secret: &str, now: u64) -> (r:
    Result<String, TokenError>)
    ensures
        now + TOKEN_LIFETIME_SECS <= u64::MAX <==> r is Ok,
        r is Err ==> r->Err_0 == TokenError::ClockUnavailable,
        r is Ok ==> r->Ok_0@ == jwt_hs256_token(
            claims_issued_at(id@, full_name@, email@, now),
            secret@,
        ),
        r is Ok ==> forall|t: u64|
            t < now + TOKEN_LIFETIME_SECS ==> #[trigger] token_verdict(r->Ok_0@, secret@, t) == Some(
                claims_issued_at(id@, full_name@, email@, now),
            ),
        r is Ok ==> forall|t: u64|
            t >= now + TOKEN_LIFETIME_SECS ==> #[trigger] token_verdict(r->Ok_0@, secret@, t) is None,
{
    if now > u64::MAX - TOKEN_LIFETIME_SECS {
        return Err(TokenError::ClockUnavailable);
    }
    let claims = ClaimsToUserToken { id, exp: now + TOKEN_LIFETIME_SECS, full_name, email };
    match jwt_encode(&claims, secret) {
        Ok(token) => Ok(token),
        Err(_) => {
            // signing with an HMAC key under HS256 cannot fail
            assert(false);
            Err(TokenError::ClockUnavailable)
        },
    }
}

/// Verifies `token` under `secret` at clock reading `now`: its claims when the
/// signature holds and it has not expired, else `InvalidToken`.
pub fn verify_token_at(token: &str, secret: &str, now: u64) -> (r: Result<
    ClaimsToUserToken,
    TokenError,
>)
    ensures
        r is Ok <==> token_verdict(token@, secret@, now) is Some,
        r is Ok ==> token_verdict(token@, secret@, now) == Some(r->Ok_0@),
        r is Err ==> r->Err_0 == TokenError::InvalidToken,
{
    match jwt_decode(token, secret) {
        Some(claims) => {
            if now < claims.exp {
                Ok(claims)
            } else {
                Err(TokenError::InvalidToken)
            }
        },
        None => Err(TokenError::InvalidToken),
    }
}

/// Verifies `token` under `secret` against the current clock.
pub fn verify_token(token: &str, secret: &str) -> (r: Result<ClaimsToUserToken, TokenError>)
    ensures
        r is Ok ==> exists|now: u64| token_verdict(token@, secret@, now) == Some(r->Ok_0@),
        jwt_hs256_claims(token@, secret@) is None ==> r is Err,
        r is Err ==> r->Err_0 == TokenError::InvalidToken,
{
    match unix_seconds_now() {
        Some(now) => verify_token_at(token, secret, now),
        None => Err(TokenError::InvalidToken),
    }
}

/// Creation of signed, time-bound identity tokens.
pub trait TokenGeneratorPort {
    /// Issues a token for the subject, valid for one lifetime from now.
    fn generate_token(&self, id: String, full_name: String, email: String, secret: &str) -> (r:
        Result<String, TokenError>)
        ensures
            r is Ok ==> exists|now: u64|
                #![trigger claims_issued_at(id@, full_name@, email@, now)]
                r->Ok_0@ == jwt_hs256_token(claims_issued_at(id@, full_name@, email@, now), secret@)
                    && token_verdict(r->Ok_0@, secret@, now) == Some(
                    claims_issued_at(id@, full_name@, email@, now),
                ),
            r is Err ==> r->Err_0 == TokenError::ClockUnavailable,
    ;
}

/// HS256 tokens signed with a shared secret.
#[derive(Clone)]
pub struct JwtTokenGenerator;

impl JwtTokenGenerator {
    pub fn new() -> (r: Self)
        ensures
            r == JwtTokenGenerator,
    {
        JwtTokenGenerator
    }
}

impl TokenGeneratorPort for JwtTokenGenerator {
    fn generate_token(&self, id: String, full_name: String, email: String, secret: &str) -> (r:
        Result<String, TokenError>) {
        let ghost (i, f, e) = (id@, full_name@, email@);
        match unix_seconds_now() {
            Some(now) => {
                let r = issue_token_at(id, full_name, email, secret, now);
                proof {
                    if r is Ok {
                        assert(token_verdict(r->Ok_0@, secret@, now) == Some(
                            claims_issued_at(i, f, e, now),
                        ));
                    }
                }
                r
            },
            None => Err(TokenError::ClockUnavailable),
        }
    }
}

} // verus!
