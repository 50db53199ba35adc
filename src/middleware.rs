use vstd::prelude::*;
use crate::config::Config;
use crate::entities::{ClaimsData, ClaimsToUserToken};
use crate::token::{token_verdict, unix_seconds_now, verify_token_at};
use crate::validations::{has_prefix, is_public_route, is_public_route_spec, starts_with};

verus! {

/// Paths under this prefix need no API key.
pub const API_KEY_EXEMPT_PREFIX: &'static str = "/api/swagger";

/// The scheme that an `Authorization` header must start with.
pub const BEARER_PREFIX: &'static str = "Bearer ";

/// What the access guard reads of a request.
#[derive(Debug, Clone)]
pub struct AccessRequest {
    pub path: String,
    /// The `api_key` header, if present.
    pub api_key: Option<String>,
    /// The `Authorization` header, if present.
    pub authorization: Option<String>,
}

/// Why the guard turned a request away.
#[derive(Debug, Clone, Copy, PartialEq, Eq, Structural)]
pub enum AccessRejection {
    EmptyApiKey,
    WrongApiKey,
    NoAuthorizationHeader,
    InvalidAuthorizationHeader,
    InvalidToken,
}

/// The text that a rejection is reported with.
pub open spec fn rejection_text(r: AccessRejection) -> Seq<char> {
    match r {
        AccessRejection::EmptyApiKey => "empty api_key"@,
        AccessRejection::WrongApiKey => "wrong api_key"@,
        AccessRejection::NoAuthorizationHeader => "No authorization header"@,
        AccessRejection::InvalidAuthorizationHeader => "Invalid authorization header"@,
        AccessRejection::InvalidToken => "Invalid token"@,
    }
}

impl AccessRejection {
    /// The text this rejection is reported with.
    pub fn message(&self) -> (r: &'static str)
        ensures
            r@ == rejection_text(*self),
    {
        match self {
            AccessRejection::EmptyApiKey => "empty api_key",
            AccessRejection::WrongApiKey => "wrong api_key",
            AccessRejection::NoAuthorizationHeader => "No authorization header",
            AccessRejection::InvalidAuthorizationHeader => "Invalid authorization header",
            AccessRejection::InvalidToken => "Invalid token",
        }
    }
}

/// The guard's decision as plain values.
pub enum AccessOutcome {
    /// Let through without identity (a public route).
    Proceed,
    /// Let through, with the verified claims attached to the request.
    ProceedAs(ClaimsData),
    Reject(AccessRejection),
}

/// The guard's decision on one request.
#[derive(Debug, Clone)]
pub enum AccessDecision {
    Proceed,
    ProceedAs(ClaimsToUserToken),
    Reject(AccessRejection),
}

impl View for AccessDecision {
    type V = AccessOutcome;

    open spec fn view(&self) -> AccessOutcome {
        match self {
            AccessDecision::Proceed => AccessOutcome::Proceed,
            AccessDecision::ProceedAs(c) => AccessOutcome::ProceedAs(c@),
            AccessDecision::Reject(r) => AccessOutcome::Reject(*r),
        }
    }
}

/// The API-key check: `None` when the request may go on.
pub open spec fn api_key_check(path: Seq<char>, api_key: Option<Seq<char>>, expected: Seq<char>) -> Option<
    AccessRejection,
> {
    if has_prefix(path, API_KEY_EXEMPT_PREFIX@) {
        None
    } else {
        match api_key {
            None => Some(AccessRejection::EmptyApiKey),
            Some(k) => if k == expected {
                None
            } else {
                Some(AccessRejection::WrongApiKey)
            },
        }
    }
}

/// The bearer-token check, for requests to non-public routes.
pub open spec fn bearer_check(authorization: Option<Seq<char>>, secret: Seq<char>, now: u64) -> AccessOutcome {
    match authorization {
        None => AccessOutcome::Reject(AccessRejection::NoAuthorizationHeader),
        Some(a) => if !has_prefix(a, BEARER_PREFIX@) {
            AccessOutcome::Reject(AccessRejection::InvalidAuthorizationHeader)
        } else {
            match token_verdict(a.subrange(BEARER_PREFIX@.len() as int, a.len() as int), secret, now) {
                Some(c) => AccessOutcome::ProceedAs(c),
                None => AccessOutcome::Reject(AccessRejection::InvalidToken),
            }
        },
    }
}

/// The whole pipeline: API key first, whatever the route; then the public-route
/// bypass; then the bearer token.
pub open spec fn access_outcome(
    path: Seq<char>,
    api_key: Option<Seq<char>>,
    authorization: Option<Seq<char>>,
    expected_key: Seq<char>,
    secret: Seq<char>,
    now: u64,
) -> AccessOutcome {
    match api_key_check(path, api_key, expected_key) {
        Some(r) => AccessOutcome::Reject(r),
        None => if is_public_route_spec(path) {
            AccessOutcome::Proceed
        } else {
            bearer_check(authorization, secret, now)
        },
    }
}

/// The view of an optional header.
pub open spec fn header_view(h: Option<String>) -> Option<Seq<char>> {
    match h {
        Some(s) => Some(s@),
        None => None,
    }
}

/// The guard's outcome for `req` under `config` at clock reading `now`.
pub open spec fn request_outcome(req: AccessRequest, config: Config, now: u64) -> AccessOutcome {
    access_outcome(
        req.path@,
        header_view(req.api_key),
        header_view(req.authorization),
        config.api_key@,
        config.jwt_secret@,
        now,
    )
}

/// Decides whether `req` may proceed, with the clock reading `now`.
pub fn evaluate_access(req: &AccessRequest, config: &Config, now: u64) -> (r: AccessDecision)
    ensures
        r@ == request_outcome(*req, *config, now),
{
    if !starts_with(req.path.as_str(), API_KEY_EXEMPT_PREFIX) {
        match &req.api_key {
            Some(key) => {
                if !key.eq(&config.api_key) {
                    return AccessDecision::Reject(AccessRejection::WrongApiKey);
                }
            },
            None => {
                return AccessDecision::Reject(AccessRejection::EmptyApiKey);
            },
        }
    }
    if is_public_route(req.path.as_str()) {
        return AccessDecision::Proceed;
    }
    let auth = match &req.authorization {
        Some(a) => a.as_str(),
        None => {
            return AccessDecision::Reject(AccessRejection::NoAuthorizationHeader);
        },
    };
    if !starts_with(auth, BEARER_PREFIX) {
        return AccessDecision::Reject(AccessRejection::InvalidAuthorizationHeader);
    }
    let skip = BEARER_PREFIX.unicode_len();
    let n = auth.unicode_len();
    let token = auth.substring_char(skip, n);
    match verify_token_at(token, config.jwt_secret.as_str(), now) {
        Ok(claims) => AccessDecision::ProceedAs(claims),
        Err(_) => AccessDecision::Reject(AccessRejection::InvalidToken),
    }
}

/// The access guard placed in front of every handler.
pub struct AuthMiddleware;

impl AuthMiddleware {
    pub fn new() -> (r: Self)
        ensures
            r == AuthMiddleware,
    {
        AuthMiddleware
    }

    /// Wraps the downstream `service` with the guard.
    pub fn new_transform<S>(&self, service: S) -> (r: AuthMiddlewareService<S>)
        ensures
            r.service == service,
    {
        AuthMiddlewareService { service }
    }
}

/// The guard bound to the service it protects.
pub struct AuthMiddlewareService<S> {
    pub service: S,
}

impl<S> AuthMiddlewareService<S> {
    /// The protected service.
    pub fn service(&self) -> (r: &S)
        ensures
            *r == self.service,
    {
        &self.service
    }

    /// Decides on `req` against the current clock. A clock that reads before the
    /// epoch counts as past every expiry, so no token is accepted then.
    pub fn call(&self, req: &AccessRequest, config: &Config) -> (r: AccessDecision)
        ensures
            exists|now: u64| r@ == request_outcome(*req, *config, now),
    {
        let now = match unix_seconds_now() {
            Some(t) => t,
            None => u64::MAX,
        };
        evaluate_access(req, config, now)
    }
}

} // verus!
