use rust_api_architecture_model::auth_service::AuthService;
use rust_api_architecture_model::config::Config;
use rust_api_architecture_model::entities::{Login, UserCompleteData};
use rust_api_architecture_model::errors::{AppError, StorageError};
use rust_api_architecture_model::middleware::{
    evaluate_access, AccessDecision, AuthMiddleware, AccessRejection, AccessRequest,
};
use rust_api_architecture_model::password::{Argon2PasswordEncryptor, PasswordEncryptorPort};
use rust_api_architecture_model::token::{
    issue_token_at, verify_token, verify_token_at, JwtTokenGenerator, TokenError,
    TokenGeneratorPort, TOKEN_LIFETIME_SECS,
};

const SECRET: &str = "test-signing-secret";
const API_KEY: &str = "test-api-key";
const NOW: u64 = 1_700_000_000;

fn config() -> Config {
    Config {
        database_url: "postgres://localhost/test".to_string(),
        server_addr: "127.0.0.1:8080".to_string(),
        jwt_secret: SECRET.to_string(),
        api_key: API_KEY.to_string(),
    }
}

fn request(path: &str, api_key: Option<&str>, authorization: Option<&str>) -> AccessRequest {
    AccessRequest {
        path: path.to_string(),
        api_key: api_key.map(|s| s.to_string()),
        authorization: authorization.map(|s| s.to_string()),
    }
}

fn rejection(d: &AccessDecision) -> Option<AccessRejection> {
    match d {
        AccessDecision::Reject(r) => Some(*r),
        _ => None,
    }
}

#[test]
fn hash_then_verify_accepts_same_password() {
    let hasher = Argon2PasswordEncryptor::new();
    let hash = hasher.hash_password("correct horse").unwrap();
    assert_ne!(hash, "correct horse");
    assert!(hash.starts_with("$argon2id$"));
    assert_eq!(hasher.verify_password(&hash, "correct horse").unwrap(), true);
    assert_eq!(hasher.verify_password(&hash, "correct horsf").unwrap(), false);
}

#[test]
fn hashing_twice_salts_differently() {
    let hasher = Argon2PasswordEncryptor::default();
    let h1 = hasher.hash_password("same").unwrap();
    let h2 = hasher.hash_password("same").unwrap();
    assert_ne!(h1, h2);
    assert!(hasher.verify_password(&h1, "same").unwrap());
    assert!(hasher.verify_password(&h2, "same").unwrap());
}

#[test]
fn malformed_hash_is_an_error() {
    let hasher = Argon2PasswordEncryptor::new();
    assert!(hasher.verify_password("not a hash", "pw").is_err());
    assert!(hasher.verify_password("", "pw").is_err());
}

#[test]
fn issued_token_verifies_before_expiry() {
    let token = issue_token_at("id-1".into(), "Ann Lee".into(), "a@b.com".into(), SECRET, NOW).unwrap();
    assert_ne!(token, "id-1");
    assert_eq!(token.split('.').count(), 3);
    let claims = verify_token_at(&token, SECRET, NOW).unwrap();
    assert_eq!(claims.id, "id-1");
    assert_eq!(claims.full_name, "Ann Lee");
    assert_eq!(claims.email, "a@b.com");
    assert_eq!(claims.exp, NOW + 86400);
    let last = verify_token_at(&token, SECRET, NOW + TOKEN_LIFETIME_SECS - 1).unwrap();
    assert_eq!(last.id, "id-1");
}

#[test]
fn token_rejected_once_window_elapsed() {
    let token = issue_token_at("id-1".into(), "Ann".into(), "a@b.com".into(), SECRET, NOW).unwrap();
    assert_eq!(verify_token_at(&token, SECRET, NOW + 86400).unwrap_err(), TokenError::InvalidToken);
    assert_eq!(verify_token_at(&token, SECRET, NOW + 90000).unwrap_err(), TokenError::InvalidToken);
}

#[test]
fn token_rejected_under_other_secret() {
    let token = issue_token_at("id-1".into(), "Ann".into(), "a@b.com".into(), SECRET, NOW).unwrap();
    assert_eq!(verify_token_at(&token, "another-secret", NOW).unwrap_err(), TokenError::InvalidToken);
}

#[test]
fn garbage_token_rejected() {
    assert_eq!(verify_token_at("garbage", SECRET, NOW).unwrap_err(), TokenError::InvalidToken);
    assert_eq!(verify_token_at("a.b.c", SECRET, NOW).unwrap_err(), TokenError::InvalidToken);
}

#[test]
fn tampered_token_rejected() {
    let token = issue_token_at("id-1".into(), "Ann".into(), "a@b.com".into(), SECRET, NOW).unwrap();
    let mut parts: Vec<String> = token.split('.').map(|s| s.to_string()).collect();
    let other = issue_token_at("id-2".into(), "Bob".into(), "b@b.com".into(), SECRET, NOW).unwrap();
    parts[1] = other.split('.').nth(1).unwrap().to_string();
    assert!(verify_token_at(&parts.join("."), SECRET, NOW).is_err());
}

#[test]
fn expiry_past_the_clock_range_is_refused() {
    let r = issue_token_at("id".into(), "n".into(), "e@x.io".into(), SECRET, u64::MAX - 10);
    assert_eq!(r.unwrap_err(), TokenError::ClockUnavailable);
}

#[test]
fn generator_issues_token_valid_now() {
    let generator = JwtTokenGenerator::new();
    let token = generator
        .generate_token("id-9".into(), "Zed".into(), "z@z.io".into(), SECRET)
        .unwrap();
    let claims = verify_token(&token, SECRET).unwrap();
    assert_eq!(claims.id, "id-9");
    assert_eq!(claims.full_name, "Zed");
    assert_eq!(claims.email, "z@z.io");
}

#[test]
fn guard_requires_authorization_header_on_private_path() {
    let cfg = config();
    let d = evaluate_access(&request("/api/v1/users", Some(API_KEY), None), &cfg, NOW);
    assert_eq!(rejection(&d), Some(AccessRejection::NoAuthorizationHeader));
    assert_eq!(AccessRejection::NoAuthorizationHeader.message(), "No authorization header");
}

#[test]
fn guard_rejects_non_bearer_scheme() {
    let cfg = config();
    let d = evaluate_access(&request("/api/v1/users", Some(API_KEY), Some("Basic xyz")), &cfg, NOW);
    assert_eq!(rejection(&d), Some(AccessRejection::InvalidAuthorizationHeader));
    assert_eq!(AccessRejection::InvalidAuthorizationHeader.message(), "Invalid authorization header");
}

#[test]
fn guard_rejects_garbage_bearer_token() {
    let cfg = config();
    let d = evaluate_access(&request("/api/v1/users", Some(API_KEY), Some("Bearer garbage")), &cfg, NOW);
    assert_eq!(rejection(&d), Some(AccessRejection::InvalidToken));
    assert_eq!(AccessRejection::InvalidToken.message(), "Invalid token");
}

#[test]
fn guard_checks_api_key_on_public_login_path() {
    let cfg = config();
    let d = evaluate_access(&request("/api/auth/login", Some("nope"), None), &cfg, NOW);
    assert_eq!(rejection(&d), Some(AccessRejection::WrongApiKey));
    assert_eq!(AccessRejection::WrongApiKey.message(), "wrong api_key");
    let d = evaluate_access(&request("/api/auth/login", Some(API_KEY), None), &cfg, NOW);
    assert!(matches!(d, AccessDecision::Proceed));
}

#[test]
fn guard_requires_api_key_header() {
    let cfg = config();
    let d = evaluate_access(&request("/api/auth/login", None, None), &cfg, NOW);
    assert_eq!(rejection(&d), Some(AccessRejection::EmptyApiKey));
    assert_eq!(AccessRejection::EmptyApiKey.message(), "empty api_key");
}

#[test]
fn guard_exempts_swagger_from_api_key_only() {
    let cfg = config();
    let d = evaluate_access(&request("/api/swagger/index.html", None, None), &cfg, NOW);
    assert_eq!(rejection(&d), Some(AccessRejection::NoAuthorizationHeader));
}

#[test]
fn guard_attaches_claims_of_valid_token() {
    let cfg = config();
    let token = issue_token_at("id-1".into(), "Ann".into(), "a@b.com".into(), SECRET, NOW).unwrap();
    let header = format!("Bearer {}", token);
    let d = evaluate_access(&request("/api/v1/users", Some(API_KEY), Some(&header)), &cfg, NOW + 5);
    match d {
        AccessDecision::ProceedAs(c) => {
            assert_eq!(c.id, "id-1");
            assert_eq!(c.email, "a@b.com");
        }
        _ => panic!("expected the request to proceed with claims"),
    }
    let late = evaluate_access(&request("/api/v1/users", Some(API_KEY), Some(&header)), &cfg, NOW + 86400);
    assert_eq!(rejection(&late), Some(AccessRejection::InvalidToken));
}

#[test]
fn middleware_service_uses_current_clock() {
    let cfg = config();
    let svc = AuthMiddleware::new().new_transform(7u32);
    assert_eq!(*svc.service(), 7);
    let token = JwtTokenGenerator::new()
        .generate_token("id-3".into(), "C".into(), "c@c.io".into(), SECRET)
        .unwrap();
    let header = format!("Bearer {}", token);
    let d = svc.call(&request("/api/v1/users", Some(API_KEY), Some(&header)), &cfg);
    assert!(matches!(d, AccessDecision::ProceedAs(_)));
}

fn stored_user(hash: &str) -> UserCompleteData {
    UserCompleteData {
        id: "0b6f0e4c-1111-4222-8333-944445555666".to_string(),
        full_name: "Ann Lee".to_string(),
        email: "a@b.com".to_string(),
        password: hash.to_string(),
        created_at: 0,
        updated_at: 0,
    }
}

fn login_data(password: &str) -> Login {
    Login { email: "a@b.com".to_string(), password: password.to_string() }
}

fn is_invalid_credentials(e: &AppError) -> bool {
    matches!(e, AppError::Unauthorized(m) if m == "Invalid credentials")
}

#[test]
fn login_unknown_email_is_invalid_credentials() {
    let service = AuthService::new(config(), Argon2PasswordEncryptor::new());
    let r = service.login_at(Err(StorageError::RowNotFound), login_data("pw"), NOW);
    assert!(is_invalid_credentials(&r.unwrap_err()));
}

#[test]
fn login_wrong_password_is_invalid_credentials() {
    let hash = Argon2PasswordEncryptor::new().hash_password("right").unwrap();
    let service = AuthService::new(config(), Argon2PasswordEncryptor::new());
    let r = service.login_at(Ok(stored_user(&hash)), login_data("wrong"), NOW);
    let e = r.unwrap_err();
    assert!(is_invalid_credentials(&e));
    assert_eq!(e.status_code(), 401);
}

#[test]
fn login_success_returns_token_and_identity() {
    let hash = Argon2PasswordEncryptor::new().hash_password("right").unwrap();
    let service = AuthService::new(config(), Argon2PasswordEncryptor::new());
    let resp = service.login_at(Ok(stored_user(&hash)), login_data("right"), NOW).unwrap();
    assert_eq!(resp.id, "0b6f0e4c-1111-4222-8333-944445555666");
    assert_eq!(resp.full_name, "Ann Lee");
    assert_eq!(resp.email, "a@b.com");
    assert!(!resp.token.contains(&hash));
    let claims = verify_token_at(&resp.token, SECRET, NOW + 1).unwrap();
    assert_eq!(claims.id, resp.id);
    assert_eq!(claims.exp, NOW + 86400);
}

#[test]
fn login_storage_fault_is_internal() {
    let service = AuthService::new(config(), Argon2PasswordEncryptor::new());
    let r = service.login(Err(StorageError::Other("connection reset".into())), login_data("pw"));
    assert!(matches!(r.unwrap_err(), AppError::InternalServerError));
}

#[test]
fn login_malformed_stored_hash_is_internal() {
    let service = AuthService::new(config(), Argon2PasswordEncryptor::new());
    let r = service.login_at(Ok(stored_user("plaintext")), login_data("plaintext"), NOW);
    assert!(matches!(r.unwrap_err(), AppError::InternalServerError));
}

#[test]
fn login_with_clock_refuses_unknown_email_and_wrong_password_alike() {
    let hash = Argon2PasswordEncryptor::new().hash_password("right").unwrap();
    let service = AuthService::new(config(), Argon2PasswordEncryptor::new());
    let unknown = service.login(Err(StorageError::RowNotFound), login_data("anything")).unwrap_err();
    let wrong = service.login(Ok(stored_user(&hash)), login_data("wrong")).unwrap_err();
    assert!(is_invalid_credentials(&unknown));
    assert!(is_invalid_credentials(&wrong));
    assert_eq!(unknown.status_code(), wrong.status_code());
    assert_eq!(unknown.error_type(), wrong.error_type());
    assert_eq!(unknown.message(), wrong.message());
    assert_eq!(unknown.message(), "Unauthorized: Invalid credentials");
}

#[test]
fn login_with_clock_succeeds_without_exposing_hash() {
    let hash = Argon2PasswordEncryptor::new().hash_password("right").unwrap();
    let service = AuthService::new(config(), Argon2PasswordEncryptor::new());
    let resp = service.login(Ok(stored_user(&hash)), login_data("right")).unwrap();
    assert_eq!(resp.email, "a@b.com");
    assert!(!resp.token.contains(&hash));
    assert!(!resp.id.contains(&hash) && !resp.full_name.contains(&hash));
    let claims = verify_token(&resp.token, SECRET).unwrap();
    assert_eq!(claims.full_name, "Ann Lee");
}

#[test]
fn hashing_empty_password_succeeds() {
    let hasher = Argon2PasswordEncryptor::new();
    let hash = hasher.hash_password("").unwrap();
    assert!(hasher.verify_password(&hash, "").unwrap());
}
