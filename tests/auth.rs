use creek_api::config::{database_url_var, DEV_DATABASE_VAR, PROD_DATABASE_VAR};
use creek_api::gate::{bearer_token, LOGIN_PATH};
use creek_api::password::verify_password;
use creek_api::session::{login, login_status, THIRTY_DAYS_IN_MS};
use creek_api::token::{judge_claims, mint, validate, TokenFault};
use creek_api::{Authorization, Claims, GateDecision, LoginFormData, ServiceError, User};

const SECRET: &[u8] = b"correct horse battery staple";
const OTHER_SECRET: &[u8] = b"a different signing secret";
const T0: u64 = 1_700_000_000_000;
const HOUR_MS: u64 = 3_600_000;

fn gate() -> Authorization {
    Authorization::for_api(SECRET.to_vec())
}

fn bearer(token: &str) -> Vec<u8> {
    format!("Bearer {}", token).into_bytes()
}

fn account(email: &str, password: &str) -> User {
    User {
        id: 1,
        email: email.to_string(),
        password: bcrypt::hash(password, 4).unwrap(),
    }
}

fn form(email: &str, password: &str) -> LoginFormData {
    LoginFormData {
        email: email.to_string(),
        password: password.to_string(),
    }
}

#[test]
fn token_accepted_half_an_hour_in() {
    let token = mint("a@b.com", HOUR_MS, T0, SECRET).unwrap();
    let claims = validate(&token, SECRET, T0 + HOUR_MS / 2).unwrap();
    assert_eq!(claims.sub, "a@b.com");
    assert_eq!(claims.exp, T0 + HOUR_MS);
}

#[test]
fn token_expired_two_hours_in() {
    let token = mint("a@b.com", HOUR_MS, T0, SECRET).unwrap();
    assert_eq!(
        validate(&token, SECRET, T0 + 2 * HOUR_MS).unwrap_err(),
        ServiceError::AuthExpired
    );
}

#[test]
fn token_expired_exactly_at_expiry() {
    let token = mint("a@b.com", HOUR_MS, T0, SECRET).unwrap();
    assert!(validate(&token, SECRET, T0 + HOUR_MS - 1).is_ok());
    assert_eq!(
        validate(&token, SECRET, T0 + HOUR_MS).unwrap_err(),
        ServiceError::AuthExpired
    );
}

#[test]
fn round_trip_keeps_odd_subjects() {
    for subject in ["", "x", "quote\" and \\ slash", "ünïcödé ✓", "line\nbreak"] {
        let token = mint(subject, 10, T0, SECRET).unwrap();
        let claims = validate(&token, SECRET, T0).unwrap();
        assert_eq!(claims.sub, subject);
        assert_eq!(claims.exp, T0 + 10);
    }
}

#[test]
fn zero_ttl_token_is_already_expired() {
    let token = mint("a@b.com", 0, T0, SECRET).unwrap();
    assert_eq!(validate(&token, SECRET, T0).unwrap_err(), ServiceError::AuthExpired);
}

#[test]
fn other_secret_gives_invalid_signature() {
    let token = mint("a@b.com", HOUR_MS, T0, OTHER_SECRET).unwrap();
    assert_eq!(
        validate(&token, SECRET, T0).unwrap_err(),
        ServiceError::AuthInvalidSignature
    );
    let header = bearer(&token);
    assert_eq!(
        gate().check("/api/entries", Some(&header), T0),
        GateDecision::Reject(ServiceError::AuthInvalidSignature)
    );
}

#[test]
fn garbage_token_is_malformed() {
    assert_eq!(validate("not-a-token", SECRET, T0).unwrap_err(), ServiceError::AuthMalformed);
    assert_eq!(validate("a.b.c", SECRET, T0).unwrap_err(), ServiceError::AuthMalformed);
}

#[test]
fn gate_forwards_valid_token() {
    let token = mint("a@b.com", HOUR_MS, T0, SECRET).unwrap();
    let header = bearer(&token);
    assert_eq!(gate().check("/api/entries", Some(&header), T0 + 1), GateDecision::Forward);
    assert_eq!(gate().check("/api/entries/7", Some(&header), T0 + 1), GateDecision::Forward);
}

#[test]
fn gate_rejects_expired_token() {
    let token = mint("a@b.com", HOUR_MS, T0, SECRET).unwrap();
    let header = bearer(&token);
    assert_eq!(
        gate().check("/api/entries", Some(&header), T0 + 2 * HOUR_MS),
        GateDecision::Reject(ServiceError::AuthExpired)
    );
}

#[test]
fn missing_header_rejected_but_login_bypasses() {
    assert_eq!(
        gate().check("/api/entries", None, T0),
        GateDecision::Reject(ServiceError::AuthMissing)
    );
    assert_eq!(gate().check("/api/login", None, T0), GateDecision::Forward);
    assert_eq!(gate().check(LOGIN_PATH, Some(b"Basic xyz"), T0), GateDecision::Forward);
}

#[test]
fn basic_scheme_is_malformed() {
    assert_eq!(
        gate().check("/api/entries", Some(b"Basic xyz"), T0),
        GateDecision::Reject(ServiceError::AuthMalformed)
    );
}

#[test]
fn empty_bearer_is_malformed() {
    for header in [&b"Bearer"[..], b"Bearer   ", b"", b"bearer abc"] {
        assert_eq!(
            gate().check("/api/entries", Some(header), T0),
            GateDecision::Reject(ServiceError::AuthMalformed)
        );
    }
}

#[test]
fn non_utf8_token_is_malformed() {
    assert_eq!(
        gate().check("/api/entries", Some(b"Bearer \xff\xfe"), T0),
        GateDecision::Reject(ServiceError::AuthMalformed)
    );
}

#[test]
fn bearer_token_trims_whitespace() {
    assert_eq!(bearer_token(b"Bearer abc"), Some(&b"abc"[..]));
    assert_eq!(bearer_token(b"Bearer \t abc \r\n"), Some(&b"abc"[..]));
    assert_eq!(bearer_token(b"Bearerabc"), Some(&b"abc"[..]));
    assert_eq!(bearer_token(b"Bearer a b"), Some(&b"a b"[..]));
    assert_eq!(bearer_token(b"Bearer  "), None);
    assert_eq!(bearer_token(b"Basic xyz"), None);
    assert_eq!(bearer_token(b"Bear"), None);
}

#[test]
fn open_paths_are_configurable() {
    let g = Authorization::new(SECRET.to_vec(), vec!["/health".to_string(), "/api/login".to_string()]);
    assert!(g.is_open("/health"));
    assert!(g.is_open("/api/login"));
    assert!(!g.is_open("/api/entries"));
    assert!(!g.is_open("/health/"));
    assert_eq!(g.check("/health", None, T0), GateDecision::Forward);
    let closed = Authorization::new(SECRET.to_vec(), Vec::new());
    assert_eq!(
        closed.check("/api/login", None, T0),
        GateDecision::Reject(ServiceError::AuthMissing)
    );
}

#[test]
fn middleware_decides_like_its_gate() {
    let m = gate().new_transform(42u32);
    assert_eq!(m.service, 42);
    assert_eq!(m.gate.open_paths, vec!["/api/login".to_string()]);
    assert_eq!(m.gate.secret, SECRET.to_vec());
    let token = mint("a@b.com", HOUR_MS, T0, SECRET).unwrap();
    let header = bearer(&token);
    assert_eq!(m.call("/api/entries", Some(&header), T0), GateDecision::Forward);
    assert_eq!(
        m.call("/api/entries", None, T0),
        GateDecision::Reject(ServiceError::AuthMissing)
    );
}

#[test]
fn judge_claims_cases() {
    let c = Claims { sub: "a@b.com".to_string(), exp: 100 };
    assert_eq!(judge_claims(Ok(c.clone()), 99).unwrap().sub, "a@b.com");
    assert_eq!(judge_claims(Ok(c), 100).unwrap_err(), ServiceError::AuthExpired);
    assert_eq!(
        judge_claims(Err(TokenFault::BadSignature), 0).unwrap_err(),
        ServiceError::AuthInvalidSignature
    );
    assert_eq!(
        judge_claims(Err(TokenFault::Unreadable), 0).unwrap_err(),
        ServiceError::AuthMalformed
    );
}

#[test]
fn password_check() {
    let hash = bcrypt::hash("hunter2", 4).unwrap();
    assert!(verify_password("hunter2", &hash));
    assert!(!verify_password("hunter3", &hash));
    assert!(!verify_password("hunter2", "not a bcrypt hash"));
}

#[test]
fn login_success_token_validates() {
    let user = account("a@b.com", "pw");
    let resp = login(&form("a@b.com", "pw"), Some(user), SECRET, T0).unwrap();
    assert_eq!(resp.email, "a@b.com");
    let claims = validate(&resp.token, SECRET, T0 + 1).unwrap();
    assert_eq!(claims.sub, "a@b.com");
    assert_eq!(claims.exp, T0 + THIRTY_DAYS_IN_MS);
    assert_eq!(THIRTY_DAYS_IN_MS, 2_592_000_000);
    let header = bearer(&resp.token);
    assert_eq!(gate().check("/api/entries", Some(&header), T0 + 1), GateDecision::Forward);
    assert_eq!(login_status(&Ok(resp)), 200);
}

#[test]
fn login_failures_look_alike() {
    let wrong = login(&form("a@b.com", "nope"), Some(account("a@b.com", "pw")), SECRET, T0);
    let unknown = login(&form("x@b.com", "pw"), None, SECRET, T0);
    assert_eq!(wrong.as_ref().unwrap_err(), &ServiceError::CredentialsInvalid);
    assert_eq!(unknown.as_ref().unwrap_err(), &ServiceError::CredentialsInvalid);
    assert_eq!(login_status(&wrong), login_status(&unknown));
    assert_eq!(login_status(&wrong), 401);
}

#[test]
fn login_rejects_account_of_other_email() {
    let r = login(&form("x@b.com", "pw"), Some(account("a@b.com", "pw")), SECRET, T0);
    assert_eq!(r.unwrap_err(), ServiceError::CredentialsInvalid);
}

#[test]
fn status_codes() {
    assert_eq!(ServiceError::AuthMissing.status(), 401);
    assert_eq!(ServiceError::AuthMalformed.status(), 401);
    assert_eq!(ServiceError::AuthExpired.status(), 401);
    assert_eq!(ServiceError::AuthInvalidSignature.status(), 401);
    assert_eq!(ServiceError::CredentialsInvalid.status(), 401);
    assert_eq!(ServiceError::PoolExhausted.status(), 500);
    assert_eq!(ServiceError::StoreUnavailable.status(), 500);
    assert_eq!(ServiceError::NotFound.status(), 404);
    assert_eq!(ServiceError::Internal.status(), 500);
    assert_eq!(login_status(&Err(ServiceError::StoreUnavailable)), 500);
}

#[test]
fn database_variable_by_profile() {
    assert_eq!(database_url_var(Some("release")), PROD_DATABASE_VAR);
    assert_eq!(database_url_var(Some("debug")), DEV_DATABASE_VAR);
    assert_eq!(database_url_var(None), "DEV_DATABASE_URL");
    assert_eq!(database_url_var(Some("release")), "PROD_DATABASE_URL");
}

#[test]
fn minted_token_has_token_shape() {
    let token = mint("ünïcödé a@b.com", HOUR_MS, T0, SECRET).unwrap();
    assert!(!token.is_empty());
    assert!(token
        .chars()
        .all(|c| c.is_ascii_alphanumeric() || c == '-' || c == '_' || c == '.'));
    assert_eq!(token.matches('.').count(), 2);
    let header = format!("Bearer {}", token).into_bytes();
    assert_eq!(bearer_token(&header), Some(token.as_bytes()));
}
