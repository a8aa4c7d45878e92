use auth_api::access_control::{from_stored_roles, session_subject, Authorization, Denial};
use auth_api::cookies::CookieError;
use auth_api::csrf::{CSRFTokenService, CsrfError};
use auth_api::password::HashService;
use auth_api::records::{new_user_record, LoginBody, NewUserBody, User};
use auth_api::roles::Role;
use auth_api::session::{check_cookie, check_token, csrf_cookie, login, logout, LoginError, SessionError};
use auth_api::token::{JwtService, TokenError};

const NOW: i64 = 1_700_000_000;
const TWENTY_DAYS: i64 = 20 * 24 * 3600;

fn stored_user(email: &str, password: &str, roles: &[&str]) -> User {
    User {
        id: String::from("42"),
        email: String::from(email),
        password: HashService::hash_password(password).unwrap(),
        role: roles.iter().map(|r| String::from(*r)).collect(),
    }
}

fn body(email: &str, password: &str) -> LoginBody {
    LoginBody { email: String::from(email), password: String::from(password) }
}

#[test]
fn login_check_logout_and_replay_after_rotation() {
    let jwt = JwtService::new(String::from("first-secret"));
    let user = stored_user("eve@example.com", "hunter22", &["ROLE_USER"]);

    let success = login(&user, &body("eve@example.com", "hunter22"), &jwt, NOW).unwrap();
    assert_eq!(success.cookie.name, "Authorization");
    assert_eq!(success.cookie.value, success.response.token);
    assert_eq!(success.cookie.expires_at, NOW + TWENTY_DAYS);
    assert_eq!(success.cookie.path, "/");
    assert!(success.cookie.secure && success.cookie.http_only && success.cookie.same_site_strict);
    assert_eq!(success.response.email, "eve@example.com");
    assert_eq!(success.response.role, vec![String::from("ROLE_USER")]);

    let header = format!("Authorization={}", success.cookie.value);
    let later = NOW + 60;
    let subject = session_subject(Some(&header), &jwt, later).unwrap();
    assert_eq!(subject, "eve@example.com");
    let decision = from_stored_roles(Some(user.role.clone()), vec![Role::USER]);
    assert_eq!(decision, Authorization::Authorized);

    let cleared = logout(Some(&header), &jwt, later).unwrap();
    assert_eq!(cleared.name, "Authorization");
    assert_eq!(cleared.value, "");
    assert_eq!(cleared.expires_at, later);

    let rotated = JwtService::new(String::from("second-secret"));
    assert_eq!(
        session_subject(Some(&header), &rotated, later),
        Err(Authorization::Unauthorized(Denial::InvalidSession))
    );
}

#[test]
fn login_with_wrong_password_is_refused() {
    let jwt = JwtService::new(String::from("s"));
    let user = stored_user("eve@example.com", "hunter22", &["ROLE_USER"]);
    assert_eq!(
        login(&user, &body("eve@example.com", "hunter23"), &jwt, NOW).unwrap_err(),
        LoginError::BadCredentials
    );
    assert_eq!(login(&user, &body("eve@example.com", ""), &jwt, NOW).unwrap_err(), LoginError::BadCredentials);
}

#[test]
fn login_against_malformed_stored_hash_is_refused() {
    let jwt = JwtService::new(String::from("s"));
    let user = User {
        id: String::from("1"),
        email: String::from("x@example.com"),
        password: String::from("plain"),
        role: vec![],
    };
    assert_eq!(login(&user, &body("x@example.com", "plain"), &jwt, NOW).unwrap_err(), LoginError::BadCredentials);
}

#[test]
fn login_for_user_without_email_cannot_issue_a_token() {
    let jwt = JwtService::new(String::from("s"));
    let user = stored_user("", "pw", &["ROLE_USER"]);
    assert_eq!(
        login(&user, &body("", "pw"), &jwt, NOW).unwrap_err(),
        LoginError::Token(TokenError::InvalidSubject)
    );
}

#[test]
fn check_token_reads_the_authorization_header() {
    let jwt = JwtService::new(String::from("s"));
    let token = jwt.issue_at("frank@example.com", NOW).unwrap();
    let claims = check_token(Some(&token), &jwt, NOW + 1).unwrap();
    assert_eq!(claims.sub, "frank@example.com");
    assert_eq!(check_token(None, &jwt, NOW).unwrap_err(), SessionError::MissingHeader);
    assert_eq!(
        check_token(Some(""), &jwt, NOW).unwrap_err(),
        SessionError::Token(TokenError::InvalidToken)
    );
}

#[test]
fn check_cookie_reports_each_failure() {
    let jwt = JwtService::new(String::from("s"));
    let token = jwt.issue_at("grace@example.com", NOW).unwrap();
    let header = format!("lang=en; Authorization={}", token);
    assert_eq!(check_cookie(Some(&header), &jwt, NOW).unwrap().sub, "grace@example.com");
    assert_eq!(check_cookie(None, &jwt, NOW).unwrap_err(), SessionError::Cookie(CookieError::NoCookieHeader));
    assert_eq!(
        check_cookie(Some("lang=en"), &jwt, NOW).unwrap_err(),
        SessionError::Cookie(CookieError::NoAuthCookie)
    );
    assert_eq!(
        check_cookie(Some(&header), &jwt, NOW + TWENTY_DAYS).unwrap_err(),
        SessionError::Token(TokenError::Expired)
    );
}

#[test]
fn logout_without_valid_session_is_refused() {
    let jwt = JwtService::new(String::from("s"));
    assert_eq!(logout(None, &jwt, NOW).unwrap_err(), SessionError::Cookie(CookieError::NoCookieHeader));
    assert_eq!(
        logout(Some("Authorization=garbage"), &jwt, NOW).unwrap_err(),
        SessionError::Token(TokenError::InvalidToken)
    );
}

#[test]
fn session_subject_denies_missing_cookie() {
    let jwt = JwtService::new(String::from("s"));
    assert_eq!(session_subject(None, &jwt, NOW), Err(Authorization::Unauthorized(Denial::InvalidSession)));
}

#[test]
fn csrf_cookie_lasts_a_day() {
    let cookie = csrf_cookie(Some("secret_key"), NOW).unwrap();
    assert_eq!(cookie.name, "XSRF-TOKEN");
    assert_eq!(cookie.value, CSRFTokenService::generate_csrf_token_at(Some("secret_key"), NOW).unwrap());
    assert_eq!(cookie.expires_at, NOW + 24 * 3600);
    assert_eq!(cookie.path, "/");
    assert_eq!(csrf_cookie(None, NOW).unwrap_err(), CsrfError::MissingSecret);
}

#[test]
fn sign_up_record_hashes_password_and_grants_user_role() {
    let record = new_user_record(&NewUserBody {
        email: String::from("henry@example.com"),
        password: String::from("pw123"),
    })
    .unwrap();
    assert_eq!(record.email, "henry@example.com");
    assert_eq!(record.role, vec![String::from("ROLE_USER")]);
    assert_ne!(record.password, "pw123");
    assert_eq!(HashService::check_password("pw123", &record.password), Ok(true));
}
