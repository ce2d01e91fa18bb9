use registry_explorer::auth::{
    authenticate, authenticate_action, hash_credentials, login, upper_hex, Authenticated, LoginError,
    LoginForm, LoginOutcome,
};
use registry_explorer::settings::{check, RawSettings, Settings};

fn sample_settings() -> Settings {
    let raw = RawSettings {
        registry_host: Some("http://registry:5000".to_string()),
        registry_username: Some("reg".to_string()),
        registry_password: Some("regpass".to_string()),
        listen_addr: Some("0.0.0.0".to_string()),
        listen_port: Some("8080".to_string()),
        static_dir: Some("static".to_string()),
        explorer_username: Some("admin".to_string()),
        explorer_password: Some("secret".to_string()),
    };
    match check(raw) {
        Ok(s) => s,
        Err(_) => panic!("all settings are present"),
    }
}

const ADMIN_TOKEN: &str = "F82959D41F9330BD853D3E11345E08EDA948544666BFC17806493DF9D4B305F0";

#[test]
fn hex_is_upper_case_two_digits_per_byte() {
    assert_eq!(upper_hex(&[0x00, 0xab, 0x0f, 0x90]), "00AB0F90");
    assert_eq!(upper_hex(&[]), "");
}

#[test]
fn token_is_upper_hex_sha256_of_name_and_password() {
    assert_eq!(hash_credentials("admin", "secret"), ADMIN_TOKEN);
    assert_ne!(hash_credentials("admins", "ecret"), hash_credentials("admin", "x"));
}

#[test]
fn only_shared_credential_authenticates() {
    let settings = sample_settings();
    assert!(authenticate(&settings, "admin", "secret"));
    assert!(!authenticate(&settings, "admin", "Secret"));
    assert!(!authenticate(&settings, "root", "secret"));
}

#[test]
fn token_cookie_admits_request() {
    let settings = sample_settings();
    assert!(Authenticated::from_token(&settings, Some(ADMIN_TOKEN)).is_some());
    assert!(Authenticated::from_token(&settings, Some("ABC")).is_none());
    assert!(Authenticated::from_token(&settings, None).is_none());
}

#[test]
fn accepted_login_returns_to_origin() {
    let settings = sample_settings();
    let form = LoginForm { username: "admin".to_string(), password: "secret".to_string() };
    match login(&settings, &form, Some("/foo")) {
        LoginOutcome::Accepted { token, redirect } => {
            assert_eq!(token, ADMIN_TOKEN);
            assert_eq!(redirect, "/foo");
        }
        LoginOutcome::Rejected { .. } => panic!("credential is right"),
    }
    match login(&settings, &form, None) {
        LoginOutcome::Accepted { redirect, .. } => assert_eq!(redirect, "/"),
        LoginOutcome::Rejected { .. } => panic!("credential is right"),
    }
}

#[test]
fn rejected_login_goes_back_to_login_page() {
    let settings = sample_settings();
    let form = LoginForm { username: "bob".to_string(), password: "nope".to_string() };
    match login(&settings, &form, Some("/foo")) {
        LoginOutcome::Rejected { redirect } => {
            assert_eq!(redirect, "/auth/login?error=invalid_credentials&username=bob&from=/foo")
        }
        LoginOutcome::Accepted { .. } => panic!("credential is wrong"),
    }
    match login(&settings, &form, None) {
        LoginOutcome::Rejected { redirect } => {
            assert_eq!(redirect, "/auth/login?error=invalid_credentials&username=bob")
        }
        LoginOutcome::Accepted { .. } => panic!("credential is wrong"),
    }
}

#[test]
fn login_form_action_keeps_origin() {
    assert_eq!(authenticate_action(Some("/foo")), "/auth/authenticate?from=/foo");
    assert_eq!(authenticate_action(None), "/auth/authenticate");
    assert_eq!(LoginError::InvalidCredentials.message(), "Invalid username or password");
}
