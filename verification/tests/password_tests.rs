use stirling_auth::connection::ConnectionMode;
use stirling_auth::password::{
    build_saas_login_body, build_selfhosted_login_body, interpret_saas_response,
    interpret_selfhosted_response, select_dialect, LoginError, LoginRequest, UserInfo,
    password_login,
};

#[test]
fn dialect_by_exact_match_ignoring_trailing_slash() {
    let saas = "https://account.example.com";
    assert_eq!(select_dialect("https://account.example.com", saas), ConnectionMode::SaaS);
    assert_eq!(select_dialect("https://account.example.com/", saas), ConnectionMode::SaaS);
    assert_eq!(select_dialect("https://account.example.com", "https://account.example.com/"), ConnectionMode::SaaS);
    assert_eq!(select_dialect("https://other.example.com", saas), ConnectionMode::SelfHosted);
    // Differing port or path suffix silently selects the self-hosted dialect.
    assert_eq!(select_dialect("https://account.example.com:8443", saas), ConnectionMode::SelfHosted);
    assert_eq!(select_dialect("https://account.example.com/api", saas), ConnectionMode::SelfHosted);
}

#[test]
fn saas_body_is_email_and_password() {
    assert_eq!(
        build_saas_login_body("user@example.com", "pw1"),
        "{\"email\":\"user@example.com\",\"password\":\"pw1\"}"
    );
}

#[test]
fn selfhosted_body_without_second_factor() {
    assert_eq!(
        build_selfhosted_login_body("admin", "pw1", None),
        "{\"username\":\"admin\",\"password\":\"pw1\"}"
    );
}

#[test]
fn selfhosted_body_with_second_factor_trimmed() {
    let code = " 123456 ".to_string();
    assert_eq!(
        build_selfhosted_login_body("admin", "pw1", Some(&code)),
        "{\"username\":\"admin\",\"password\":\"pw1\",\"mfaCode\":\"123456\"}"
    );
}

#[test]
fn selfhosted_body_blank_second_factor_omitted() {
    let code = "   ".to_string();
    assert_eq!(
        build_selfhosted_login_body("admin", "pw1", Some(&code)),
        "{\"username\":\"admin\",\"password\":\"pw1\"}"
    );
}

#[test]
fn selfhosted_mfa_required_beats_status_mapping() {
    let r = interpret_selfhosted_response(401, "{\"error\":\"mfa_required\"}");
    match r {
        Err(LoginError::MfaCode(code)) => assert_eq!(code, "mfa_required"),
        _ => panic!("expected the distinguished mfa_required code"),
    }
    let r = interpret_selfhosted_response(401, "{\"error\":\"invalid_mfa_code\"}");
    match r {
        Err(LoginError::MfaCode(code)) => assert_eq!(code, "invalid_mfa_code"),
        _ => panic!("expected the distinguished invalid_mfa_code code"),
    }
}

#[test]
fn selfhosted_other_error_codes_fall_back_to_status() {
    assert!(matches!(
        interpret_selfhosted_response(401, "{\"error\":\"bad_password\"}"),
        Err(LoginError::InvalidCredentials)
    ));
    assert!(matches!(
        interpret_selfhosted_response(401, "not json"),
        Err(LoginError::InvalidCredentials)
    ));
    assert!(matches!(
        interpret_selfhosted_response(403, "{}"),
        Err(LoginError::AccessDenied)
    ));
    assert!(matches!(
        interpret_selfhosted_response(500, "{}"),
        Err(LoginError::UpstreamFailure(500))
    ));
}

#[test]
fn saas_400_is_invalid_credentials() {
    assert!(matches!(
        interpret_saas_response(400, "{\"error\":\"invalid_grant\"}", "u"),
        Err(LoginError::InvalidCredentials)
    ));
    assert!(matches!(
        interpret_saas_response(401, "", "u"),
        Err(LoginError::InvalidCredentials)
    ));
    assert!(matches!(interpret_saas_response(403, "", "u"), Err(LoginError::AccessDenied)));
    assert!(matches!(
        interpret_saas_response(502, "", "u"),
        Err(LoginError::UpstreamFailure(502))
    ));
}

#[test]
fn saas_success_prefers_full_name() {
    let body = "{\"access_token\":\"tok1\",\"user\":{\"email\":\"a@b.example\",\"user_metadata\":{\"full_name\":\"Ada Lovelace\"}}}";
    let r = interpret_saas_response(200, body, "fallback").unwrap();
    assert_eq!(r.token, "tok1");
    assert_eq!(r.username, "Ada Lovelace");
    assert_eq!(r.email.as_deref(), Some("a@b.example"));
}

#[test]
fn saas_success_falls_back_to_email_then_identifier() {
    let body = "{\"access_token\":\"tok1\",\"user\":{\"email\":\"a@b.example\"}}";
    let r = interpret_saas_response(200, body, "fallback").unwrap();
    assert_eq!(r.username, "a@b.example");
    let body = "{\"access_token\":\"tok1\",\"user\":{}}";
    let r = interpret_saas_response(200, body, "fallback").unwrap();
    assert_eq!(r.username, "fallback");
    assert_eq!(r.email, None);
}

#[test]
fn saas_success_without_token_is_malformed() {
    assert!(matches!(
        interpret_saas_response(200, "{}", "u"),
        Err(LoginError::MalformedResponse)
    ));
    assert!(matches!(
        interpret_saas_response(200, "not json", "u"),
        Err(LoginError::MalformedResponse)
    ));
}

#[test]
fn selfhosted_success_reads_session_and_user() {
    let body = "{\"session\":{\"access_token\":\"tok2\"},\"user\":{\"username\":\"admin\",\"email\":\"x@y.example\"}}";
    let r = interpret_selfhosted_response(200, body).unwrap();
    assert_eq!(r.token, "tok2");
    assert_eq!(r.username, "admin");
    assert_eq!(r.email.as_deref(), Some("x@y.example"));
    assert!(matches!(
        interpret_selfhosted_response(200, "{\"user\":{\"username\":\"admin\"}}"),
        Err(LoginError::MalformedResponse)
    ));
}

#[test]
fn user_info_of_login() {
    let body = "{\"session\":{\"access_token\":\"t\"},\"user\":{\"username\":\"admin\"}}";
    let r = interpret_selfhosted_response(200, body).unwrap();
    let info = UserInfo::of_login(&r);
    assert_eq!(info.username, "admin");
    assert_eq!(info.email, None);
}

#[test]
fn unreachable_server_is_a_network_error() {
    let request = LoginRequest {
        server_url: "http://127.0.0.1:9/".to_string(),
        identifier: "u".to_string(),
        secret: "p".to_string(),
        second_factor: None,
    };
    let r = password_login(&request, "key", "https://account.example.com", 2);
    assert!(matches!(r, Err(LoginError::NetworkError(_))));
}
