use stirling_auth::callback::CallbackOutcome;
use stirling_auth::listener::{bind_listener, listen_for_callback};
use stirling_auth::oauth::{
    build_authorize_url, complete_federated_login, plan_callback_action, prepare_federated_login,
    CallbackAction, OAuthError,
};
use stirling_auth::password::{
    build_selfhosted_login_body, interpret_selfhosted_response, password_login, LoginError,
    LoginRequest,
};

#[test]
fn authorize_url_is_exact() {
    assert_eq!(
        build_authorize_url("https://auth.example.com/", "google", 54321, "abc-_123"),
        "https://auth.example.com/auth/v1/authorize?provider=google&redirect_to=http%3A%2F%2F127.0.0.1%3A54321%2Fcallback&code_challenge=abc-_123&code_challenge_method=S256&prompt=select_account"
    );
}

#[test]
fn prepare_builds_url_for_the_bound_port() {
    let (pending, url) = prepare_federated_login("google", "https://auth.example.com").unwrap();
    let port = pending.listener.port();
    assert!(url.starts_with("https://auth.example.com/auth/v1/authorize?provider=google"));
    assert!(url.contains(&format!("redirect_to=http%3A%2F%2F127.0.0.1%3A{}%2Fcallback", port)));
    assert!(url.contains(&format!("code_challenge={}", pending.session.code_challenge)));
    assert!(url.ends_with("&code_challenge_method=S256&prompt=select_account"));
}

#[test]
fn callback_action_decision() {
    // A provider error terminates the attempt; no exchange follows it.
    let deny = plan_callback_action(CallbackOutcome::ProviderError {
        code: "access_denied".to_string(),
        description: Some("User cancelled".to_string()),
    });
    match deny {
        CallbackAction::Deny { code, description } => {
            assert_eq!(code, "access_denied");
            assert_eq!(description.as_deref(), Some("User cancelled"));
        }
        _ => panic!("a provider error must terminate without an exchange"),
    }
    let exchange = plan_callback_action(CallbackOutcome::AuthorizationCode {
        code: "abc".to_string(),
        redirect_uri: "http://127.0.0.1:1/callback".to_string(),
    });
    match exchange {
        CallbackAction::Exchange { code, redirect_uri } => {
            assert_eq!(code, "abc");
            assert_eq!(redirect_uri, "http://127.0.0.1:1/callback");
        }
        _ => panic!("an authorization code must lead to the exchange"),
    }
}

#[test]
fn listener_times_out_and_releases_the_port() {
    let listener = bind_listener().unwrap();
    let r = listen_for_callback(listener, "ok", "err", 1);
    assert!(r.is_err());
    // The port is released: a fresh listener can be bound at once.
    let again = bind_listener().unwrap();
    assert!(again.port() > 0);
}

#[test]
fn federated_login_without_callback_times_out() {
    let (pending, _url) = prepare_federated_login("google", "https://auth.example.com").unwrap();
    let r = complete_federated_login(
        pending,
        "https://auth.example.com",
        "key",
        "<ok></ok>",
        "<e>{error}</e>",
        1,
    );
    assert!(matches!(r, Err(OAuthError::TimedOut)));
}

#[test]
fn each_attempt_binds_its_own_port_and_pair() {
    let (a, _) = prepare_federated_login("google", "https://auth.example.com").unwrap();
    let (b, _) = prepare_federated_login("google", "https://auth.example.com").unwrap();
    // Two concurrent attempts share nothing: distinct ports, distinct pairs.
    assert_ne!(a.listener.port(), b.listener.port());
    assert_ne!(a.session.code_verifier, b.session.code_verifier);
}

#[test]
fn login_pipeline_is_deterministic_across_calls() {
    // The same request yields the same request body and the same
    // interpretation, with no state shared between the two calls.
    let body_one = build_selfhosted_login_body("admin", "pw", None);
    let body_two = build_selfhosted_login_body("admin", "pw", None);
    assert_eq!(body_one, body_two);
    let response = "{\"session\":{\"access_token\":\"tok\"},\"user\":{\"username\":\"admin\",\"email\":\"a@b.example\"}}";
    let first = interpret_selfhosted_response(200, response).unwrap();
    let second = interpret_selfhosted_response(200, response).unwrap();
    assert_eq!(first.token, second.token);
    assert_eq!(first.username, second.username);
    assert_eq!(first.email, second.email);
    assert_eq!(first.token, "tok");
}

#[test]
fn unreachable_exchange_is_not_a_panic() {
    let r = stirling_auth::exchange::exchange_code_for_token(
        "http://127.0.0.1:9",
        "abc",
        "verifier",
        "key",
        2,
    );
    assert!(matches!(
        r,
        Err(stirling_auth::exchange::ExchangeError::NetworkError(_))
    ));
}

#[test]
fn unreachable_selfhosted_login_is_a_network_error() {
    let request = LoginRequest {
        server_url: "http://127.0.0.1:9".to_string(),
        identifier: "admin".to_string(),
        secret: "pw".to_string(),
        second_factor: Some("123456".to_string()),
    };
    let r = password_login(&request, "key", "https://account.example.com", 2);
    assert!(matches!(r, Err(LoginError::NetworkError(_))));
}
