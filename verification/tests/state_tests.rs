use stirling_auth::connection::{AppConnectionState, ConnectionMode, ConnectionState, ServerConfig};
use stirling_auth::exchange::{build_exchange_body, interpret_exchange_response, ExchangeError};
use stirling_auth::files::{
    add_opened_file, clear_opened_files, get_opened_files, handle_runtime_file_open,
};
use stirling_auth::listener::{callback_url, provider_error_detail, replace_all};
use stirling_auth::logging::{add_log, get_log_file_path, get_logs, LogBuffer};

#[test]
fn default_connection_state_is_saas_without_server() {
    let state = ConnectionState::default();
    assert_eq!(state.mode, ConnectionMode::SaaS);
    assert!(state.server_config.is_none());
    let app = AppConnectionState::default();
    assert_eq!(app.0.mode, ConnectionMode::SaaS);
}

#[test]
fn connection_config_mirrors_state() {
    let state = ConnectionState {
        mode: ConnectionMode::SelfHosted,
        server_config: Some(ServerConfig { url: "http://pdf.local:8080".to_string() }),
    };
    let config = state.to_config();
    assert_eq!(config.mode, ConnectionMode::SelfHosted);
    assert_eq!(config.server_config.unwrap().url, "http://pdf.local:8080");
}

#[test]
fn opened_files_are_kept_in_order() {
    let mut files: Vec<String> = Vec::new();
    add_opened_file(&mut files, "/tmp/a.pdf".to_string());
    add_opened_file(&mut files, "/tmp/b.pdf".to_string());
    assert_eq!(get_opened_files(&files), vec!["/tmp/a.pdf", "/tmp/b.pdf"]);
    clear_opened_files(&mut files);
    assert!(get_opened_files(&files).is_empty());
}

#[test]
fn runtime_file_open_filters_by_suffix_and_existence() {
    let mut files: Vec<String> = Vec::new();
    handle_runtime_file_open(&mut files, "/tmp/a.pdf".to_string(), true);
    handle_runtime_file_open(&mut files, "/tmp/b.txt".to_string(), true);
    handle_runtime_file_open(&mut files, "/tmp/c.pdf".to_string(), false);
    assert_eq!(files, vec!["/tmp/a.pdf"]);
}

#[test]
fn log_entries_are_rendered_and_capped() {
    let mut logs = LogBuffer::new();
    add_log(&mut logs, 1700000000, "hello");
    assert_eq!(get_logs(&logs), vec!["1700000000: hello"]);
    for i in 0..105u64 {
        add_log(&mut logs, i, "x");
    }
    let entries = get_logs(&logs);
    assert_eq!(entries.len(), 100);
    // The oldest entries were dropped: the first kept one is entry 5.
    assert_eq!(entries[0], "5: x");
    assert_eq!(entries[99], "104: x");
}

#[test]
fn log_file_path_joins_directory_and_name() {
    assert_eq!(get_log_file_path("/var/log/app"), "/var/log/app/tauri-backend.log");
}

#[test]
fn exchange_body_is_exact() {
    assert_eq!(
        build_exchange_body("abc123", "ver456"),
        "{\"auth_code\":\"abc123\",\"code_verifier\":\"ver456\"}"
    );
}

#[test]
fn exchange_success_reads_tokens() {
    let body = "{\"access_token\":\"at\",\"refresh_token\":\"rt\",\"expires_in\":7200}".to_string();
    let r = interpret_exchange_response(200, body).unwrap();
    assert_eq!(r.access_token, "at");
    assert_eq!(r.refresh_token.as_deref(), Some("rt"));
    assert_eq!(r.expires_in, Some(7200));
    let r = interpret_exchange_response(200, "{\"access_token\":\"at\"}".to_string()).unwrap();
    assert_eq!(r.refresh_token, None);
    assert_eq!(r.expires_in, None);
}

#[test]
fn exchange_without_token_is_malformed() {
    assert!(matches!(
        interpret_exchange_response(201, "{}".to_string()),
        Err(ExchangeError::MalformedResponse)
    ));
}

#[test]
fn exchange_failure_keeps_status_and_body() {
    match interpret_exchange_response(400, "bad code".to_string()) {
        Err(ExchangeError::ExchangeFailed(status, body)) => {
            assert_eq!(status, 400);
            assert_eq!(body, "bad code");
        }
        _ => panic!("expected ExchangeFailed"),
    }
}

#[test]
fn callback_url_is_loopback_with_port() {
    assert_eq!(callback_url(54321), "http://127.0.0.1:54321/callback");
    assert_eq!(callback_url(1), "http://127.0.0.1:1/callback");
}

#[test]
fn error_detail_and_page_substitution() {
    let detail = provider_error_detail("access_denied", Some(&"User cancelled".to_string()));
    assert_eq!(detail, "OAuth authentication failed: access_denied - User cancelled");
    let detail = provider_error_detail("server_error", None);
    assert_eq!(detail, "OAuth authentication failed: server_error");
    let page = replace_all("<p>{error}</p><i>{error}</i>", "{error}", "boom");
    assert_eq!(page, "<p>boom</p><i>boom</i>");
    assert_eq!(replace_all("abcabc", "bc", "X"), "aXaX");
}
