use stirling_auth::callback::{parse, CallbackOutcome, ParseError};

#[test]
fn error_precedence_over_code() {
    // Both parameters present: the error wins, never the code.
    let r = parse("http://127.0.0.1:1234/callback?error=access_denied&code=abc123");
    match r {
        Ok(CallbackOutcome::ProviderError { code, description }) => {
            assert_eq!(code, "access_denied");
            assert_eq!(description, None);
        }
        other => panic!("expected ProviderError, got {:?}", kind_of(&other)),
    }
}

#[test]
fn error_with_description_decodes_plus_and_percent() {
    let r = parse("http://127.0.0.1:1234/callback?error=access_denied&error_description=User+cancelled");
    match r {
        Ok(CallbackOutcome::ProviderError { code, description }) => {
            assert_eq!(code, "access_denied");
            assert_eq!(description.as_deref(), Some("User cancelled"));
        }
        other => panic!("expected ProviderError, got {:?}", kind_of(&other)),
    }
}

#[test]
fn code_in_query_reconstructs_redirect_uri() {
    let r = parse("http://127.0.0.1:54321/callback?code=abc123");
    match r {
        Ok(CallbackOutcome::AuthorizationCode { code, redirect_uri }) => {
            assert_eq!(code, "abc123");
            assert_eq!(redirect_uri, "http://127.0.0.1:54321/callback");
        }
        other => panic!("expected AuthorizationCode, got {:?}", kind_of(&other)),
    }
}

#[test]
fn code_only_in_fragment_is_found() {
    let r = parse("http://127.0.0.1:1234/callback#code=xyz789&token_type=bearer");
    match r {
        Ok(CallbackOutcome::AuthorizationCode { code, redirect_uri }) => {
            assert_eq!(code, "xyz789");
            assert_eq!(redirect_uri, "http://127.0.0.1:1234/callback");
        }
        other => panic!("expected AuthorizationCode, got {:?}", kind_of(&other)),
    }
}

#[test]
fn error_precedence_holds_inside_the_fragment() {
    let r = parse("http://127.0.0.1:1234/callback#error=interaction_required&code=ignored");
    match r {
        Ok(CallbackOutcome::ProviderError { code, .. }) => assert_eq!(code, "interaction_required"),
        other => panic!("expected ProviderError, got {:?}", kind_of(&other)),
    }
}

#[test]
fn error_only_in_fragment_is_found() {
    let r = parse("http://127.0.0.1:1234/callback#error=server_error");
    match r {
        Ok(CallbackOutcome::ProviderError { code, description }) => {
            assert_eq!(code, "server_error");
            assert_eq!(description, None);
        }
        other => panic!("expected ProviderError, got {:?}", kind_of(&other)),
    }
}

#[test]
fn query_code_wins_over_fragment_error() {
    // The query is decisive on its own, so the fragment is never merged.
    let r = parse("http://127.0.0.1:1234/callback?code=fromquery#error=ignored");
    match r {
        Ok(CallbackOutcome::AuthorizationCode { code, .. }) => {
            assert_eq!(code, "fromquery");
        }
        other => panic!("expected AuthorizationCode, got {:?}", kind_of(&other)),
    }
}

#[test]
fn neither_code_nor_error_is_not_decisive() {
    let r = parse("http://127.0.0.1:1234/callback");
    assert!(matches!(r, Err(ParseError::NotDecisive)));
    let r = parse("http://127.0.0.1:1234/favicon.ico");
    assert!(matches!(r, Err(ParseError::NotDecisive)));
    let r = parse("http://127.0.0.1:1234/callback?state=xyz&session=1");
    assert!(matches!(r, Err(ParseError::NotDecisive)));
    let r = parse("http://127.0.0.1:1234/callback#token_type=bearer");
    assert!(matches!(r, Err(ParseError::NotDecisive)));
}

#[test]
fn text_without_scheme_is_invalid() {
    let r = parse("just some text");
    assert!(matches!(r, Err(ParseError::InvalidUrl)));
    let r = parse("");
    assert!(matches!(r, Err(ParseError::InvalidUrl)));
}

#[test]
fn percent_decoding_in_parameters() {
    let r = parse("http://127.0.0.1:1234/callback?code=a%2Fb%20c%2Bd");
    match r {
        Ok(CallbackOutcome::AuthorizationCode { code, .. }) => {
            assert_eq!(code, "a/b c+d");
        }
        other => panic!("expected AuthorizationCode, got {:?}", kind_of(&other)),
    }
}

#[test]
fn redirect_uri_strips_query_and_fragment() {
    let r = parse("http://127.0.0.1:9999/some/path?code=c&state=s#frag=1");
    match r {
        Ok(CallbackOutcome::AuthorizationCode { redirect_uri, .. }) => {
            assert_eq!(redirect_uri, "http://127.0.0.1:9999/some/path");
        }
        other => panic!("expected AuthorizationCode, got {:?}", kind_of(&other)),
    }
}

fn kind_of(r: &Result<CallbackOutcome, ParseError>) -> &'static str {
    match r {
        Ok(CallbackOutcome::AuthorizationCode { .. }) => "AuthorizationCode",
        Ok(CallbackOutcome::ProviderError { .. }) => "ProviderError",
        Err(ParseError::NotDecisive) => "NotDecisive",
        Err(ParseError::InvalidUrl) => "InvalidUrl",
    }
}
