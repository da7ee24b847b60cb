//! The one network call that trades an authorization code for tokens.
//!
//! The grant type is passed as a query parameter, not in the JSON body; the
//! body carries the authorization code and the PKCE verifier. The verifier
//! is consumed by the caller and used in at most one exchange.

use vstd::prelude::*;

use crate::http::{http_body, http_header, http_post, http_send, http_status, http_text,
    new_http_client};
use crate::json::{build_json_object, get_int_field, get_string_field, json_int_field, json_object,
    json_str_field};
use crate::text::{pairs_view, trim_slashes, trim_trailing_slashes};

verus! {

/// The terminal artifact of a successful federated login.
#[derive(Debug)]
pub struct OAuthCallbackResult {
    pub access_token: String,
    pub refresh_token: Option<String>,
    pub expires_in: Option<i64>,
}

/// Why a token exchange failed.
#[derive(Debug)]
pub enum ExchangeError {
    /// The request never produced an HTTP response.
    NetworkError(String),
    /// A non-success status; carries the status and the response body.
    ExchangeFailed(u16, String),
    /// A success status whose body holds no `access_token`.
    MalformedResponse,
}

pub ghost struct TokenBundleView {
    pub access_token: Seq<char>,
    pub refresh_token: Option<Seq<char>>,
    pub expires_in: Option<int>,
}

pub ghost enum ExchangeErrorView {
    NetworkError(Seq<char>),
    ExchangeFailed(u16, Seq<char>),
    MalformedResponse,
}

impl View for OAuthCallbackResult {
    type V = TokenBundleView;

    open spec fn view(&self) -> TokenBundleView {
        TokenBundleView {
            access_token: self.access_token@,
            refresh_token: match self.refresh_token {
                Option::Some(t) => Option::Some(t@),
                Option::None => Option::None,
            },
            expires_in: match self.expires_in {
                Option::Some(n) => Option::Some(n as int),
                Option::None => Option::None,
            },
        }
    }
}

impl View for ExchangeError {
    type V = ExchangeErrorView;

    open spec fn view(&self) -> ExchangeErrorView {
        match self {
            ExchangeError::NetworkError(d) => ExchangeErrorView::NetworkError(d@),
            ExchangeError::ExchangeFailed(s, b) => ExchangeErrorView::ExchangeFailed(*s, b@),
            ExchangeError::MalformedResponse => ExchangeErrorView::MalformedResponse,
        }
    }
}

/// The outcome of an exchange at the spec level.
pub open spec fn exchange_outcome_view(r: Result<OAuthCallbackResult, ExchangeError>) -> Result<
    TokenBundleView,
    ExchangeErrorView,
> {
    match r {
        Result::Ok(x) => Result::Ok(x@),
        Result::Err(e) => Result::Err(e@),
    }
}

/// The PKCE token endpoint of the auth server.
pub open spec fn exchange_url(auth_base_url: Seq<char>) -> Seq<char> {
    trim_slashes(auth_base_url) + "/auth/v1/token?grant_type=pkce"@
}

/// Builds the PKCE token endpoint URL.
pub fn build_exchange_url(auth_base_url: &str) -> (r: String)
    ensures
        r@ == exchange_url(auth_base_url@),
{
    let mut url = trim_trailing_slashes(auth_base_url);
    url.append("/auth/v1/token?grant_type=pkce");
    url
}

/// The exchange request body.
pub open spec fn exchange_body(code: Seq<char>, code_verifier: Seq<char>) -> Seq<char> {
    json_object(seq![("auth_code"@, code), ("code_verifier"@, code_verifier)])
}

/// Builds the exchange request body.
pub fn build_exchange_body(code: &str, code_verifier: &str) -> (r: String)
    ensures
        r@ == exchange_body(code@, code_verifier@),
{
    let mut pairs: Vec<(String, String)> = Vec::new();
    pairs.push(("auth_code".to_owned(), code.to_owned()));
    pairs.push(("code_verifier".to_owned(), code_verifier.to_owned()));
    let r = build_json_object(&pairs);
    proof {
        assert(pairs_view(pairs@) =~= seq![("auth_code"@, code@), ("code_verifier"@, code_verifier@)]);
    }
    r
}

/// What an exchange response means: any non-success carries the status and
/// the body; a success must carry `access_token`, with `refresh_token` and
/// `expires_in` optional.
pub open spec fn spec_interpret_exchange(status: u16, body: Seq<char>) -> Result<
    TokenBundleView,
    ExchangeErrorView,
> {
    if 200 <= status < 300 {
        match json_str_field(body, "access_token"@) {
            Option::Some(access_token) => Result::Ok(
                TokenBundleView {
                    access_token,
                    refresh_token: json_str_field(body, "refresh_token"@),
                    expires_in: json_int_field(body, "expires_in"@),
                },
            ),
            Option::None => Result::Err(ExchangeErrorView::MalformedResponse),
        }
    } else {
        Result::Err(ExchangeErrorView::ExchangeFailed(status, body))
    }
}

/// Interprets an exchange response.
pub fn interpret_exchange_response(status: u16, body: String) -> (r: Result<
    OAuthCallbackResult,
    ExchangeError,
>)
    ensures
        exchange_outcome_view(r) == spec_interpret_exchange(status, body@),
{
    if 200 <= status && status < 300 {
        match get_string_field(body.as_str(), "access_token") {
            Some(access_token) => {
                let refresh_token = get_string_field(body.as_str(), "refresh_token");
                let expires_in = get_int_field(body.as_str(), "expires_in");
                Ok(OAuthCallbackResult { access_token, refresh_token, expires_in })
            },
            None => Err(ExchangeError::MalformedResponse),
        }
    } else {
        Err(ExchangeError::ExchangeFailed(status, body))
    }
}

/// Exchanges an authorization code for tokens. Whatever the network
/// returns, the outcome is either a transport failure or the
/// interpretation of some HTTP response.
pub fn exchange_code_for_token(
    auth_base_url: &str,
    code: &str,
    code_verifier: &str,
    provider_api_key: &str,
    timeout_secs: u64,
) -> (r: Result<OAuthCallbackResult, ExchangeError>)
    ensures
        (r matches Result::Err(e) && e@ is NetworkError) || exists|status: u16, body: Seq<char>|
            exchange_outcome_view(r) == spec_interpret_exchange(status, body),
{
    let client = match new_http_client(timeout_secs) {
        Some(c) => c,
        None => {
            return Err(ExchangeError::NetworkError("client construction failed".to_owned()));
        },
    };
    let url = build_exchange_url(auth_base_url);
    let body = build_exchange_body(code, code_verifier);
    let mut bearer = "Bearer ".to_owned();
    bearer.append(provider_api_key);
    let mut rb = http_post(&client, url.as_str());
    rb = http_header(rb, "Content-Type", "application/json");
    rb = http_header(rb, "apikey", provider_api_key);
    rb = http_header(rb, "Authorization", bearer.as_str());
    rb = http_body(rb, body.as_str());
    let resp = match http_send(rb) {
        Ok(resp) => resp,
        Err(detail) => {
            return Err(ExchangeError::NetworkError(detail));
        },
    };
    let status = http_status(&resp);
    let text = match http_text(resp) {
        Some(t) => t,
        None => String::new(),
    };
    let ghost body_view = text@;
    let r = interpret_exchange_response(status, text);
    proof {
        assert(exchange_outcome_view(r) == spec_interpret_exchange(status, body_view));
    }
    r
}

} // verus!
