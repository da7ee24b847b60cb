//! Password login against either backend dialect.
//!
//! The dialect is selected once, by exact match (after trimming a trailing
//! slash) between the server URL and the configured SaaS base URL; every
//! other server is spoken to in the self-hosted dialect. Each dialect's
//! request is built and its response interpreted by a verified function;
//! only the network transfer itself is trusted.

use vstd::prelude::*;

use crate::connection::ConnectionMode;
use crate::http::{http_body, http_header, http_post, http_send, http_status, http_text,
    new_http_client};
use crate::json::{build_json_object, get_string_field, get_string_field2, get_string_field3,
    json_object, json_str_field, json_str_field2, json_str_field3};
use crate::text::{pairs_view, str_eq, trim_slashes, trim_spaces, trim_str,
    trim_trailing_slashes};

verus! {

/// One login attempt, as the caller hands it in.
pub struct LoginRequest {
    pub server_url: String,
    pub identifier: String,
    pub secret: String,
    pub second_factor: Option<String>,
}

/// A successful login: the token and the identity it belongs to.
#[derive(Debug)]
pub struct LoginResponse {
    pub token: String,
    pub username: String,
    pub email: Option<String>,
}

/// The identity the application keeps after a login, for display and for
/// the credential vault's bookkeeping.
#[derive(Debug)]
pub struct UserInfo {
    pub username: String,
    pub email: Option<String>,
}

impl UserInfo {
    /// The identity a successful login establishes.
    pub fn of_login(response: &LoginResponse) -> (r: UserInfo)
        ensures
            r.username@ == response.username@,
            r.email is Some <==> response.email is Some,
            r.email matches Some(e) ==> e@ == response.email->0@,
    {
        UserInfo {
            username: response.username.clone(),
            email: match &response.email {
                Some(e) => Some(e.clone()),
                None => None,
            },
        }
    }
}

/// Why a login attempt failed.
#[derive(Debug)]
pub enum LoginError {
    /// The request never produced an HTTP response; the detail is the
    /// transport's message. Retryable.
    NetworkError(String),
    /// The server rejected the credentials.
    InvalidCredentials,
    /// The server understood the credentials but refused access.
    AccessDenied,
    /// The self-hosted server asks for, or rejected, a one-time code; the
    /// distinguished code (`mfa_required` or `invalid_mfa_code`) is carried
    /// verbatim.
    MfaCode(String),
    /// Any other non-success status.
    UpstreamFailure(u16),
    /// A success status whose body does not hold what the dialect promises.
    MalformedResponse,
}

pub ghost struct LoginResponseView {
    pub token: Seq<char>,
    pub username: Seq<char>,
    pub email: Option<Seq<char>>,
}

pub ghost enum LoginErrorView {
    NetworkError(Seq<char>),
    InvalidCredentials,
    AccessDenied,
    MfaCode(Seq<char>),
    UpstreamFailure(u16),
    MalformedResponse,
}

impl View for LoginResponse {
    type V = LoginResponseView;

    open spec fn view(&self) -> LoginResponseView {
        LoginResponseView {
            token: self.token@,
            username: self.username@,
            email: match self.email {
                Option::Some(e) => Option::Some(e@),
                Option::None => Option::None,
            },
        }
    }
}

impl View for LoginError {
    type V = LoginErrorView;

    open spec fn view(&self) -> LoginErrorView {
        match self {
            LoginError::NetworkError(d) => LoginErrorView::NetworkError(d@),
            LoginError::InvalidCredentials => LoginErrorView::InvalidCredentials,
            LoginError::AccessDenied => LoginErrorView::AccessDenied,
            LoginError::MfaCode(c) => LoginErrorView::MfaCode(c@),
            LoginError::UpstreamFailure(s) => LoginErrorView::UpstreamFailure(*s),
            LoginError::MalformedResponse => LoginErrorView::MalformedResponse,
        }
    }
}

/// The outcome of a login attempt at the spec level.
pub open spec fn login_outcome_view(r: Result<LoginResponse, LoginError>) -> Result<
    LoginResponseView,
    LoginErrorView,
> {
    match r {
        Result::Ok(x) => Result::Ok(x@),
        Result::Err(e) => Result::Err(e@),
    }
}

/// The dialect a server URL is routed to: SaaS exactly when it equals the
/// configured SaaS base URL up to a trailing slash.
pub open spec fn spec_select_dialect(server_url: Seq<char>, saas_base_url: Seq<char>) -> ConnectionMode {
    if trim_slashes(server_url) == trim_slashes(saas_base_url) {
        ConnectionMode::SaaS
    } else {
        ConnectionMode::SelfHosted
    }
}

/// Selects the dialect for `server_url`; trailing-slash variance between
/// the two URLs is ignored.
pub fn select_dialect(server_url: &str, saas_base_url: &str) -> (r: ConnectionMode)
    ensures
        r == spec_select_dialect(server_url@, saas_base_url@),
{
    let a = trim_trailing_slashes(server_url);
    let b = trim_trailing_slashes(saas_base_url);
    if a == b {
        ConnectionMode::SaaS
    } else {
        ConnectionMode::SelfHosted
    }
}

/// The SaaS password-grant endpoint of a server.
pub open spec fn saas_login_url(server_url: Seq<char>) -> Seq<char> {
    trim_slashes(server_url) + "/auth/v1/token?grant_type=password"@
}

/// The self-hosted login endpoint of a server.
pub open spec fn selfhosted_login_url(server_url: Seq<char>) -> Seq<char> {
    trim_slashes(server_url) + "/api/v1/auth/login"@
}

/// Builds the SaaS password-grant endpoint URL.
pub fn build_saas_login_url(server_url: &str) -> (r: String)
    ensures
        r@ == saas_login_url(server_url@),
{
    let mut url = trim_trailing_slashes(server_url);
    url.append("/auth/v1/token?grant_type=password");
    url
}

/// Builds the self-hosted login endpoint URL.
pub fn build_selfhosted_login_url(server_url: &str) -> (r: String)
    ensures
        r@ == selfhosted_login_url(server_url@),
{
    let mut url = trim_trailing_slashes(server_url);
    url.append("/api/v1/auth/login");
    url
}

/// The SaaS login request body.
pub open spec fn saas_login_body(identifier: Seq<char>, secret: Seq<char>) -> Seq<char> {
    json_object(seq![("email"@, identifier), ("password"@, secret)])
}

/// Whether a second factor is sent along: only when present and non-blank
/// after trimming.
pub open spec fn effective_second_factor(second_factor: Option<Seq<char>>) -> Option<Seq<char>> {
    match second_factor {
        Option::Some(code) => if trim_spaces(code).len() > 0 {
            Option::Some(trim_spaces(code))
        } else {
            Option::None
        },
        Option::None => Option::None,
    }
}

/// The self-hosted login request body; the `mfaCode` member is included
/// only when a non-blank second factor was supplied.
pub open spec fn selfhosted_login_body(
    identifier: Seq<char>,
    secret: Seq<char>,
    second_factor: Option<Seq<char>>,
) -> Seq<char> {
    match effective_second_factor(second_factor) {
        Option::Some(code) => json_object(
            seq![("username"@, identifier), ("password"@, secret), ("mfaCode"@, code)],
        ),
        Option::None => json_object(seq![("username"@, identifier), ("password"@, secret)]),
    }
}

/// Builds the SaaS login request body.
pub fn build_saas_login_body(identifier: &str, secret: &str) -> (r: String)
    ensures
        r@ == saas_login_body(identifier@, secret@),
{
    let mut pairs: Vec<(String, String)> = Vec::new();
    pairs.push(("email".to_owned(), identifier.to_owned()));
    pairs.push(("password".to_owned(), secret.to_owned()));
    let r = build_json_object(&pairs);
    proof {
        assert(pairs_view(pairs@) =~= seq![("email"@, identifier@), ("password"@, secret@)]);
    }
    r
}

/// Builds the self-hosted login request body.
pub fn build_selfhosted_login_body(
    identifier: &str,
    secret: &str,
    second_factor: Option<&String>,
) -> (r: String)
    ensures
        r@ == selfhosted_login_body(
            identifier@,
            secret@,
            match second_factor {
                Option::Some(c) => Option::Some(c@),
                Option::None => Option::None,
            },
        ),
{
    let mut pairs: Vec<(String, String)> = Vec::new();
    pairs.push(("username".to_owned(), identifier.to_owned()));
    pairs.push(("password".to_owned(), secret.to_owned()));
    let mut with_mfa = false;
    if let Some(code) = second_factor {
        let trimmed = trim_str(code.as_str());
        if trimmed.unicode_len() > 0 {
            pairs.push(("mfaCode".to_owned(), trimmed));
            with_mfa = true;
        }
    }
    let r = build_json_object(&pairs);
    proof {
        if with_mfa {
            assert(pairs_view(pairs@) =~= seq![
                ("username"@, identifier@),
                ("password"@, secret@),
                ("mfaCode"@, trim_spaces(second_factor->0@)),
            ]);
        } else {
            assert(pairs_view(pairs@) =~= seq![("username"@, identifier@), ("password"@, secret@)]);
        }
    }
    r
}

/// What a SaaS response means: 400 and 401 are bad credentials, 403 is
/// denied access, any other failure keeps its status; a success must carry
/// `access_token`, and the display name is `user.user_metadata.full_name`,
/// else `user.email`, else the caller-supplied identifier.
pub open spec fn spec_interpret_saas(status: u16, body: Seq<char>, identifier: Seq<char>) -> Result<
    LoginResponseView,
    LoginErrorView,
> {
    if 200 <= status < 300 {
        match json_str_field(body, "access_token"@) {
            Option::Some(token) => {
                let email = json_str_field2(body, "user"@, "email"@);
                let full_name = json_str_field3(body, "user"@, "user_metadata"@, "full_name"@);
                let username = match full_name {
                    Option::Some(n) => n,
                    Option::None => match email {
                        Option::Some(e) => e,
                        Option::None => identifier,
                    },
                };
                Result::Ok(LoginResponseView { token, username, email })
            },
            Option::None => Result::Err(LoginErrorView::MalformedResponse),
        }
    } else if status == 400 || status == 401 {
        Result::Err(LoginErrorView::InvalidCredentials)
    } else if status == 403 {
        Result::Err(LoginErrorView::AccessDenied)
    } else {
        Result::Err(LoginErrorView::UpstreamFailure(status))
    }
}

/// What a self-hosted response means: a failure body whose `error` field is
/// exactly `mfa_required` or `invalid_mfa_code` carries that code verbatim,
/// ahead of the status mapping; otherwise 401 is bad credentials, 403 is
/// denied access, any other failure keeps its status. A success must carry
/// `session.access_token` and `user.username`.
pub open spec fn spec_interpret_selfhosted(status: u16, body: Seq<char>) -> Result<
    LoginResponseView,
    LoginErrorView,
> {
    if 200 <= status < 300 {
        match json_str_field2(body, "session"@, "access_token"@) {
            Option::Some(token) => match json_str_field2(body, "user"@, "username"@) {
                Option::Some(username) => Result::Ok(
                    LoginResponseView {
                        token,
                        username,
                        email: json_str_field2(body, "user"@, "email"@),
                    },
                ),
                Option::None => Result::Err(LoginErrorView::MalformedResponse),
            },
            Option::None => Result::Err(LoginErrorView::MalformedResponse),
        }
    } else {
        let error_code = json_str_field(body, "error"@);
        if error_code == Option::Some("mfa_required"@) || error_code == Option::Some(
            "invalid_mfa_code"@,
        ) {
            Result::Err(LoginErrorView::MfaCode(error_code->0))
        } else if status == 401 {
            Result::Err(LoginErrorView::InvalidCredentials)
        } else if status == 403 {
            Result::Err(LoginErrorView::AccessDenied)
        } else {
            Result::Err(LoginErrorView::UpstreamFailure(status))
        }
    }
}

/// What a response means under the given dialect.
pub open spec fn spec_interpret_login(
    dialect: ConnectionMode,
    status: u16,
    body: Seq<char>,
    identifier: Seq<char>,
) -> Result<LoginResponseView, LoginErrorView> {
    match dialect {
        ConnectionMode::SaaS => spec_interpret_saas(status, body, identifier),
        ConnectionMode::SelfHosted => spec_interpret_selfhosted(status, body),
    }
}

/// Interprets a SaaS login response.
pub fn interpret_saas_response(status: u16, body: &str, identifier: &str) -> (r: Result<
    LoginResponse,
    LoginError,
>)
    ensures
        login_outcome_view(r) == spec_interpret_saas(status, body@, identifier@),
{
    if 200 <= status && status < 300 {
        match get_string_field(body, "access_token") {
            Some(token) => {
                let email = get_string_field2(body, "user", "email");
                let full_name = get_string_field3(body, "user", "user_metadata", "full_name");
                let username = match full_name {
                    Some(n) => n,
                    None => match &email {
                        Some(e) => e.clone(),
                        None => identifier.to_owned(),
                    },
                };
                Ok(LoginResponse { token, username, email })
            },
            None => Err(LoginError::MalformedResponse),
        }
    } else if status == 400 || status == 401 {
        Err(LoginError::InvalidCredentials)
    } else if status == 403 {
        Err(LoginError::AccessDenied)
    } else {
        Err(LoginError::UpstreamFailure(status))
    }
}

/// Interprets a self-hosted login response.
pub fn interpret_selfhosted_response(status: u16, body: &str) -> (r: Result<
    LoginResponse,
    LoginError,
>)
    ensures
        login_outcome_view(r) == spec_interpret_selfhosted(status, body@),
{
    if 200 <= status && status < 300 {
        match get_string_field2(body, "session", "access_token") {
            Some(token) => match get_string_field2(body, "user", "username") {
                Some(username) => Ok(
                    LoginResponse { token, username, email: get_string_field2(body, "user", "email") },
                ),
                None => Err(LoginError::MalformedResponse),
            },
            None => Err(LoginError::MalformedResponse),
        }
    } else {
        let error_code = get_string_field(body, "error");
        match error_code {
            Some(code) => {
                if str_eq(code.as_str(), "mfa_required") || str_eq(
                    code.as_str(),
                    "invalid_mfa_code",
                ) {
                    Err(LoginError::MfaCode(code))
                } else if status == 401 {
                    Err(LoginError::InvalidCredentials)
                } else if status == 403 {
                    Err(LoginError::AccessDenied)
                } else {
                    Err(LoginError::UpstreamFailure(status))
                }
            },
            None => {
                if status == 401 {
                    Err(LoginError::InvalidCredentials)
                } else if status == 403 {
                    Err(LoginError::AccessDenied)
                } else {
                    Err(LoginError::UpstreamFailure(status))
                }
            },
        }
    }
}

/// Sends one login request and interprets the response. Whatever the
/// network returns, the outcome is either a transport failure or the
/// dialect's interpretation of some HTTP response.
pub fn password_login(
    request: &LoginRequest,
    provider_api_key: &str,
    saas_base_url: &str,
    timeout_secs: u64,
) -> (r: Result<LoginResponse, LoginError>)
    ensures
        ({
            let dialect = spec_select_dialect(request.server_url@, saas_base_url@);
            (r matches Result::Err(e) && e@ is NetworkError) || exists|status: u16, body: Seq<char>|
                login_outcome_view(r) == spec_interpret_login(
                    dialect,
                    status,
                    body,
                    request.identifier@,
                )
        }),
{
    let dialect = select_dialect(request.server_url.as_str(), saas_base_url);
    let client = match new_http_client(timeout_secs) {
        Some(c) => c,
        None => {
            return Err(LoginError::NetworkError("client construction failed".to_owned()));
        },
    };
    let ghost d = spec_select_dialect(request.server_url@, saas_base_url@);
    match dialect {
        ConnectionMode::SaaS => {
            let url = build_saas_login_url(request.server_url.as_str());
            let body = build_saas_login_body(
                request.identifier.as_str(),
                request.secret.as_str(),
            );
            let mut bearer = "Bearer ".to_owned();
            bearer.append(provider_api_key);
            let mut rb = http_post(&client, url.as_str());
            rb = http_header(rb, "Content-Type", "application/json;charset=UTF-8");
            rb = http_header(rb, "apikey", provider_api_key);
            rb = http_header(rb, "Authorization", bearer.as_str());
            rb = http_header(rb, "X-Client-Info", "supabase-js-web/2.58.0");
            rb = http_header(rb, "X-Supabase-Api-Version", "2024-01-01");
            rb = http_body(rb, body.as_str());
            let resp = match http_send(rb) {
                Ok(resp) => resp,
                Err(detail) => {
                    return Err(LoginError::NetworkError(detail));
                },
            };
            let status = http_status(&resp);
            let text = match http_text(resp) {
                Some(t) => t,
                None => String::new(),
            };
            let r = interpret_saas_response(status, text.as_str(), request.identifier.as_str());
            proof {
                assert(login_outcome_view(r) == spec_interpret_login(
                    d,
                    status,
                    text@,
                    request.identifier@,
                ));
            }
            r
        },
        ConnectionMode::SelfHosted => {
            let url = build_selfhosted_login_url(request.server_url.as_str());
            let body = build_selfhosted_login_body(
                request.identifier.as_str(),
                request.secret.as_str(),
                request.second_factor.as_ref(),
            );
            let mut rb = http_post(&client, url.as_str());
            rb = http_header(rb, "Content-Type", "application/json");
            rb = http_body(rb, body.as_str());
            let resp = match http_send(rb) {
                Ok(resp) => resp,
                Err(detail) => {
                    return Err(LoginError::NetworkError(detail));
                },
            };
            let status = http_status(&resp);
            let text = match http_text(resp) {
                Some(t) => t,
                None => String::new(),
            };
            let r = interpret_selfhosted_response(status, text.as_str());
            proof {
                assert(login_outcome_view(r) == spec_interpret_login(
                    d,
                    status,
                    text@,
                    request.identifier@,
                ));
            }
            r
        },
    }
}

} // verus!
