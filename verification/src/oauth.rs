//! The federated login, end to end.
//!
//! One attempt runs through: create a PKCE session, bind the loopback
//! listener, build the authorization URL, have the system browser opened on
//! it, wait for the one decisive callback, and either report the provider's
//! denial or exchange the code for tokens. Opening the browser is outside
//! work the surrounding application performs between the two phases; all
//! state of an attempt lives in the `PendingLogin` value, so concurrent
//! attempts share nothing.

use vstd::prelude::*;

use crate::callback::{CallbackOutcome, SpecCallback};
use crate::codec::percent_encode_spec;
use crate::exchange::{exchange_code_for_token, spec_interpret_exchange, ExchangeError,
    OAuthCallbackResult};
use crate::listener::{bind_listener, callback_url, callback_url_spec, listen_for_callback,
    parse_spec_at, BoundListener};
use crate::pkce::{create_session, OAuthSession};
use crate::text::{trim_slashes, trim_trailing_slashes};

verus! {

/// Why a federated login attempt ended without tokens.
#[derive(Debug)]
pub enum OAuthError {
    /// The loopback listener could not be bound; fatal for this attempt.
    ListenerUnavailable,
    /// No decisive callback arrived within the overall timeout; the caller
    /// may retry the whole flow with a fresh session and port.
    TimedOut,
    /// The provider reported a failure, e.g. the user declined consent; an
    /// expected end state, not a bug.
    ProviderDenied { code: String, description: Option<String> },
    /// Anything else: the browser could not be opened, or the token
    /// exchange failed; the detail says which.
    Failed(String),
}

/// The authorization URL the browser is opened on.
pub open spec fn authorize_url_spec(
    auth_base_url: Seq<char>,
    provider: Seq<char>,
    port: u16,
    challenge: Seq<char>,
) -> Seq<char> {
    trim_slashes(auth_base_url) + "/auth/v1/authorize?provider="@ + provider + "&redirect_to="@
        + percent_encode_spec(callback_url_spec(port)) + "&code_challenge="@ + percent_encode_spec(
        challenge,
    ) + "&code_challenge_method=S256&prompt=select_account"@
}

/// Builds the authorization URL: the challenge method is always `S256`, and
/// `prompt=select_account` forces an account chooser on every attempt.
pub fn build_authorize_url(auth_base_url: &str, provider: &str, port: u16, challenge: &str) -> (r:
    String)
    ensures
        r@ == authorize_url_spec(auth_base_url@, provider@, port, challenge@),
{
    let mut url = trim_trailing_slashes(auth_base_url);
    url.append("/auth/v1/authorize?provider=");
    url.append(provider);
    url.append("&redirect_to=");
    let redirect = callback_url(port);
    let encoded_redirect = crate::codec::percent_encode(redirect.as_str());
    url.append(encoded_redirect.as_str());
    url.append("&code_challenge=");
    let encoded_challenge = crate::codec::percent_encode(challenge);
    url.append(encoded_challenge.as_str());
    url.append("&code_challenge_method=S256&prompt=select_account");
    url
}

/// One federated login attempt between its two phases: the session whose
/// verifier the exchange will consume, and the bound listener.
pub struct PendingLogin {
    pub session: OAuthSession,
    pub listener: BoundListener,
}

impl PendingLogin {
    pub open spec fn wf(&self) -> bool {
        self.session.wf()
    }
}

/// First phase: creates the session, binds the listener and builds the
/// authorization URL. The caller opens the system browser on that URL
/// (fire-and-forget) and then completes the attempt; when it cannot open
/// the browser it drops the pending attempt and reports `Failed`.
pub fn prepare_federated_login(provider: &str, auth_base_url: &str) -> (r: Result<
    (PendingLogin, String),
    OAuthError,
>)
    ensures
        r matches Ok((pending, url)) ==> pending.wf() && url@ == authorize_url_spec(
            auth_base_url@,
            provider@,
            pending.listener.spec_port(),
            pending.session.code_challenge@,
        ),
        r matches Err(e) ==> e is ListenerUnavailable,
{
    let session = create_session();
    let listener = match bind_listener() {
        Some(l) => l,
        None => {
            return Err(OAuthError::ListenerUnavailable);
        },
    };
    let port = listener.port();
    let url = build_authorize_url(auth_base_url, provider, port, session.code_challenge.as_str());
    Ok((PendingLogin { session, listener }, url))
}

/// What the orchestrator does with one decisive callback outcome.
#[derive(Debug)]
pub enum CallbackAction {
    /// Terminate as `ProviderDenied`; no exchange call is made.
    Deny { code: String, description: Option<String> },
    /// Exchange this code, replaying this redirect URI.
    Exchange { code: String, redirect_uri: String },
}

/// Decides what one decisive callback outcome leads to: a provider error
/// terminates the attempt without any exchange call, and only an
/// authorization code leads to an exchange.
pub fn plan_callback_action(outcome: CallbackOutcome) -> (r: CallbackAction)
    ensures
        ({
            match (outcome, r) {
                (
                    CallbackOutcome::ProviderError { code, description },
                    CallbackAction::Deny { code: c, description: d },
                ) => c == code && d == description,
                (
                    CallbackOutcome::AuthorizationCode { code, redirect_uri },
                    CallbackAction::Exchange { code: c, redirect_uri: u },
                ) => c == code && u == redirect_uri,
                _ => false,
            }
        }),
{
    match outcome {
        CallbackOutcome::ProviderError { code, description } => CallbackAction::Deny {
            code,
            description,
        },
        CallbackOutcome::AuthorizationCode { code, redirect_uri } => CallbackAction::Exchange {
            code,
            redirect_uri,
        },
    }
}

/// Second phase: waits for the one decisive callback and finishes the
/// attempt. A provider error becomes `ProviderDenied` with the provider's
/// code and description, and no exchange is attempted. An authorization
/// code is exchanged with this session's verifier; the session is consumed,
/// so the verifier can never be reused by a later attempt. Every returned
/// token bundle is the interpretation of some exchange response, and every
/// denial is the parse of some URL received on this listener's port.
pub fn complete_federated_login(
    pending: PendingLogin,
    auth_base_url: &str,
    provider_api_key: &str,
    success_html: &str,
    error_html: &str,
    timeout_secs: u64,
) -> (r: Result<OAuthCallbackResult, OAuthError>)
    ensures
        r matches Ok(bundle) ==> (exists|status: u16, body: Seq<char>|
            spec_interpret_exchange(status, body) == Result::<_, crate::exchange::ExchangeErrorView>::Ok(
                bundle@,
            )) && (exists|path: Seq<char>|
            #[trigger] parse_spec_at(pending.listener.spec_port(), path) matches SpecCallback::Code {
                ..
            }),
        r matches Err(e) ==> match e {
            OAuthError::TimedOut => true,
            OAuthError::ProviderDenied { code, description } => exists|path: Seq<char>|
                parse_spec_at(pending.listener.spec_port(), path) == (SpecCallback::Denied {
                    code: code@,
                    description: match description {
                        Option::Some(d) => Option::Some(d@),
                        Option::None => Option::None,
                    },
                }),
            OAuthError::ListenerUnavailable => false,
            OAuthError::Failed(_) => true,
        },
{
    let PendingLogin { session, listener } = pending;
    let ghost port = listener.spec_port();
    let outcome = match listen_for_callback(listener, success_html, error_html, timeout_secs) {
        Ok(outcome) => outcome,
        Err(_) => {
            return Err(OAuthError::TimedOut);
        },
    };
    match plan_callback_action(outcome) {
        CallbackAction::Deny { code, description } => Err(
            OAuthError::ProviderDenied { code, description },
        ),
        CallbackAction::Exchange { code, redirect_uri: _redirect_uri } => {
            match exchange_code_for_token(
                auth_base_url,
                code.as_str(),
                session.code_verifier.as_str(),
                provider_api_key,
                timeout_secs,
            ) {
                Ok(bundle) => Ok(bundle),
                Err(e) => {
                    let detail = match e {
                        ExchangeError::NetworkError(d) => d,
                        ExchangeError::ExchangeFailed(_, body) => body,
                        ExchangeError::MalformedResponse => String::new(),
                    };
                    let mut message = "token exchange failed: ".to_owned();
                    message.append(detail.as_str());
                    Err(OAuthError::Failed(message))
                },
            }
        },
    }
}

} // verus!
