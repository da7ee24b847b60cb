//! Trusted boundary to the blocking HTTP client.
//!
//! Every wrapper promises nothing about what the network returns: the
//! functions that interpret a status and a body are verified for every
//! value that can come back.

use vstd::prelude::*;

verus! {

#[verifier::external_type_specification]
#[verifier::external_body]
pub struct ExClient(reqwest::blocking::Client);

#[verifier::external_type_specification]
#[verifier::external_body]
pub struct ExRequestBuilder(reqwest::blocking::RequestBuilder);

#[verifier::external_type_specification]
#[verifier::external_body]
pub struct ExResponse(reqwest::blocking::Response);

/// Relies on reqwest's `ClientBuilder::timeout` and `build`: a client whose
/// requests are bounded by the given timeout, or `None` when the client
/// cannot be constructed.
#[verifier::external_body]
pub(crate) fn new_http_client(timeout_secs: u64) -> (r: Option<reqwest::blocking::Client>) {
    reqwest::blocking::Client::builder().timeout(
        core::time::Duration::from_secs(timeout_secs),
    ).build().ok()
}

/// Relies on reqwest's `Client::post`: starts a POST request to `url`.
#[verifier::external_body]
pub(crate) fn http_post(client: &reqwest::blocking::Client, url: &str) -> (r:
    reqwest::blocking::RequestBuilder) {
    client.post(url)
}

/// Relies on reqwest's `RequestBuilder::header`: adds one header.
#[verifier::external_body]
pub(crate) fn http_header(
    rb: reqwest::blocking::RequestBuilder,
    name: &str,
    value: &str,
) -> (r: reqwest::blocking::RequestBuilder) {
    rb.header(name, value)
}

/// Relies on reqwest's `RequestBuilder::body`: sets the request body.
#[verifier::external_body]
pub(crate) fn http_body(rb: reqwest::blocking::RequestBuilder, body: &str) -> (r:
    reqwest::blocking::RequestBuilder) {
    rb.body(body.to_string())
}

/// Relies on reqwest's `RequestBuilder::send`: performs the request; a
/// transport failure comes back as its message.
#[verifier::external_body]
pub(crate) fn http_send(rb: reqwest::blocking::RequestBuilder) -> (r: Result<
    reqwest::blocking::Response,
    String,
>) {
    rb.send().map_err(|e| e.to_string())
}

/// Relies on reqwest's `Response::status`: the HTTP status code.
#[verifier::external_body]
pub(crate) fn http_status(resp: &reqwest::blocking::Response) -> (r: u16) {
    resp.status().as_u16()
}

/// Relies on reqwest's `Response::text`: the response body as text.
#[verifier::external_body]
pub(crate) fn http_text(resp: reqwest::blocking::Response) -> (r: Option<String>) {
    resp.text().ok()
}

} // verus!
