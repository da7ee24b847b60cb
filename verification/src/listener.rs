//! The loopback listener: one ephemeral, OS-assigned local port that waits
//! for exactly one decisive callback request.
//!
//! Binding to port 0 lets the OS pick the port, so a previous run's
//! still-draining socket is never reused. The wait polls with a one-second
//! timeout inside an outer bound. Every decisive request gets exactly one
//! response: the success page when a code was found, or the error page with
//! its `{error}` placeholder substituted. A request that is neither an
//! error nor a code (a favicon probe, or a page that must move fragment
//! data into the query string first) gets a neutral page that forwards a
//! fragment, and the wait goes on.

use vstd::prelude::*;

use crate::callback::{outcome_matches, parse, CallbackOutcome, SpecCallback};
use crate::text::{append_decimal, dec_digits_of, push_char};

verus! {

#[verifier::external_type_specification]
#[verifier::external_body]
pub struct ExServer(tiny_http::Server);

#[verifier::external_type_specification]
#[verifier::external_body]
pub struct ExRequest(tiny_http::Request);

/// Relies on tiny_http's `Server::http` and `server_addr`: binds a listener
/// on 127.0.0.1 with an OS-assigned ephemeral port and returns it together
/// with that port; `None` when binding fails.
#[verifier::external_body]
fn bind_loopback_server() -> (r: Option<(tiny_http::Server, u16)>) {
    match tiny_http::Server::http("127.0.0.1:0") {
        Ok(server) => match server.server_addr() {
            tiny_http::ListenAddr::IP(addr) => {
                let port = addr.port();
                Some((server, port))
            },
            _ => None,
        },
        Err(_) => None,
    }
}

/// Relies on tiny_http's `Server::recv_timeout`: waits up to one second for
/// an inbound request. What arrives, if anything, depends on the outside
/// world and nothing is assumed about it.
#[verifier::external_body]
fn recv_one_second(server: &tiny_http::Server) -> (r: Option<tiny_http::Request>) {
    match server.recv_timeout(core::time::Duration::from_secs(1)) {
        Ok(Some(request)) => Some(request),
        _ => None,
    }
}

/// Relies on tiny_http's `Request::url`: the path and query of the request
/// line, beginning with `/`.
#[verifier::external_body]
fn request_url(req: &tiny_http::Request) -> (r: String) {
    req.url().to_string()
}

/// Relies on tiny_http's `Response::from_string`, `Response::add_header`
/// and `Request::respond`: sends `body` as an HTML response and closes the
/// request.
#[verifier::external_body]
fn respond_html(req: tiny_http::Request, body: &str) {
    let mut response = tiny_http::Response::from_string(body.to_string());
    if let Ok(h) = tiny_http::Header::from_bytes(
        &b"Content-Type"[..],
        &b"text/html; charset=utf-8"[..],
    ) {
        response.add_header(h);
    }
    let _ = req.respond(response);
}

/// A bound loopback listener. Dropping it releases the port.
pub struct BoundListener {
    server: tiny_http::Server,
    port: u16,
}

impl BoundListener {
    /// The OS-assigned port this listener is bound to.
    pub closed spec fn spec_port(&self) -> u16 {
        self.port
    }

    /// The OS-assigned port this listener is bound to.
    pub fn port(&self) -> (p: u16)
        ensures
            p == self.spec_port(),
    {
        self.port
    }
}

/// The wait ended without a decisive request; the caller may retry the
/// whole flow, which binds a fresh port and derives a fresh PKCE pair.
pub struct TimeoutError;

/// Binds a fresh loopback listener, or reports that none can be had.
pub fn bind_listener() -> (r: Option<BoundListener>) {
    match bind_loopback_server() {
        Some((server, port)) => Some(BoundListener { server, port }),
        None => None,
    }
}

/// The redirect URI of a listener bound to `port`.
pub open spec fn callback_url_spec(port: u16) -> Seq<char> {
    "http://127.0.0.1:"@ + dec_digits_of(port as nat) + "/callback"@
}

/// The full URL a request with path-and-query `path` was received under.
pub open spec fn raw_url_spec(port: u16, path: Seq<char>) -> Seq<char> {
    "http://127.0.0.1:"@ + dec_digits_of(port as nat) + path
}

/// The redirect URI of a listener bound to `port`, always
/// `http://127.0.0.1:{port}/callback`.
pub fn callback_url(port: u16) -> (r: String)
    ensures
        r@ == callback_url_spec(port),
{
    let mut url = "http://127.0.0.1:".to_owned();
    append_decimal(&mut url, port as u64);
    url.append("/callback");
    url
}

/// The detail shown for a provider error: the code, and the description
/// when there is one.
pub open spec fn provider_error_detail_spec(code: Seq<char>, description: Option<Seq<char>>) -> Seq<
    char,
> {
    match description {
        Option::Some(d) => "OAuth authentication failed: "@ + code + " - "@ + d,
        Option::None => "OAuth authentication failed: "@ + code,
    }
}

/// Builds the detail shown for a provider error.
pub fn provider_error_detail(code: &str, description: Option<&String>) -> (r: String)
    ensures
        r@ == provider_error_detail_spec(
            code@,
            match description {
                Option::Some(d) => Option::Some(d@),
                Option::None => Option::None,
            },
        ),
{
    let mut out = "OAuth authentication failed: ".to_owned();
    out.append(code);
    if let Some(d) = description {
        out.append(" - ");
        out.append(d.as_str());
    }
    out
}

/// `s` with every occurrence of `from` replaced by `to`, scanning left to
/// right without revisiting replaced text.
pub open spec fn replace_marker(s: Seq<char>, from: Seq<char>, to: Seq<char>) -> Seq<char>
    decreases s.len(),
    when from.len() > 0
{
    if s.len() == 0 {
        Seq::empty()
    } else if from.len() <= s.len() && s.take(from.len() as int) == from {
        to + replace_marker(s.skip(from.len() as int), from, to)
    } else {
        seq![s[0]] + replace_marker(s.skip(1), from, to)
    }
}

/// `s` with every occurrence of `from` replaced by `to`.
pub fn replace_all(s: &str, from: &str, to: &str) -> (r: String)
    requires
        from@.len() > 0,
    ensures
        r@ == replace_marker(s@, from@, to@),
{
    let n = s.unicode_len();
    let flen = from.unicode_len();
    let mut out = String::new();
    let mut i: usize = 0;
    proof {
        assert(s@.skip(0) == s@);
    }
    while i < n
        invariant
            i <= n,
            n == s@.len(),
            flen == from@.len(),
            flen > 0,
            replace_marker(s@, from@, to@) == out@ + replace_marker(s@.skip(i as int), from@, to@),
        decreases n - i,
    {
        let ghost i0 = i as int;
        let ghost pre = out@;
        let mut matches_here = false;
        if flen <= n - i {
            let candidate = s.substring_char(i, i + flen);
            matches_here = crate::text::str_eq(candidate, from);
            proof {
                assert(s@.skip(i0).take(flen as int) =~= s@.subrange(i0, i0 + flen as int));
            }
        }
        proof {
            assert(s@.skip(i0)[0] == s@[i0]);
        }
        if matches_here {
            out.append(to);
            i = i + flen;
            proof {
                assert(s@.skip(i0).skip(flen as int) =~= s@.skip(i0 + flen as int));
                assert(pre + (to@ + replace_marker(s@.skip(i0 + flen as int), from@, to@)) =~= out@
                    + replace_marker(s@.skip(i0 + flen as int), from@, to@));
            }
        } else {
            push_char(&mut out, s.get_char(i));
            i = i + 1;
            proof {
                if flen <= n - i0 {
                    assert(s@.skip(i0).take(flen as int) != from@);
                }
                assert(s@.skip(i0).skip(1) =~= s@.skip(i0 + 1));
                assert(pre + (seq![s@[i0]] + replace_marker(s@.skip(i0 + 1), from@, to@)) =~= out@
                    + replace_marker(s@.skip(i0 + 1), from@, to@));
            }
        }
    }
    proof {
        assert(s@.skip(n as int) =~= Seq::<char>::empty());
        assert(out@ =~= replace_marker(s@, from@, to@));
    }
    out
}

/// The page served for a provider error: the caller's template with its
/// `{error}` placeholder substituted by the failure detail.
pub open spec fn rendered_error_page(
    template: Seq<char>,
    code: Seq<char>,
    description: Option<Seq<char>>,
) -> Seq<char> {
    replace_marker(template, "{error}"@, provider_error_detail_spec(code, description))
}

/// The neutral page served for a request that is not decisive. Its script
/// forwards fragment data by re-issuing the request with the fragment
/// moved into the query string, which is what lets providers that deliver
/// parameters only in the URL fragment complete the flow.
pub open spec fn neutral_page_spec() -> Seq<char> {
    "<html><body><script>if (window.location.hash.length > 1) { window.location.replace(window.location.pathname + '?' + window.location.hash.substring(1)); }</script>Completing sign-in&#8230;</body></html>"@
}

fn neutral_page() -> (r: String)
    ensures
        r@ == neutral_page_spec(),
{
    "<html><body><script>if (window.location.hash.length > 1) { window.location.replace(window.location.pathname + '?' + window.location.hash.substring(1)); }</script>Completing sign-in&#8230;</body></html>".to_owned()
}

/// Waits for one decisive callback request, up to `timeout_secs` polling
/// rounds of about one second each.
///
/// A decisive request is answered with the success page (a code) or with
/// the error page and its substituted detail (a provider error), and its
/// outcome is returned: every outcome handed back is the parse of a URL
/// received on this listener's port. Requests that are not decisive are
/// answered with the neutral page and the wait goes on. When no decisive
/// request arrives in time the wait ends in `TimeoutError`; consuming the
/// listener releases the port either way.
pub fn listen_for_callback(
    listener: BoundListener,
    success_html: &str,
    error_html: &str,
    timeout_secs: u64,
) -> (r: Result<CallbackOutcome, TimeoutError>)
    ensures
        r matches Ok(o) ==> exists|path: Seq<char>|
            outcome_matches(parse_spec_at(listener.spec_port(), path), Ok(o)),
{
    let mut elapsed: u64 = 0;
    while elapsed < timeout_secs
        decreases timeout_secs - elapsed,
    {
        elapsed = elapsed + 1;
        let req = match recv_one_second(&listener.server) {
            Some(req) => req,
            None => {
                continue ;
            },
        };
        let path = request_url(&req);
        let mut raw = "http://127.0.0.1:".to_owned();
        append_decimal(&mut raw, listener.port as u64);
        raw.append(path.as_str());
        proof {
            assert(raw@ == raw_url_spec(listener.spec_port(), path@));
        }
        match parse(raw.as_str()) {
            Ok(outcome) => {
                match &outcome {
                    CallbackOutcome::AuthorizationCode { .. } => {
                        respond_html(req, success_html);
                    },
                    CallbackOutcome::ProviderError { code, description } => {
                        let detail = provider_error_detail(code.as_str(), description.as_ref());
                        proof {
                            reveal_strlit("{error}");
                        }
                        let page = replace_all(error_html, "{error}", detail.as_str());
                        respond_html(req, page.as_str());
                    },
                }
                proof {
                    assert(outcome_matches(parse_spec_at(listener.spec_port(), path@), Ok(outcome)));
                }
                return Ok(outcome);
            },
            Err(_) => {
                let page = neutral_page();
                respond_html(req, page.as_str());
            },
        }
    }
    Err(TimeoutError)
}

/// The wire detail the exchange depends on: a decisive code callback whose
/// path is `/callback`, with any query or fragment after it, carries the
/// redirect URI `http://127.0.0.1:{port}/callback` exactly — the one string
/// the token exchange must replay.
pub proof fn lemma_redirect_uri_is_callback_url(port: u16, rest: Seq<char>)
    requires
        rest.len() == 0 || rest[0] == '?' || rest[0] == '#',
    ensures
        parse_spec_at(port, "/callback"@ + rest) matches SpecCallback::Code {
            redirect_uri,
            ..
        } ==> redirect_uri == callback_url_spec(port),
{
    reveal_strlit("http://127.0.0.1:");
    reveal_strlit("/callback");
    crate::text::lemma_dec_digits_are_digits(port as nat);
    let digits = dec_digits_of(port as nat);
    let prefix = "http://127.0.0.1:"@ + digits + "/callback"@;
    assert forall|i: int| 0 <= i < prefix.len() implies prefix[i] != '?' && #[trigger] prefix[i]
        != '#' by {
        let a = "http://127.0.0.1:"@.len() as int;
        if i < a {
            assert(prefix[i] == "http://127.0.0.1:"@[i]);
        } else if i < a + digits.len() {
            assert(prefix[i] == digits[i - a]);
            assert('0' <= prefix[i] <= '9');
        } else {
            assert(prefix[i] == "/callback"@[i - a - digits.len()]);
        }
    }
    assert(raw_url_spec(port, "/callback"@ + rest) =~= prefix + rest);
    crate::callback::lemma_base_of_prefix(prefix, rest);
    assert(callback_url_spec(port) =~= prefix);
}

/// The meaning of a request with path-and-query `path` received on `port`.
pub open spec fn parse_spec_at(port: u16, path: Seq<char>) -> SpecCallback {
    crate::callback::parse_spec(raw_url_spec(port, path))
}

} // verus!
