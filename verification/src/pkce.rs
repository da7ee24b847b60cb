//! PKCE pair derivation: a random code verifier and its S256 challenge.
//!
//! The verifier is 128 characters drawn from the ASCII letters and digits, a
//! subset of the RFC-permitted unreserved set. The challenge is the SHA-256
//! digest of the verifier's bytes, encoded base64url without padding.

use vstd::prelude::*;

use crate::text::{is_alphanumeric_char, is_base64url_char};
use vstd::utf8::encode_utf8;

use base64::Engine;
use rand::Rng;
use sha2::Digest;

verus! {

/// The SHA-256 digest of a byte sequence.
pub uninterp spec fn sha256_of(b: Seq<u8>) -> Seq<u8>;

/// The base64url encoding, without padding, of a byte sequence.
pub uninterp spec fn base64url_of(b: Seq<u8>) -> Seq<char>;

/// Relies on sha2's `Sha256`: the digest depends on the input bytes alone
/// and is 32 bytes long.
#[verifier::external_body]
fn sha256(data: &[u8]) -> (r: Vec<u8>)
    ensures
        r@ == sha256_of(data@),
        r@.len() == 32,
{
    sha2::Sha256::digest(data).to_vec()
}

/// Relies on base64's `URL_SAFE_NO_PAD` engine: the encoding depends on the
/// input bytes alone; every output character is from the URL-safe alphabet
/// (letters, digits, `-` and `_`), no `=` padding is appended, and the
/// length is the documented unpadded encoded length.
#[verifier::external_body]
fn base64url_encode(data: &[u8]) -> (r: String)
    ensures
        r@ == base64url_of(data@),
        r@.len() == 4 * (data@.len() / 3) + (if data@.len() % 3 == 0 {
            0nat
        } else {
            (data@.len() % 3 + 1) as nat
        }),
        forall|i: int| 0 <= i < r@.len() ==> is_base64url_char(#[trigger] r@[i]),
{
    base64::engine::general_purpose::URL_SAFE_NO_PAD.encode(data)
}

/// Relies on rand's `Alphanumeric` distribution: every sampled character is
/// an ASCII letter or digit. Which ones come out is random and nothing is
/// assumed about it.
#[verifier::external_body]
fn random_alphanumeric_string(len: usize) -> (r: String)
    ensures
        r@.len() == len as nat,
        forall|i: int| 0 <= i < r@.len() ==> is_alphanumeric_char(#[trigger] r@[i]),
{
    rand::thread_rng().sample_iter(&rand::distributions::Alphanumeric).take(len).map(
        char::from,
    ).collect()
}

/// The challenge derived from a verifier: SHA-256 of the verifier's UTF-8
/// bytes, encoded base64url without padding.
pub open spec fn challenge_of(verifier: Seq<char>) -> Seq<char> {
    base64url_of(sha256_of(encode_utf8(verifier)))
}

/// A verifier as this library generates it: 128 ASCII letters and digits.
pub open spec fn is_valid_verifier(verifier: Seq<char>) -> bool {
    verifier.len() == 128 && forall|i: int|
        0 <= i < verifier.len() ==> is_alphanumeric_char(#[trigger] verifier[i])
}

/// Generates a fresh random PKCE code verifier.
pub fn generate_code_verifier() -> (r: String)
    ensures
        is_valid_verifier(r@),
{
    random_alphanumeric_string(128)
}

/// Derives the S256 code challenge of a verifier. The result is determined
/// by the verifier alone, is 43 characters long, and consists of base64url
/// characters only: it never contains `=` padding nor `+` or `/`.
pub fn generate_code_challenge(code_verifier: &str) -> (r: String)
    ensures
        r@ == challenge_of(code_verifier@),
        r@.len() == 43,
        forall|i: int| 0 <= i < r@.len() ==> is_base64url_char(#[trigger] r@[i]),
{
    let digest = sha256(code_verifier.as_bytes());
    base64url_encode(digest.as_slice())
}

/// The verifier/challenge pair of one federated login attempt. A session is
/// created once per attempt and its verifier is consumed by at most one
/// token exchange.
pub struct OAuthSession {
    pub code_verifier: String,
    pub code_challenge: String,
}

impl OAuthSession {
    /// The challenge belongs to the verifier and the verifier is one this
    /// library generates.
    pub open spec fn wf(&self) -> bool {
        is_valid_verifier(self.code_verifier@) && self.code_challenge@ == challenge_of(
            self.code_verifier@,
        ) && self.code_challenge@.len() == 43 && forall|i: int|
            0 <= i < self.code_challenge@.len() ==> is_base64url_char(
                #[trigger] self.code_challenge@[i],
            )
    }
}

/// Creates the verifier/challenge pair for one federated login attempt.
pub fn create_session() -> (r: OAuthSession)
    ensures
        r.wf(),
{
    let code_verifier = generate_code_verifier();
    let code_challenge = generate_code_challenge(code_verifier.as_str());
    OAuthSession { code_verifier, code_challenge }
}

} // verus!
