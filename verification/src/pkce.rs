//! PKCE code verifiers and challenges, and the random `state` of an authorization request.
use vstd::prelude::*;
use crate::text::push_char;
use vstd::string::StringSliceAdditionalSpecFns;

use base64::Engine as _;
use rand::Rng as _;
use sha2::Digest as _;

verus! {

/// An ASCII letter or digit, the characters that `rand`'s `Alphanumeric` draws from.
pub open spec fn is_ascii_alnum(c: char) -> bool {
    ('A' <= c && c <= 'Z') || ('a' <= c && c <= 'z') || ('0' <= c && c <= '9')
}

/// A character of the URL-safe base64 alphabet: `A`-`Z`, `a`-`z`, `0`-`9`, `-` and `_`.
pub open spec fn is_base64_url_char(c: char) -> bool {
    is_ascii_alnum(c) || c == '-' || c == '_'
}

/// The SHA-256 digest of `data`, as `sha2::Sha256` computes it.
pub uninterp spec fn sha256_spec(data: Seq<u8>) -> Seq<u8>;

/// The unpadded URL-safe base64 text of `data`, as `base64`'s `URL_SAFE_NO_PAD` engine encodes it.
pub uninterp spec fn base64_url_no_pad_spec(data: Seq<u8>) -> Seq<char>;

/// The padded standard base64 text of `data`, as `base64`'s `STANDARD` engine encodes it.
pub uninterp spec fn base64_standard_spec(data: Seq<u8>) -> Seq<char>;

/// The length of unpadded base64 text for `n` bytes: four characters for each whole three
/// bytes, and two or three more for a remainder of one or two.
pub open spec fn base64_no_pad_len(n: nat) -> nat {
    4 * (n / 3) + (if n % 3 == 1 { 2nat } else if n % 3 == 2 { 3nat } else { 0nat })
}

/// Draws one character with `rand`'s `Alphanumeric` distribution from the thread-local
/// generator. `Alphanumeric` picks from `A`-`Z`, `a`-`z` and `0`-`9`; which one is chance.
#[verifier::external_body]
fn random_alphanumeric() -> (c: char)
    ensures
        is_ascii_alnum(c),
{
    char::from(rand::thread_rng().sample(rand::distributions::Alphanumeric))
}

/// Hashes `data` with `sha2::Sha256` (`new`, `update`, `finalize`); the digest is 32 bytes.
#[verifier::external_body]
fn sha256(data: &[u8]) -> (r: Vec<u8>)
    ensures
        r@ == sha256_spec(data@),
        r@.len() == 32,
{
    let mut hasher = sha2::Sha256::new();
    hasher.update(data);
    hasher.finalize().to_vec()
}

/// Encodes `data` with `base64`'s `URL_SAFE_NO_PAD` engine. `Engine::encode` panics when the
/// encoded length overflows `usize`, which the bound on `data` rules out; the length follows
/// `base64::encoded_len` without padding, and every character is from the URL-safe alphabet
/// (`alphabet::URL_SAFE`), since no padding is written.
#[verifier::external_body]
pub(crate) fn encode_base64_url_no_pad(data: &[u8]) -> (r: String)
    requires
        data@.len() <= usize::MAX / 2,
    ensures
        r@ == base64_url_no_pad_spec(data@),
        r@.len() == base64_no_pad_len(data@.len()),
        forall|i: int| 0 <= i < r@.len() ==> is_base64_url_char(#[trigger] r@[i]),
{
    base64::engine::general_purpose::URL_SAFE_NO_PAD.encode(data)
}

/// Encodes `data` with `base64`'s `STANDARD` engine (padded). `Engine::encode` panics when the
/// encoded length overflows `usize`, which the bound on `data` rules out.
#[verifier::external_body]
pub(crate) fn encode_base64_standard(data: &[u8]) -> (r: String)
    requires
        data@.len() <= usize::MAX / 2,
    ensures
        r@ == base64_standard_spec(data@),
{
    base64::engine::general_purpose::STANDARD.encode(data)
}

/// `n` random ASCII letters and digits.
pub fn random_alphanumeric_string(n: usize) -> (s: String)
    ensures
        s@.len() == n,
        forall|i: int| 0 <= i < n ==> is_ascii_alnum(#[trigger] s@[i]),
{
    let mut s = String::new();
    let mut i: usize = 0;
    while i < n
        invariant
            i <= n,
            s@.len() == i,
            forall|k: int| 0 <= k < i ==> is_ascii_alnum(#[trigger] s@[k]),
        decreases n - i,
    {
        let c = random_alphanumeric();
        push_char(&mut s, c);
        i = i + 1;
    }
    s
}

/// A fresh PKCE code verifier: 128 random ASCII letters and digits.
pub fn generate_code_verifier() -> (s: String)
    ensures
        s@.len() == 128,
        forall|i: int| 0 <= i < 128 ==> is_ascii_alnum(#[trigger] s@[i]),
{
    random_alphanumeric_string(128)
}

/// A fresh `state` for an authorization request: 16 random ASCII letters and digits.
pub fn generate_state() -> (s: String)
    ensures
        s@.len() == 16,
        forall|i: int| 0 <= i < 16 ==> is_ascii_alnum(#[trigger] s@[i]),
{
    random_alphanumeric_string(16)
}

/// The S256 code challenge of a verifier: the unpadded URL-safe base64 text of the SHA-256
/// digest of its UTF-8 bytes: 43 characters of the URL-safe base64 alphabet.
pub fn generate_code_challenge(verifier: &str) -> (s: String)
    ensures
        s@ == base64_url_no_pad_spec(sha256_spec(verifier.spec_bytes())),
        s@.len() == 43,
        forall|i: int| 0 <= i < 43 ==> is_base64_url_char(#[trigger] s@[i]),
{
    let digest = sha256(verifier.as_bytes());
    encode_base64_url_no_pad(digest.as_slice())
}

} // verus!
