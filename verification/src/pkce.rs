//! The random secrets of an attempt and the PKCE challenge derived from them.

use vstd::prelude::*;
use rand::Rng;
use sha2::Digest;
use base64::Engine;
use crate::text::{all_alphanumeric, all_unreserved, is_unreserved};

verus! {

/// Whether `b` is an ASCII letter or digit.
pub open spec fn is_alphanumeric_byte(b: u8) -> bool {
    (0x30 <= b <= 0x39) || (0x41 <= b <= 0x5a) || (0x61 <= b <= 0x7a)
}

/// `rand::rngs::ThreadRng`, the handle to a thread's generator; nothing of
/// its inside is known here.
#[verifier::external_type_specification]
#[verifier::external_body]
pub struct ExThreadRng(rand::rngs::ThreadRng);

/// `rand::thread_rng`: a handle to the calling thread's generator, which
/// the operating system's entropy source seeds on first use. Nothing is
/// claimed of the handle.
pub assume_specification[ rand::thread_rng ]() -> (rng: rand::rngs::ThreadRng);

/// `Rng::sample` with `rand::distributions::Alphanumeric`: one byte drawn
/// from the ASCII letters and digits. Which one is up to the generator.
#[verifier::external_body]
fn sample_alphanumeric(rng: &mut rand::rngs::ThreadRng) -> (b: u8)
    ensures
        is_alphanumeric_byte(b),
{
    rng.sample(rand::distributions::Alphanumeric)
}

/// `String::push`: appends one character.
pub assume_specification[ String::push ](s: &mut String, ch: char)
    ensures
        final(s)@ == old(s)@.push(ch),
;

/// A fresh string of `len` random ASCII letters and digits.
pub fn random_token(len: usize) -> (token: String)
    ensures
        token@.len() == len,
        all_alphanumeric(token@),
{
    let mut rng = rand::thread_rng();
    let mut token = String::new();
    let mut n: usize = 0;
    while n < len
        invariant
            n <= len,
            token@.len() == n,
            all_alphanumeric(token@),
        decreases len - n,
    {
        let b = sample_alphanumeric(&mut rng);
        token.push(b as char);
        n = n + 1;
    }
    token
}

/// The digest that SHA-256 assigns to `data`.
pub uninterp spec fn sha256_digest(data: Seq<u8>) -> Seq<u8>;

/// `Sha256::digest` of the `sha2` crate: the SHA-256 digest of `data`, which
/// is 32 bytes long and depends on `data` alone.
#[verifier::external_body]
fn sha256(data: &[u8]) -> (digest: Vec<u8>)
    ensures
        digest@ == sha256_digest(data@),
        digest@.len() == 32,
{
    sha2::Sha256::digest(data).to_vec()
}

/// The URL-safe base64 alphabet: the symbol that stands for the value `v`
/// is the character at index `v`.
pub const BASE64URL_ALPHABET: &'static str =
    "ABCDEFGHIJKLMNOPQRSTUVWXYZabcdefghijklmnopqrstuvwxyz0123456789-_";

/// Bit `i` of `data` read as one bit string, the most significant bit of
/// each byte first; zero past the end.
pub open spec fn message_bit(data: Seq<u8>, i: int) -> int {
    if 0 <= i < 8 * data.len() {
        ((data[i / 8] >> ((7 - i % 8) as u8)) & 1) as int
    } else {
        0
    }
}

/// The value of the six bits of `data` that start at bit `6 * k`.
pub open spec fn sextet(data: Seq<u8>, k: int) -> int {
    32 * message_bit(data, 6 * k) + 16 * message_bit(data, 6 * k + 1)
        + 8 * message_bit(data, 6 * k + 2) + 4 * message_bit(data, 6 * k + 3)
        + 2 * message_bit(data, 6 * k + 4) + message_bit(data, 6 * k + 5)
}

/// The URL-safe base64 encoding of `data` without padding: one symbol for
/// every six bits begun.
pub open spec fn base64url_nopad(data: Seq<u8>) -> Seq<char> {
    Seq::new(((4 * data.len() + 2) / 3) as nat, |k: int| BASE64URL_ALPHABET@[sextet(data, k)])
}

/// A bit is zero or one.
proof fn lemma_message_bit_is_a_bit(data: Seq<u8>, i: int)
    ensures
        0 <= message_bit(data, i) <= 1,
{
    if 0 <= i < 8 * data.len() {
        let byte = data[i / 8];
        let shift = (7 - i % 8) as u8;
        assert((byte >> shift) & 1 <= 1) by (bit_vector);
    }
}

/// Each of the 64 symbols of the alphabet may stand unescaped in a URL.
proof fn lemma_alphabet_is_unreserved(v: int)
    requires
        0 <= v < 64,
    ensures
        is_unreserved(BASE64URL_ALPHABET@[v]),
{
    reveal_strlit("ABCDEFGHIJKLMNOPQRSTUVWXYZabcdefghijklmnopqrstuvwxyz0123456789-_");
}

/// Every symbol of an encoding is a letter, a digit, `-` or `_`, so that
/// an encoding may stand unescaped anywhere in a URL.
pub proof fn lemma_base64url_is_unreserved(data: Seq<u8>)
    ensures
        all_unreserved(base64url_nopad(data)),
{
    reveal_strlit("ABCDEFGHIJKLMNOPQRSTUVWXYZabcdefghijklmnopqrstuvwxyz0123456789-_");
    let encoded = base64url_nopad(data);
    assert forall|k: int| 0 <= k < encoded.len() implies is_unreserved(#[trigger] encoded[k]) by {
        lemma_message_bit_is_a_bit(data, 6 * k);
        lemma_message_bit_is_a_bit(data, 6 * k + 1);
        lemma_message_bit_is_a_bit(data, 6 * k + 2);
        lemma_message_bit_is_a_bit(data, 6 * k + 3);
        lemma_message_bit_is_a_bit(data, 6 * k + 4);
        lemma_message_bit_is_a_bit(data, 6 * k + 5);
        let v = sextet(data, k);
        assert(0 <= v < 64);
        lemma_alphabet_is_unreserved(v);
    }
}

/// `Engine::encode` on `URL_SAFE_NO_PAD` of the `base64` crate: the
/// encoding of `input` in the URL-safe alphabet, without padding. The
/// crate panics on an input whose encoding would not fit a `usize`; such
/// inputs are left out.
#[verifier::external_body]
pub(crate) fn base64url_encode(input: &[u8]) -> (encoded: String)
    requires
        4 * input@.len() + 2 <= usize::MAX,
    ensures
        encoded@ == base64url_nopad(input@),
{
    base64::engine::general_purpose::URL_SAFE_NO_PAD.encode(input)
}

/// The PKCE challenge that the method S256 derives from `verifier`.
pub open spec fn code_challenge_of(verifier: Seq<char>) -> Seq<char> {
    base64url_nopad(sha256_digest(vstd::utf8::encode_utf8(verifier)))
}

/// Derives the S256 challenge that is sent to the provider in place of
/// `verifier`.
pub fn code_challenge(verifier: &str) -> (challenge: String)
    ensures
        challenge@ == code_challenge_of(verifier@),
        challenge@.len() == 43,
        all_unreserved(challenge@),
{
    let digest = sha256(verifier.as_bytes());
    proof {
        lemma_base64url_is_unreserved(digest@);
    }
    base64url_encode(digest.as_slice())
}

} // verus!
