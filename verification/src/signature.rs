//! Keyed-hash signatures over raw request bodies.

use hmac::{Hmac, Mac};
use md5::Md5;
use sha2::Sha256;
use vstd::prelude::*;
use vstd::string::*;
use vstd::utf8::encode_utf8;
use crate::text::lemma_bytes_determine_text;

verus! {

/// The digest under the keyed hash. A deployment signs with exactly one.
#[derive(Clone, Copy, Debug, PartialEq, Eq, Structural)]
pub enum DigestAlgorithm {
    /// HMAC over SHA-256: 32 bytes, 64 hex characters.
    Sha256,
    /// HMAC over MD5: 16 bytes, 32 hex characters.
    Md5,
}

/// The HMAC-SHA-256 tag of `message` under `key`.
pub uninterp spec fn hmac_sha256(key: Seq<u8>, message: Seq<u8>) -> Seq<u8>;

/// The HMAC-MD5 tag of `message` under `key`.
pub uninterp spec fn hmac_md5(key: Seq<u8>, message: Seq<u8>) -> Seq<u8>;

/// `Hmac::<Sha256>`: `new_from_slice`, `update`, `finalize`, `into_bytes`.
/// The tag depends on key and message alone and is as long as the digest's
/// output, 32 bytes. `new_from_slice` of an HMAC takes a key of any length.
#[verifier::external_body]
fn sha256_tag(key: &[u8], message: &[u8]) -> (tag: Vec<u8>)
    ensures
        tag@ == hmac_sha256(key@, message@),
        tag@.len() == 32,
{
    let mut mac = Hmac::<Sha256>::new_from_slice(key).expect("HMAC takes a key of any length");
    mac.update(message);
    mac.finalize().into_bytes().to_vec()
}

/// `Hmac::<Md5>`: `new_from_slice`, `update`, `finalize`, `into_bytes`.
/// The tag depends on key and message alone and is as long as the digest's
/// output, 16 bytes. `new_from_slice` of an HMAC takes a key of any length.
#[verifier::external_body]
fn md5_tag(key: &[u8], message: &[u8]) -> (tag: Vec<u8>)
    ensures
        tag@ == hmac_md5(key@, message@),
        tag@.len() == 16,
{
    let mut mac = Hmac::<Md5>::new_from_slice(key).expect("HMAC takes a key of any length");
    mac.update(message);
    mac.finalize().into_bytes().to_vec()
}

/// The lower-case hex digit for a value below sixteen.
pub open spec fn hex_digit(n: u8) -> char {
    if n < 10 {
        ((n + 48) as u8) as char
    } else {
        ((n + 87) as u8) as char
    }
}

/// Two lower-case hex digits for each byte, the high half first.
pub open spec fn hex_lower(bytes: Seq<u8>) -> Seq<char> {
    Seq::new(
        2 * bytes.len(),
        |i: int|
            if i % 2 == 0 {
                hex_digit(bytes[i / 2] >> 4)
            } else {
                hex_digit(bytes[i / 2] & 15)
            },
    )
}

/// `hex::encode`: each byte becomes the two characters that
/// `"0123456789abcdef"` holds at its high and its low half.
#[verifier::external_body]
fn hex_text(bytes: &[u8]) -> (text: String)
    ensures
        text@ == hex_lower(bytes@),
{
    hex::encode(bytes)
}

/// Whether `c` is one of `0`-`9`, `a`-`f`.
pub open spec fn is_lower_hex(c: char) -> bool {
    ('0' <= c && c <= '9') || ('a' <= c && c <= 'f')
}

impl DigestAlgorithm {
    /// The length of a tag in bytes.
    pub open spec fn tag_len(self) -> nat {
        match self {
            DigestAlgorithm::Sha256 => 32,
            DigestAlgorithm::Md5 => 16,
        }
    }

    /// The tag of `message` under `key`.
    pub open spec fn tag(self, key: Seq<u8>, message: Seq<u8>) -> Seq<u8> {
        match self {
            DigestAlgorithm::Sha256 => hmac_sha256(key, message),
            DigestAlgorithm::Md5 => hmac_md5(key, message),
        }
    }

    /// Computes the tag of `message` under `key`.
    pub fn mac(self, key: &[u8], message: &[u8]) -> (tag: Vec<u8>)
        ensures
            tag@ == self.tag(key@, message@),
            tag@.len() == self.tag_len(),
    {
        match self {
            DigestAlgorithm::Sha256 => sha256_tag(key, message),
            DigestAlgorithm::Md5 => md5_tag(key, message),
        }
    }
}

/// The signature of `body` under `secret`: the tag, in lower-case hex.
pub open spec fn signature_of(algorithm: DigestAlgorithm, secret: Seq<char>, body: Seq<u8>) -> Seq<
    char,
> {
    hex_lower(algorithm.tag(encode_utf8(secret), body))
}

/// Hex text is twice as long as the bytes and made of lower-case hex digits.
pub proof fn lemma_hex_shape(bytes: Seq<u8>)
    ensures
        hex_lower(bytes).len() == 2 * bytes.len(),
        forall|i: int| 0 <= i < 2 * bytes.len() ==> is_lower_hex(#[trigger] hex_lower(bytes)[i]),
{
    assert forall|i: int| 0 <= i < 2 * bytes.len() implies is_lower_hex(
        #[trigger] hex_lower(bytes)[i],
    ) by {
        let b = bytes[i / 2];
        assert((b >> 4) < 16 && (b & 15) < 16) by (bit_vector);
        lemma_hex_digit_shape(b >> 4);
        lemma_hex_digit_shape(b & 15);
    }
}

/// A hex digit is a lower-case hex character.
pub proof fn lemma_hex_digit_shape(n: u8)
    requires
        n < 16,
    ensures
        is_lower_hex(hex_digit(n)),
{
}

/// Different values below sixteen have different hex digits.
pub proof fn lemma_hex_digit_injective(m: u8, n: u8)
    requires
        m < 16,
        n < 16,
        hex_digit(m) == hex_digit(n),
    ensures
        m == n,
{
    if m < 10 {
        assert(hex_digit(m) as u8 == m + 48);
    } else {
        assert(hex_digit(m) as u8 == m + 87);
    }
    if n < 10 {
        assert(hex_digit(n) as u8 == n + 48);
    } else {
        assert(hex_digit(n) as u8 == n + 87);
    }
}

/// Different byte strings have different hex texts.
pub proof fn lemma_hex_injective(a: Seq<u8>, b: Seq<u8>)
    requires
        hex_lower(a) == hex_lower(b),
    ensures
        a == b,
{
    assert(hex_lower(a).len() == 2 * a.len());
    assert(hex_lower(b).len() == 2 * b.len());
    assert(a.len() == b.len());
    assert forall|k: int| 0 <= k < a.len() implies a[k] == b[k] by {
        let x = a[k];
        let y = b[k];
        assert(hex_lower(a)[2 * k] == hex_digit(x >> 4));
        assert(hex_lower(b)[2 * k] == hex_digit(y >> 4));
        assert(hex_lower(a)[2 * k + 1] == hex_digit(x & 15));
        assert(hex_lower(b)[2 * k + 1] == hex_digit(y & 15));
        assert((x >> 4) < 16 && (x & 15) < 16) by (bit_vector);
        assert((y >> 4) < 16 && (y & 15) < 16) by (bit_vector);
        lemma_hex_digit_injective(x >> 4, y >> 4);
        lemma_hex_digit_injective(x & 15, y & 15);
        assert((x >> 4) == (y >> 4) && (x & 15) == (y & 15) ==> x == y) by (bit_vector);
    }
    assert(a =~= b);
}

/// Compares two byte strings in time that depends on their lengths alone:
/// unequal lengths are told apart at once, and equal lengths are compared by
/// folding every pair of bytes into one accumulator that is tested at the end.
pub fn constant_time_eq(a: &[u8], b: &[u8]) -> (r: bool)
    ensures
        r == (a@ == b@),
        a@.len() != b@.len() ==> !r,
{
    if a.len() != b.len() {
        return false;
    }
    let mut acc: u8 = 0;
    let mut i: usize = 0;
    while i < a.len()
        invariant
            a@.len() == b@.len(),
            i <= a@.len(),
            acc == 0 <==> (forall|k: int| 0 <= k < i ==> a@[k] == b@[k]),
        decreases a@.len() - i,
    {
        let x: u8 = a[i];
        let y: u8 = b[i];
        let ghost before: u8 = acc;
        acc = acc | (x ^ y);
        proof {
            assert((before | (x ^ y)) == 0 <==> (before == 0 && x == y)) by (bit_vector);
        }
        i += 1;
    }
    proof {
        if acc == 0 {
            assert(a@ =~= b@);
        }
    }
    acc == 0
}

/// Computes the signature of `body` under `secret` with the given digest.
pub fn compute_signature_with(algorithm: DigestAlgorithm, secret: &str, body: &[u8]) -> (r: String)
    ensures
        r@ == signature_of(algorithm, secret@, body@),
        r@.len() == 2 * algorithm.tag_len(),
        forall|i: int| 0 <= i < r@.len() ==> is_lower_hex(#[trigger] r@[i]),
{
    let tag = algorithm.mac(secret.as_bytes(), body);
    proof {
        lemma_hex_shape(tag@);
    }
    hex_text(tag.as_slice())
}

/// Computes the HMAC-SHA-256 signature of `body` under `secret`: 64
/// lower-case hex characters that depend on `secret` and `body` alone.
pub fn compute_signature(secret: &str, body: &[u8]) -> (r: String)
    ensures
        r@ == signature_of(DigestAlgorithm::Sha256, secret@, body@),
        r@.len() == 64,
        forall|i: int| 0 <= i < 64 ==> is_lower_hex(#[trigger] r@[i]),
{
    compute_signature_with(DigestAlgorithm::Sha256, secret, body)
}

/// Whether `signature` is the signature of `body` under `secret`.
pub open spec fn signature_matches(
    algorithm: DigestAlgorithm,
    secret: Seq<char>,
    body: Seq<u8>,
    signature: Seq<char>,
) -> bool {
    signature == signature_of(algorithm, secret, body)
}

/// Recomputes the signature of `body` and compares it with `signature` in
/// constant time.
pub fn verify_signature(algorithm: DigestAlgorithm, secret: &str, body: &[u8], signature: &str) -> (r:
    bool)
    ensures
        r == signature_matches(algorithm, secret@, body@, signature@),
        signature@.len() != 2 * algorithm.tag_len() ==> !r,
{
    let expected = compute_signature_with(algorithm, secret, body);
    let r = constant_time_eq(expected.as_str().as_bytes(), signature.as_bytes());
    proof {
        if r {
            lemma_bytes_determine_text(expected@, signature@);
        }
    }
    r
}

/// A signature is twice as long as its tag and made of lower-case hex
/// digits.
pub proof fn lemma_signature_shape(algorithm: DigestAlgorithm, secret: Seq<char>, body: Seq<u8>)
    ensures
        signature_of(algorithm, secret, body).len() == 2 * algorithm.tag(
            encode_utf8(secret),
            body,
        ).len(),
        forall|i: int|
            0 <= i < signature_of(algorithm, secret, body).len() ==> is_lower_hex(
                #[trigger] signature_of(algorithm, secret, body)[i],
            ),
{
    lemma_hex_shape(algorithm.tag(encode_utf8(secret), body));
}

/// The signature computed for a body is valid for that body under the same
/// secret.
pub proof fn lemma_own_signature_matches(algorithm: DigestAlgorithm, secret: Seq<char>, body: Seq<u8>)
    ensures
        signature_matches(algorithm, secret, body, signature_of(algorithm, secret, body)),
{
}

/// The signature computed for one body is valid for another body exactly
/// when both have the same tag. So it is rejected for every changed body
/// whose tag differs, which a keyed hash makes infeasible to avoid.
pub proof fn lemma_signature_binds_body(
    algorithm: DigestAlgorithm,
    secret: Seq<char>,
    body: Seq<u8>,
    changed: Seq<u8>,
)
    ensures
        signature_matches(algorithm, secret, changed, signature_of(algorithm, secret, body)) <==> (
        algorithm.tag(encode_utf8(secret), changed) == algorithm.tag(encode_utf8(secret), body)),
{
    if signature_of(algorithm, secret, body) == signature_of(algorithm, secret, changed) {
        lemma_hex_injective(
            algorithm.tag(encode_utf8(secret), body),
            algorithm.tag(encode_utf8(secret), changed),
        );
    }
}

} // verus!
