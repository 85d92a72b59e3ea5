//! HMAC-SHA256 signatures over raw request bodies, in the `sha256=<hex>`
//! form that a webhook sender puts in its signature header.

use vstd::prelude::*;
use vstd::utf8::encode_utf8_decode_utf8;
use hmac::{Hmac, Mac};
use sha2::Sha256;

verus! {

#[verifier::external_type_specification]
#[verifier::external_body]
pub struct ExInvalidLength(hmac::digest::InvalidLength);

/// The HMAC-SHA256 tag of a message under a key.
pub uninterp spec fn hmac_sha256_of(key: Seq<u8>, msg: Seq<u8>) -> Seq<u8>;

/// Relies on `hmac::Hmac<sha2::Sha256>`: `new_from_slice`, `update` and
/// `finalize` give the HMAC-SHA256 tag of `msg` under `key`.
/// `new_from_slice` of `Hmac` accepts a key of any length (an empty one too):
/// a longer key is hashed, a shorter one padded.
#[verifier::external_body]
fn hmac_sha256(key: &[u8], msg: &[u8]) -> (r: Result<Vec<u8>, hmac::digest::InvalidLength>)
    ensures
        r is Ok,
        r matches Ok(tag) ==> tag@ == hmac_sha256_of(key@, msg@),
{
    let mut mac = <Hmac<Sha256> as Mac>::new_from_slice(key)?;
    mac.update(msg);
    Ok(mac.finalize().into_bytes().to_vec())
}

/// The lowercase hexadecimal digit for a nibble.
pub open spec fn hex_digit(n: int) -> char {
    if n < 10 {
        ((48 + n) as u32) as char
    } else {
        ((87 + n) as u32) as char
    }
}

/// The nibble that hex digit `i` of the text of `bytes` stands for:
/// the high nibble of a byte first, then its low nibble.
pub open spec fn nibble_at(bytes: Seq<u8>, i: int) -> int {
    if i % 2 == 0 {
        bytes[i / 2] as int / 16
    } else {
        bytes[i / 2] as int % 16
    }
}

/// Lowercase hexadecimal text of a byte string: two digits per byte.
pub open spec fn hex_text(bytes: Seq<u8>) -> Seq<char> {
    Seq::new(2 * bytes.len(), |i: int| hex_digit(nibble_at(bytes, i)))
}

/// Relies on `hex::encode`: two lowercase hex digits per byte, high nibble first.
#[verifier::external_body]
fn hex_encode(bytes: &[u8]) -> (r: String)
    ensures
        r@ == hex_text(bytes@),
{
    hex::encode(bytes)
}

/// The scheme tag in front of the hex digest.
pub open spec fn scheme_tag() -> Seq<char> {
    seq!['s', 'h', 'a', '2', '5', '6', '=']
}

/// The header text that carries a tag: `sha256=` and the tag in lowercase hex.
pub open spec fn signature_text(tag: Seq<u8>) -> Seq<char> {
    scheme_tag() + hex_text(tag)
}

/// The header text that a sender holding `key` puts on `body`.
pub open spec fn signature_of(key: Seq<u8>, body: Seq<u8>) -> Seq<char> {
    signature_text(hmac_sha256_of(key, body))
}

/// Whether a header text authenticates `body` under `key`.
pub open spec fn signature_accepts(key: Seq<u8>, body: Seq<u8>, header: Seq<char>) -> bool {
    header == signature_of(key, body)
}

/// The message authentication code could not be set up with the key.
#[derive(Debug, Clone, Copy, PartialEq, Eq)]
pub struct MacSetupError;

/// The header text for a tag.
pub fn signature_header(tag: &[u8]) -> (r: String)
    ensures
        r@ == signature_text(tag@),
{
    let prefix = String::from_str("sha256=");
    proof {
        reveal_strlit("sha256=");
    }
    let hex = hex_encode(tag);
    let r = prefix.concat(hex.as_str());
    assert(r@ =~= signature_text(tag@));
    r
}

/// Computes the signature header for `body` under the shared secret `secret`.
/// An empty secret is accepted, though it makes the signature worthless.
pub fn compute_signature(secret: &[u8], body: &[u8]) -> (r: Result<String, MacSetupError>)
    ensures
        r matches Ok(s) && s@ == signature_of(secret@, body@),
{
    match hmac_sha256(secret, body) {
        Ok(tag) => Ok(signature_header(&tag)),
        Err(_) => Err(MacSetupError),
    }
}

/// Compares two byte strings in time that depends on their lengths only,
/// not on where they first differ.
pub fn constant_time_eq(a: &[u8], b: &[u8]) -> (r: bool)
    ensures
        r == (a@ == b@),
{
    if a.len() != b.len() {
        return false;
    }
    let mut diff: u8 = 0;
    let mut i: usize = 0;
    while i < a.len()
        invariant
            a@.len() == b@.len(),
            0 <= i <= a@.len(),
            (diff == 0) == (forall|j: int| 0 <= j < i ==> a@[j] == b@[j]),
        decreases a@.len() - i,
    {
        let x = a[i];
        let y = b[i];
        let d = x ^ y;
        assert((d == 0) == (x == y)) by (bit_vector)
            requires
                d == x ^ y,
        ;
        let next = diff | d;
        assert((next == 0) == (diff == 0 && d == 0)) by (bit_vector)
            requires
                next == diff | d,
        ;
        diff = next;
        i = i + 1;
    }
    let r = diff == 0;
    assert(r == (a@ == b@)) by {
        if r {
            assert(a@ =~= b@);
        }
    }
    r
}

/// Whether the header text `header` carries exactly the tag `tag`,
/// compared in constant time.
pub fn signature_matches(header: &str, tag: &[u8]) -> (r: bool)
    ensures
        r == (header@ == signature_text(tag@)),
{
    let expected = signature_header(tag);
    let r = constant_time_eq(header.as_bytes(), expected.as_str().as_bytes());
    proof {
        encode_utf8_decode_utf8(header@);
        encode_utf8_decode_utf8(expected@);
    }
    r
}

/// Checks the signature header `header` of `body` against the shared secret.
/// `Ok(true)` exactly when the header is `sha256=` followed by the lowercase hex
/// HMAC-SHA256 tag of the body under the secret.
pub fn verify_signature(secret: &[u8], body: &[u8], header: &str) -> (r: Result<bool, MacSetupError>)
    ensures
        r matches Ok(ok) && ok == signature_accepts(secret@, body@, header@),
{
    match hmac_sha256(secret, body) {
        Ok(tag) => Ok(signature_matches(header, &tag)),
        Err(_) => Err(MacSetupError),
    }
}

/// Distinct nibbles have distinct digits.
proof fn lemma_hex_digit_injective(a: int, b: int)
    requires
        0 <= a < 16,
        0 <= b < 16,
        hex_digit(a) == hex_digit(b),
    ensures
        a == b,
{
}

/// Hex text is one-to-one: two byte strings with the same text are equal.
pub proof fn lemma_hex_text_injective(a: Seq<u8>, b: Seq<u8>)
    requires
        hex_text(a) == hex_text(b),
    ensures
        a == b,
{
    assert(a.len() == b.len()) by {
        assert(hex_text(a).len() == 2 * a.len());
        assert(hex_text(b).len() == 2 * b.len());
    }
    assert forall|k: int| 0 <= k < a.len() implies a[k] == b[k] by {
        assert(hex_text(a)[2 * k] == hex_text(b)[2 * k]);
        assert(hex_text(a)[2 * k + 1] == hex_text(b)[2 * k + 1]);
        assert(hex_text(a)[2 * k] == hex_digit(nibble_at(a, 2 * k)));
        assert(hex_text(b)[2 * k] == hex_digit(nibble_at(b, 2 * k)));
        assert(hex_text(a)[2 * k + 1] == hex_digit(nibble_at(a, 2 * k + 1)));
        assert(hex_text(b)[2 * k + 1] == hex_digit(nibble_at(b, 2 * k + 1)));
        assert((2 * k) / 2 == k && (2 * k) % 2 == 0);
        assert((2 * k + 1) / 2 == k && (2 * k + 1) % 2 == 1);
        let x = a[k] as int;
        let y = b[k] as int;
        assert(nibble_at(a, 2 * k) == x / 16 && nibble_at(b, 2 * k) == y / 16);
        assert(nibble_at(a, 2 * k + 1) == x % 16 && nibble_at(b, 2 * k + 1) == y % 16);
        assert(hex_digit(x / 16) == hex_digit(y / 16));
        assert(hex_digit(x % 16) == hex_digit(y % 16));
        lemma_hex_digit_injective(x / 16, y / 16);
        lemma_hex_digit_injective(x % 16, y % 16);
        assert(x == 16 * (x / 16) + x % 16);
        assert(y == 16 * (y / 16) + y % 16);
    }
    assert(a =~= b);
}

/// A signature computed from a body under a secret is accepted for that body
/// under that secret. For any other body it is accepted exactly when the two
/// bodies have the same HMAC-SHA256 tag under the secret: the header carries
/// the whole tag, and nothing else.
pub proof fn lemma_signature_round_trip(key: Seq<u8>, body: Seq<u8>, other: Seq<u8>)
    ensures
        signature_accepts(key, body, signature_of(key, body)),
        signature_accepts(key, other, signature_of(key, body)) <==> hmac_sha256_of(key, other)
            == hmac_sha256_of(key, body),
{
    let t1 = hmac_sha256_of(key, body);
    let t2 = hmac_sha256_of(key, other);
    if signature_text(t2) == signature_text(t1) {
        assert(hex_text(t2) =~= signature_text(t2).subrange(7, signature_text(t2).len() as int));
        assert(hex_text(t1) =~= signature_text(t1).subrange(7, signature_text(t1).len() as int));
        lemma_hex_text_injective(t2, t1);
    }
}

} // verus!
