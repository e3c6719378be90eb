//! HMAC-SHA256 signatures of canonical parameter strings, hex-encoded.

use hmac::Mac;
use vstd::prelude::*;
use vstd::string::StringSliceAdditionalSpecFns;
use vstd::utf8::encode_utf8;

verus! {

/// The HMAC-SHA256 tag of `msg` under `key`.
pub uninterp spec fn hmac_sha256_of(key: Seq<u8>, msg: Seq<u8>) -> Seq<u8>;

/// The lowercase hexadecimal digit for a value below sixteen.
pub open spec fn hex_digit(n: u8) -> char {
    if n < 10 {
        (('0' as u8) + n) as char
    } else {
        (('a' as u8) + (n - 10)) as char
    }
}

/// Lowercase hex, two digits per byte, high nibble first, no separators.
pub open spec fn hex_of(b: Seq<u8>) -> Seq<char>
    decreases b.len(),
{
    if b.len() == 0 {
        Seq::empty()
    } else {
        hex_of(b.drop_last()) + seq![hex_digit(b.last() / 16), hex_digit(b.last() % 16)]
    }
}

/// Whether a character is a lowercase hexadecimal digit.
pub open spec fn is_lower_hex_char(c: char) -> bool {
    ('0' <= c && c <= '9') || ('a' <= c && c <= 'f')
}

/// The signature of a canonical parameter string under a secret key.
pub open spec fn signature_of(params: Seq<char>, secret_key: Seq<char>) -> Seq<char> {
    hex_of(hmac_sha256_of(encode_utf8(secret_key), encode_utf8(params)))
}

/// Relies on hmac's `Hmac<Sha256>`: `new_from_slice` returns `Ok` for a key of
/// any length (so the `unwrap` cannot fail), `update` feeds the message, and
/// `finalize` gives the tag, as long as a SHA-256 digest: 32 bytes.
#[verifier::external_body]
fn hmac_sha256(key: &[u8], msg: &[u8]) -> (r: Vec<u8>)
    ensures
        r@ == hmac_sha256_of(key@, msg@),
        r@.len() == 32,
{
    let mut mac = <hmac::Hmac<sha2::Sha256> as Mac>::new_from_slice(key).unwrap();
    mac.update(msg);
    mac.finalize().into_bytes().to_vec()
}

/// Relies on hex::encode: two lowercase digits per byte, high nibble first.
#[verifier::external_body]
fn to_hex(b: &[u8]) -> (r: String)
    ensures
        r@ == hex_of(b@),
{
    hex::encode(b)
}

/// Signs `params` with `secret_key`: the lowercase hex of the HMAC-SHA256
/// tag of the parameter string's UTF-8 bytes, keyed by the secret's bytes.
pub fn signature(params: &str, secret_key: &str) -> (r: String)
    ensures
        r@ == signature_of(params@, secret_key@),
        r@.len() == 64,
        forall|i: int| 0 <= i < r@.len() ==> is_lower_hex_char(#[trigger] r@[i]),
{
    let tag = hmac_sha256(secret_key.as_bytes(), params.as_bytes());
    let r = to_hex(tag.as_slice());
    proof {
        lemma_hex_shape(tag@);
    }
    r
}

/// Hex encoding doubles the length and uses lowercase digits only.
pub proof fn lemma_hex_shape(b: Seq<u8>)
    ensures
        hex_of(b).len() == 2 * b.len(),
        forall|i: int| 0 <= i < hex_of(b).len() ==> is_lower_hex_char(#[trigger] hex_of(b)[i]),
    decreases b.len(),
{
    if b.len() > 0 {
        lemma_hex_shape(b.drop_last());
        let h = b.last();
        assert(is_lower_hex_char(hex_digit(h / 16)));
        assert(is_lower_hex_char(hex_digit(h % 16)));
    }
}

/// Signing is deterministic: equal messages under equal keys give equal
/// signatures, whatever call computed them.
pub proof fn lemma_signature_deterministic(
    params1: Seq<char>,
    secret_key1: Seq<char>,
    params2: Seq<char>,
    secret_key2: Seq<char>,
)
    requires
        params1 == params2,
        secret_key1 == secret_key2,
    ensures
        signature_of(params1, secret_key1) == signature_of(params2, secret_key2),
{
}

} // verus!
