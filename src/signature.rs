use vstd::prelude::*;
use vstd::string::StrSliceExecFns;
use vstd::string::StringSliceAdditionalSpecFns;
use crate::error::ProxyError;
use hmac::Mac;

verus! {

/// The key-length error that HMAC construction reports.
#[verifier::external_type_specification]
#[verifier::external_body]
pub struct ExInvalidLength(hmac::digest::InvalidLength);

/// The HMAC-SHA256 tag of `msg` under `key`: 32 bytes, as SHA-256 fixes.
pub uninterp spec fn hmac_sha256_of(key: Seq<u8>, msg: Seq<u8>) -> [u8; 32];

/// Relies on hmac's `Hmac<Sha256>` (`new_from_slice`, `update`, `finalize`):
/// the tag depends on the key and the message alone, and HMAC accepts keys
/// of every length, so construction never fails.
#[verifier::external_body]
fn hmac_sha256(key: &[u8], msg: &[u8]) -> (r: Result<[u8; 32], hmac::digest::InvalidLength>)
    ensures
        r is Ok,
        r matches Ok(tag) ==> tag == hmac_sha256_of(key@, msg@),
{
    let mut mac = <hmac::Hmac<sha2::Sha256> as Mac>::new_from_slice(key)?;
    mac.update(msg);
    Ok(mac.finalize().into_bytes().into())
}

/// The lowercase hexadecimal digit for `n < 16`.
pub open spec fn hex_digit(n: u8) -> char {
    if n < 10 {
        ((48 + n) as u8) as char
    } else {
        ((87 + n) as u8) as char
    }
}

/// Two lowercase hexadecimal digits for each byte, high nibble first.
pub open spec fn hex_lower(b: Seq<u8>) -> Seq<char> {
    Seq::new(
        2 * b.len(),
        |i: int|
            if i % 2 == 0 {
                hex_digit(b[i / 2] / 16)
            } else {
                hex_digit(b[i / 2] % 16)
            },
    )
}

/// Relies on hex::encode: two lowercase digits for each byte, in order.
#[verifier::external_body]
fn to_hex(b: &[u8]) -> (r: String)
    ensures
        r@ == hex_lower(b@),
{
    hex::encode(b)
}

/// The scheme marker that every signature token starts with.
pub open spec fn signature_prefix() -> Seq<char> {
    seq!['s', 'h', 'a', '2', '5', '6', '=']
}

/// The token that signs `body` under `key`.
pub open spec fn signature_token(body: Seq<u8>, key: Seq<u8>) -> Seq<char> {
    signature_prefix() + hex_lower(hmac_sha256_of(key, body)@)
}

/// A token is valid when it is the prefix followed by the hex-encoded
/// HMAC-SHA256 tag of the body under the key.
pub open spec fn signature_valid(body: Seq<u8>, token: Seq<char>, key: Seq<u8>) -> bool {
    token.len() >= 7 && token.subrange(0, 7) == signature_prefix() && token.subrange(
        7,
        token.len() as int,
    ) == hex_lower(hmac_sha256_of(key, body)@)
}

/// Whether `s` starts with the signature prefix.
fn has_signature_prefix(s: &str) -> (r: bool)
    ensures
        r == (s@.len() >= 7 && s@.subrange(0, 7) == signature_prefix()),
{
    let n = s.unicode_len();
    if n < 7 {
        return false;
    }
    let r = s.get_char(0) == 's' && s.get_char(1) == 'h' && s.get_char(2) == 'a' && s.get_char(3)
        == '2' && s.get_char(4) == '5' && s.get_char(5) == '6' && s.get_char(6) == '=';
    assert(r ==> s@.subrange(0, 7) =~= signature_prefix());
    assert(s@.subrange(0, 7) == signature_prefix() ==> s@.subrange(0, 7)[6] == '=');
    r
}

proof fn lemma_or_xor_zero(acc: u32, x: u32, y: u32)
    ensures
        ((acc | (x ^ y)) == 0) == (acc == 0 && x == y),
{
    assert(((acc | (x ^ y)) == 0) == (acc == 0 && x == y)) by (bit_vector);
}

/// Compares two strings in time that depends on their lengths only, never on
/// where the first differing character stands.
pub fn constant_time_eq(a: &str, b: &str) -> (r: bool)
    ensures
        r == (a@ == b@),
{
    let n = a.unicode_len();
    if n != b.unicode_len() {
        return false;
    }
    let mut acc: u32 = 0;
    assert(a@.subrange(0, 0) =~= b@.subrange(0, 0));
    let mut i: usize = 0;
    while i < n
        invariant
            n == a@.len(),
            n == b@.len(),
            i <= n,
            (acc == 0) == (a@.subrange(0, i as int) == b@.subrange(0, i as int)),
        decreases n - i,
    {
        let x = a.get_char(i) as u32;
        let y = b.get_char(i) as u32;
        proof {
            lemma_or_xor_zero(acc, x, y);
            assert(a@.subrange(0, i + 1) =~= a@.subrange(0, i as int).push(a@[i as int]));
            assert(b@.subrange(0, i + 1) =~= b@.subrange(0, i as int).push(b@[i as int]));
            if a@.subrange(0, i + 1) == b@.subrange(0, i + 1) {
                assert(a@.subrange(0, i + 1)[i as int] == b@.subrange(0, i + 1)[i as int]);
                assert(a@.subrange(0, i as int) =~= a@.subrange(0, i + 1).drop_last());
                assert(b@.subrange(0, i as int) =~= b@.subrange(0, i + 1).drop_last());
            }
        }
        acc = acc | (x ^ y);
        i = i + 1;
    }
    assert(a@.subrange(0, n as int) =~= a@);
    assert(b@.subrange(0, n as int) =~= b@);
    acc == 0
}

/// Checks a signature token of the form `sha256=<hex>` against the body and
/// the shared secret. A token without the prefix is refused before any MAC is
/// computed.
pub fn verify_signature(payload: &[u8], signature: &str, secret: &str) -> (r: Result<
    bool,
    ProxyError,
>)
    ensures
        r == Ok::<bool, ProxyError>(signature_valid(payload@, signature@, secret.spec_bytes())),
{
    if !has_signature_prefix(signature) {
        return Ok(false);
    }
    let provided = signature.substring_char(7, signature.unicode_len());
    let tag = match hmac_sha256(secret.as_bytes(), payload) {
        Ok(tag) => tag,
        Err(_) => return Err(ProxyError::HmacComputation),
    };
    let expected = to_hex(tag.as_slice());
    assert(tag@ == hmac_sha256_of(secret.spec_bytes(), payload@)@);
    Ok(constant_time_eq(expected.as_str(), provided))
}

/// The token made from a body and a key is accepted for that body and key,
/// and changing any one of its 64 hex characters to another character makes
/// it rejected.
pub proof fn lemma_signed_token_accepted(body: Seq<u8>, key: Seq<u8>, i: int, c: char)
    requires
        0 <= i < 64,
        c != signature_token(body, key)[7 + i],
    ensures
        signature_valid(body, signature_token(body, key), key),
        !signature_valid(body, signature_token(body, key).update(7 + i, c), key),
{
    let tag = hmac_sha256_of(key, body);
    vstd::array::array_len_matches_n(&tag);
    let hex = hex_lower(tag@);
    assert(hex.len() == 64);
    let t = signature_token(body, key);
    assert(t.subrange(0, 7) =~= signature_prefix());
    assert(t.subrange(7, t.len() as int) =~= hex);
    let u = t.update(7 + i, c);
    assert(u.subrange(7, u.len() as int)[i] == c);
}

/// A token that does not start with `sha256=` is rejected, whatever follows.
pub proof fn lemma_unprefixed_token_rejected(body: Seq<u8>, token: Seq<char>, key: Seq<u8>)
    requires
        !(token.len() >= 7 && token.subrange(0, 7) == signature_prefix()),
    ensures
        !signature_valid(body, token, key),
{
}

} // verus!
