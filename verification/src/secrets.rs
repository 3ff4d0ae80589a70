//! Password hashing and random secrets.
//!
//! A password is stored as the lowercase hex SHA3-256 digest of the user's
//! salt followed by the password; salts and API keys are random alphanumeric
//! strings.

use vstd::prelude::*;
use vstd::utf8::encode_utf8;
use crypto::digest::Digest;
use rand::Rng;
use crate::text::byte_len;

verus! {

/// The SHA3-256 digest of a byte string.
pub uninterp spec fn sha3_256(data: Seq<u8>) -> Seq<u8>;

/// The lowercase hexadecimal digit for `n` in `0 .. 16`.
pub open spec fn hex_digit(n: int) -> char {
    seq!['0', '1', '2', '3', '4', '5', '6', '7', '8', '9', 'a', 'b', 'c', 'd', 'e', 'f'][n]
}

/// Lowercase hexadecimal encoding, two digits per byte, high nibble first.
pub open spec fn hex_lower(bytes: Seq<u8>) -> Seq<char>
    decreases bytes.len(),
{
    if bytes.len() == 0 {
        seq![]
    } else {
        seq![hex_digit(bytes[0] as int / 16), hex_digit(bytes[0] as int % 16)] + hex_lower(bytes.drop_first())
    }
}

/// The stored form of `password` under `salt`: the hex digest of the UTF-8
/// bytes of the salt followed by those of the password.
pub open spec fn password_hash(salt: Seq<char>, password: Seq<char>) -> Seq<char> {
    hex_lower(sha3_256(encode_utf8(salt) + encode_utf8(password)))
}

/// An ASCII letter or digit.
pub open spec fn is_alphanumeric_ascii(c: char) -> bool {
    ||| 'A' <= c <= 'Z'
    ||| 'a' <= c <= 'z'
    ||| '0' <= c <= '9'
}

/// A string of `len` ASCII letters and digits.
pub open spec fn is_alphanumeric_of_len(s: Seq<char>, len: nat) -> bool {
    &&& s.len() == len
    &&& forall|i: int| 0 <= i < s.len() ==> is_alphanumeric_ascii(#[trigger] s[i])
}

/// Hashes `salt` then `password` with rust-crypto's SHA3-256: creates the
/// hasher with `Sha3::sha3_256`, feeds both strings through
/// `Digest::input_str` (which absorbs their UTF-8 bytes), and returns
/// `Digest::result_str`, the 32-byte digest encoded as lowercase hex by
/// rustc-serialize's `ToHex`. Trusted: the digest itself is named, not stated.
#[verifier::external_body]
fn sha3_256_hex(salt: &str, password: &str) -> (res: String)
    ensures
        res@ == hex_lower(sha3_256(encode_utf8(salt@) + encode_utf8(password@))),
        res@.len() == 64,
{
    let mut hasher = crypto::sha3::Sha3::sha3_256();
    hasher.input_str(salt);
    hasher.input_str(password);
    hasher.result_str()
}

/// Draws `len` characters from rand's thread-local generator through
/// `Rng::gen_ascii_chars`, whose source picks each one uniformly from
/// `A-Z`, `a-z` and `0-9`. Trusted; the characters are left free, as they
/// depend on chance (the generator panics only when the system has no entropy).
#[verifier::external_body]
fn random_alphanumeric(len: usize) -> (s: String)
    ensures
        is_alphanumeric_of_len(s@, len as nat),
{
    rand::thread_rng().gen_ascii_chars().take(len).collect()
}

/// Hashes `password` under `salt` in the stored form.
pub fn hash_password(salt: &String, password: &String) -> (res: String)
    ensures
        res@ == password_hash(salt@, password@),
        res@.len() == 64,
{
    sha3_256_hex(salt.as_str(), password.as_str())
}

/// A fresh random alphanumeric string of `len` characters (salts and API keys).
pub fn random_secret(len: usize) -> (s: String)
    ensures
        is_alphanumeric_of_len(s@, len as nat),
{
    random_alphanumeric(len)
}

/// An alphanumeric string has one byte per character.
pub proof fn lemma_alphanumeric_byte_len(s: Seq<char>, len: nat)
    requires
        is_alphanumeric_of_len(s, len),
    ensures
        byte_len(s) == len,
{
    assert(vstd::utf8::is_ascii_chars(s)) by {
        assert forall|i: int| 0 <= i < s.len() implies '\0' <= #[trigger] s[i] <= '\u{7f}' by {
            assert(is_alphanumeric_ascii(s[i]));
        }
    }
    vstd::utf8::is_ascii_chars_encode_utf8(s);
}

/// The lowercase hex digits, in order.
pub open spec fn lowercase_hex_digits() -> Seq<char> {
    seq!['0', '1', '2', '3', '4', '5', '6', '7', '8', '9', 'a', 'b', 'c', 'd', 'e', 'f']
}

/// The hex form has two characters per byte: the byte's high nibble, then its
/// low nibble, each as a lowercase hex digit.
pub proof fn lemma_hex_lower_digits(bytes: Seq<u8>)
    ensures
        hex_lower(bytes).len() == 2 * bytes.len(),
        forall|i: int|
            0 <= i < bytes.len() ==> hex_lower(bytes)[2 * i] == lowercase_hex_digits()[bytes[i] as int / 16]
                && hex_lower(bytes)[2 * i + 1] == lowercase_hex_digits()[bytes[i] as int % 16],
    decreases bytes.len(),
{
    if bytes.len() > 0 {
        let rest = bytes.drop_first();
        lemma_hex_lower_digits(rest);
        assert forall|i: int|
            0 <= i < bytes.len() implies hex_lower(bytes)[2 * i] == lowercase_hex_digits()[bytes[i] as int
            / 16] && hex_lower(bytes)[2 * i + 1] == lowercase_hex_digits()[bytes[i] as int % 16] by {
            if i > 0 {
                assert(bytes[i] == rest[i - 1]);
                assert(hex_lower(bytes)[2 * i] == hex_lower(rest)[2 * (i - 1)]);
                assert(hex_lower(bytes)[2 * i + 1] == hex_lower(rest)[2 * (i - 1) + 1]);
            }
        }
    }
}

/// A password is stored as the lowercase hex SHA3-256 digest of all the UTF-8
/// bytes of the salt followed by all the UTF-8 bytes of the password,
/// whatever their lengths; so only the joined bytes matter, not where the salt
/// ends and the password begins.
pub proof fn lemma_password_hash_digests_salt_then_password(
    salt: Seq<char>,
    password: Seq<char>,
    other_salt: Seq<char>,
    other_password: Seq<char>,
)
    ensures
        password_hash(salt, password) == hex_lower(sha3_256(encode_utf8(salt) + encode_utf8(password))),
        encode_utf8(salt) + encode_utf8(password) == encode_utf8(other_salt) + encode_utf8(other_password)
            ==> password_hash(salt, password) == password_hash(other_salt, other_password),
{
}

} // verus!
