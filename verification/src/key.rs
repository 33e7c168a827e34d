//! Message keys: the first six characters of the Base64 text of the
//! SHA-512 digest of a message.

use base64::Engine;
use sha2::Digest;
use vstd::prelude::*;
use vstd::string::*;
use vstd::utf8::encode_utf8;

verus! {

/// Number of characters in a derived key.
pub const KEY_LEN: usize = 6;

/// The SHA-512 digest of a byte sequence.
pub uninterp spec fn sha512(data: Seq<u8>) -> Seq<u8>;

/// The standard, padded Base64 text of a byte sequence.
pub uninterp spec fn base64_standard(data: Seq<u8>) -> Seq<char>;

/// Whether `c` is one of the 64 characters of the standard Base64 alphabet.
pub open spec fn is_base64_char(c: char) -> bool {
    ||| 'A' <= c <= 'Z'
    ||| 'a' <= c <= 'z'
    ||| '0' <= c <= '9'
    ||| c == '+'
    ||| c == '/'
}

/// Length of the padded Base64 text of `n` bytes.
pub open spec fn base64_len(n: nat) -> nat {
    4 * ((n + 2) / 3)
}

/// Number of leading characters of the Base64 text of `n` bytes that
/// carry data, the rest being padding.
pub open spec fn base64_data_len(n: nat) -> nat {
    (4 * n + 2) / 3
}

/// The key of a byte sequence.
pub open spec fn key_of_bytes(data: Seq<u8>) -> Seq<char> {
    base64_standard(sha512(data)).take(KEY_LEN as int)
}

/// The key of a message text: the key of its UTF-8 bytes.
pub open spec fn key_of(message: Seq<char>) -> Seq<char> {
    key_of_bytes(encode_utf8(message))
}

/// Calls `sha2::Sha512::digest`. Trusted: the result is the SHA-512 digest
/// of `data`, which is 64 bytes long.
#[verifier::external_body]
fn sha512_digest(data: &[u8]) -> (out: Vec<u8>)
    ensures
        out@ == sha512(data@),
        out@.len() == 64,
{
    sha2::Sha512::digest(data).to_vec()
}

/// Calls `encode` on `base64::engine::general_purpose::STANDARD`. Trusted:
/// the result is the padded Base64 text of `data`, four characters for
/// each started group of three bytes, of which the leading
/// `base64_data_len` are drawn from the standard alphabet.
#[verifier::external_body]
fn base64_encode(data: &[u8]) -> (out: String)
    requires
        data@.len() < 0x4000_0000,
    ensures
        out@ == base64_standard(data@),
        out@.len() == base64_len(data@.len()),
        forall|i: int| 0 <= i < base64_data_len(data@.len()) ==> is_base64_char(#[trigger] out@[i]),
{
    base64::engine::general_purpose::STANDARD.encode(data)
}

/// Derives the key of a byte sequence.
pub fn key_from_bytes(data: &[u8]) -> (key: String)
    ensures
        key@ == key_of_bytes(data@),
        key@.len() == KEY_LEN,
        forall|i: int| 0 <= i < key@.len() ==> is_base64_char(#[trigger] key@[i]),
{
    let digest = sha512_digest(data);
    let text = base64_encode(digest.as_slice());
    let head = text.as_str().substring_char(0, KEY_LEN);
    let key = String::from_str(head);
    assert forall|i: int| 0 <= i < key@.len() implies is_base64_char(#[trigger] key@[i]) by {
        assert(key@[i] == text@[i]);
    }
    key
}

/// Derives the key of a message.
pub fn generate_key(message: &str) -> (key: String)
    ensures
        key@ == key_of(message@),
        key@.len() == KEY_LEN,
        forall|i: int| 0 <= i < key@.len() ==> is_base64_char(#[trigger] key@[i]),
{
    key_from_bytes(message.as_bytes())
}

/// Key derivation as a namespace of its own.
pub struct KeyGenerator;

impl KeyGenerator {
    /// Derives the key of a message; the same as [`generate_key`].
    pub fn generate(message: &str) -> (key: String)
        ensures
            key@ == key_of(message@),
            key@.len() == KEY_LEN,
            forall|i: int| 0 <= i < key@.len() ==> is_base64_char(#[trigger] key@[i]),
    {
        generate_key(message)
    }
}

} // verus!
