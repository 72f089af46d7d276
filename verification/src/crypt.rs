//! Symmetric encryption of clipboard contents (AES-256-CBC through
//! OpenSSL), the SHA-256 digest that turns the application salt into a key,
//! and UTF-8 decoding of decrypted bytes.
use openssl::error::ErrorStack;
use std::string::FromUtf8Error;
use crate::ids::{drawn_from, url_safe_alphabet};
use vstd::prelude::*;
use vstd::utf8::*;

verus! {

#[verifier::external_type_specification]
#[verifier::external_body]
pub struct ExErrorStack(ErrorStack);

#[verifier::external_type_specification]
#[verifier::external_body]
pub struct ExFromUtf8Error(FromUtf8Error);

/// The ciphertext that AES-256-CBC with PKCS#7 padding makes of `data`
/// under `key` and `iv`.
pub uninterp spec fn aes_256_cbc_encrypt(key: Seq<u8>, iv: Seq<u8>, data: Seq<u8>) -> Seq<u8>;

/// What OpenSSL's AES-256-CBC decryption with PKCS#7 padding makes of
/// `data` under `key` and `iv`; `None` where OpenSSL reports an error (a key
/// or IV length it refuses, a ciphertext that is not whole blocks, a failed
/// padding check).
pub uninterp spec fn aes_256_cbc_decrypt(key: Seq<u8>, iv: Seq<u8>, data: Seq<u8>) -> Option<
    Seq<u8>,
>;

/// The key and IV have the lengths of AES-256-CBC: 32 and 16 bytes.
pub open spec fn aes_key_iv_fit(key: Seq<u8>, iv: Seq<u8>) -> bool {
    key.len() == 32 && iv.len() == 16
}

/// A ciphertext of `n` bytes is whole AES blocks: at least one block, and a
/// multiple of 16 bytes.
pub open spec fn whole_blocks(n: nat) -> bool {
    n > 0 && n % 16 == 0
}

/// The length of the AES-CBC ciphertext of `n` bytes with PKCS#7 padding:
/// `n` rounded up to the next whole block of 16 bytes, a full block more
/// where `n` is already whole.
pub open spec fn padded_len(n: nat) -> nat {
    16 * (n / 16 + 1)
}

/// The SHA-256 digest of `data`.
pub uninterp spec fn sha256_digest(data: Seq<u8>) -> Seq<u8>;

/// Inputs on which OpenSSL's one-shot cipher neither asserts nor overflows
/// its `c_int` lengths: a key of at least the 32 bytes that AES-256 reads,
/// an IV of at least the 16 bytes that CBC reads, and lengths that fit a
/// `c_int`.
pub open spec fn cipher_input_ok(key: Seq<u8>, iv: Seq<u8>, data: Seq<u8>) -> bool {
    &&& 32 <= key.len() <= i32::MAX
    &&& 16 <= iv.len() <= i32::MAX
    &&& data.len() <= i32::MAX
}

/// The text that decrypting `data` gives, where the plaintext is valid UTF-8.
pub open spec fn aes_plaintext(key: Seq<u8>, iv: Seq<u8>, data: Seq<u8>) -> Option<Seq<char>> {
    match aes_256_cbc_decrypt(key, iv, data) {
        Some(plain) => if valid_utf8(plain) {
            Some(decode_utf8(plain))
        } else {
            None
        },
        None => None,
    }
}

/// Why encrypting or decrypting a clipboard content failed.
#[derive(Debug, Clone, Copy, PartialEq, Eq, Structural)]
pub enum CryptError {
    /// OpenSSL reported an error while encrypting.
    Encrypt,
    /// OpenSSL reported an error while decrypting (a wrong key or IV, a
    /// damaged ciphertext).
    Decrypt,
    /// The decrypted bytes are not UTF-8.
    InvalidUtf8,
}

/// Calls `openssl::symm::encrypt` with `Cipher::aes_256_cbc()`.
/// Claims: with a 32-byte key and a 16-byte IV it succeeds; a ciphertext
/// that comes back is the named encryption of `data`, has the PKCS#7
/// padded length, and decrypts under the same key and IV to `data` (AES-CBC
/// with padding is invertible). That no allocation inside OpenSSL fails is
/// taken for granted. What OpenSSL makes of other key and IV lengths
/// (`Crypter::new` asks it to set them from the slices) is not stated.
#[verifier::external_body]
fn aes_encrypt(key: &[u8], iv: &[u8], data: &[u8]) -> (res: Result<Vec<u8>, ErrorStack>)
    requires
        cipher_input_ok(key@, iv@, data@),
    ensures
        aes_key_iv_fit(key@, iv@) ==> res is Ok,
        res matches Ok(c) ==> {
            &&& c@ == aes_256_cbc_encrypt(key@, iv@, data@)
            &&& c@.len() == padded_len(data@.len())
            &&& aes_256_cbc_decrypt(key@, iv@, c@) == Some(data@)
        },
{
    openssl::symm::encrypt(openssl::symm::Cipher::aes_256_cbc(), key, Some(iv), data)
}

/// Calls `openssl::symm::decrypt` with `Cipher::aes_256_cbc()`.
/// Claims: it succeeds exactly where the named decryption gives a
/// plaintext, and that plaintext comes back; a ciphertext that is not whole
/// blocks fails (OpenSSL's final step refuses a partial or missing last
/// block when padding is on). That no allocation inside OpenSSL fails is
/// taken for granted.
#[verifier::external_body]
fn aes_decrypt(key: &[u8], iv: &[u8], data: &[u8]) -> (res: Result<Vec<u8>, ErrorStack>)
    requires
        cipher_input_ok(key@, iv@, data@),
    ensures
        res is Ok <==> aes_256_cbc_decrypt(key@, iv@, data@) is Some,
        res matches Ok(p) ==> aes_256_cbc_decrypt(key@, iv@, data@) == Some(p@),
        !whole_blocks(data@.len()) ==> res is Err,
{
    openssl::symm::decrypt(openssl::symm::Cipher::aes_256_cbc(), key, Some(iv), data)
}

/// Calls `openssl::hash::hash` with `MessageDigest::sha256()`.
/// Claims: it succeeds, and the digest is the named SHA-256 digest of
/// `data`, 32 bytes long. That no allocation inside OpenSSL fails is taken
/// for granted.
#[verifier::external_body]
fn sha256(data: &[u8]) -> (res: Result<Vec<u8>, ErrorStack>)
    ensures
        res is Ok,
        res matches Ok(d) ==> d@ == sha256_digest(data@) && d@.len() == 32,
{
    match openssl::hash::hash(openssl::hash::MessageDigest::sha256(), data) {
        Ok(digest) => Ok(digest.to_vec()),
        Err(e) => Err(e),
    }
}

/// Calls `String::from_utf8`. Claims what its documentation says: it
/// succeeds exactly on valid UTF-8, and the string holds the decoded
/// characters.
#[verifier::external_body]
fn string_from_utf8(bytes: Vec<u8>) -> (res: Result<String, FromUtf8Error>)
    ensures
        res is Ok <==> valid_utf8(bytes@),
        res matches Ok(s) ==> s@ == decode_utf8(bytes@),
{
    String::from_utf8(bytes)
}

/// Decodes `bytes` as UTF-8.
pub fn utf8_text(bytes: Vec<u8>) -> (res: Option<String>)
    ensures
        res is Some <==> valid_utf8(bytes@),
        res matches Some(s) ==> s@ == decode_utf8(bytes@),
{
    match string_from_utf8(bytes) {
        Ok(s) => Some(s),
        Err(_) => None,
    }
}

/// Derives the 32-byte content key from the application salt: its SHA-256
/// digest.
pub fn derive_key(salt: &str) -> (res: Vec<u8>)
    ensures
        res@ == sha256_digest(encode_utf8(salt@)),
        res@.len() == 32,
{
    sha256(salt.as_bytes()).unwrap()
}

/// Encrypts `content` with AES-256-CBC under `key`, with the given IV
/// string, whose UTF-8 bytes are the IV. It succeeds where the key is 32
/// bytes and the IV's bytes 16.
pub fn to_aes_with_iv(key: &[u8], iv: String, content: &[u8]) -> (res: Result<
    (String, Vec<u8>),
    CryptError,
>)
    requires
        cipher_input_ok(key@, encode_utf8(iv@), content@),
    ensures
        aes_key_iv_fit(key@, encode_utf8(iv@)) ==> res is Ok,
        match res {
            Ok((iv_out, c)) => {
                &&& iv_out@ == iv@
                &&& c@ == aes_256_cbc_encrypt(key@, encode_utf8(iv@), content@)
                &&& c@.len() == padded_len(content@.len())
                &&& aes_256_cbc_decrypt(key@, encode_utf8(iv@), c@) == Some(content@)
            },
            Err(e) => e == CryptError::Encrypt,
        },
{
    let encrypted = aes_encrypt(key, iv.as_str().as_bytes(), content);
    match encrypted {
        Ok(c) => Ok((iv, c)),
        Err(_) => Err(CryptError::Encrypt),
    }
}

/// Length of the IV string that `to_aes` draws.
pub const IV_LEN: usize = 16;

/// Encrypts `content` with AES-256-CBC under `key` and a fresh random IV of
/// 16 URL-safe ASCII characters; returns the IV string and the ciphertext.
/// It succeeds where the key is 32 bytes. The IV is drawn at
/// random; what holds of every draw is stated.
pub fn to_aes(key: &[u8], content: &[u8]) -> (res: Result<(String, Vec<u8>), CryptError>)
    requires
        32 <= key@.len() <= i32::MAX,
        content@.len() <= i32::MAX,
    ensures
        key@.len() == 32 ==> res is Ok,
        match res {
            Ok((iv, c)) => {
                &&& iv@.len() == IV_LEN
                &&& drawn_from(iv@, url_safe_alphabet())
                &&& is_ascii_chars(iv@)
                &&& encode_utf8(iv@).len() == IV_LEN
                &&& c@ == aes_256_cbc_encrypt(key@, encode_utf8(iv@), content@)
                &&& c@.len() == padded_len(content@.len())
                &&& aes_256_cbc_decrypt(key@, encode_utf8(iv@), c@) == Some(content@)
            },
            Err(e) => e == CryptError::Encrypt,
        },
{
    let iv = crate::ids::random_token(IV_LEN);
    proof {
        is_ascii_chars_encode_utf8(iv@);
    }
    to_aes_with_iv(key, iv, content)
}

/// What decrypting `data` under `key` and `iv` and reading the plaintext
/// as UTF-8 gives: the text; `Decrypt` where the decryption fails its
/// padding check; `InvalidUtf8` where the plaintext is not UTF-8.
pub open spec fn aes_text_outcome(key: Seq<u8>, iv: Seq<u8>, data: Seq<u8>) -> Result<
    Seq<char>,
    CryptError,
> {
    match aes_256_cbc_decrypt(key, iv, data) {
        None => Err(CryptError::Decrypt),
        Some(plain) => if valid_utf8(plain) {
            Ok(decode_utf8(plain))
        } else {
            Err(CryptError::InvalidUtf8)
        },
    }
}

/// Decrypts `data` with AES-256-CBC under `key` and `iv` and decodes the
/// plaintext as UTF-8. A ciphertext that is not whole blocks is refused as
/// `Decrypt`.
pub fn from_aes(key: &[u8], iv: &[u8], data: &[u8]) -> (res: Result<String, CryptError>)
    requires
        cipher_input_ok(key@, iv@, data@),
    ensures
        match res {
            Ok(s) => aes_text_outcome(key@, iv@, data@) == Ok::<Seq<char>, CryptError>(s@),
            Err(e) => aes_text_outcome(key@, iv@, data@) == Err::<Seq<char>, CryptError>(e),
        },
        res is Ok <==> aes_plaintext(key@, iv@, data@) is Some,
        res matches Ok(s) ==> aes_plaintext(key@, iv@, data@) == Some(s@),
        !whole_blocks(data@.len()) ==> res == Err::<String, CryptError>(CryptError::Decrypt),
{
    match aes_decrypt(key, iv, data) {
        Ok(plain) => match utf8_text(plain) {
            Some(s) => Ok(s),
            None => Err(CryptError::InvalidUtf8),
        },
        Err(_) => Err(CryptError::Decrypt),
    }
}

/// Law (`from_aes` inverts `to_aes`): a ciphertext that decrypts to the
/// UTF-8 encoding of a text, as every ciphertext that `to_aes` gives does
/// for its content, reads back as exactly that text, and that text is what
/// `from_aes` answers.
pub proof fn lemma_text_round_trip(key: Seq<u8>, iv: Seq<u8>, text: Seq<char>, data: Seq<u8>)
    requires
        aes_256_cbc_decrypt(key, iv, data) == Some(encode_utf8(text)),
    ensures
        aes_plaintext(key, iv, data) == Some(text),
        aes_text_outcome(key, iv, data) == Ok::<Seq<char>, CryptError>(text),
{
    encode_utf8_valid_utf8(text);
    encode_utf8_decode_utf8(text);
}

} // verus!
