use clipboard::{derive_key, from_aes, to_aes, to_aes_with_iv, utf8_text, CryptError, IV_LEN};
use openssl::hash::{hash, MessageDigest};

#[test]
fn encrypt_and_decrypt() {
    let key = hash(MessageDigest::sha3_256(), b"teqweqwrfewgkerest").unwrap();
    let data = "test data wo cao";
    let (iv, content) = to_aes(&key, data.as_bytes()).unwrap();

    let data_decrypted = from_aes(&key, iv.as_bytes(), &content);

    assert_eq!(data, data_decrypted.unwrap().as_str());
}

#[test]
fn to_aes_draws_a_sixteen_character_iv_and_really_encrypts() {
    let key = derive_key("some salt");
    let (iv, content) = to_aes(&key, b"plain text").unwrap();
    assert_eq!(iv.chars().count(), IV_LEN);
    assert!(iv.is_ascii());
    assert_ne!(content.as_slice(), b"plain text".as_slice());
    assert_eq!(content.len(), 16);
}

#[test]
fn to_aes_with_iv_matches_openssl() {
    let key = derive_key("k");
    let iv = String::from("0123456789abcdef");
    let (iv_out, c) = to_aes_with_iv(&key, iv.clone(), b"hello").unwrap();
    assert_eq!(iv_out, iv);
    let expected = openssl::symm::encrypt(
        openssl::symm::Cipher::aes_256_cbc(),
        &key,
        Some(iv.as_bytes()),
        b"hello",
    )
    .unwrap();
    assert_eq!(c, expected);
    assert_eq!(from_aes(&key, iv.as_bytes(), &c).unwrap(), "hello");
}

#[test]
fn from_aes_reports_damaged_ciphertext() {
    let key = derive_key("k");
    let (iv, mut c) = to_aes(&key, b"some content").unwrap();
    c.pop();
    assert_eq!(from_aes(&key, iv.as_bytes(), &c), Err(CryptError::Decrypt));
}

#[test]
fn from_aes_reports_non_utf8_plaintext() {
    let key = derive_key("k");
    let (iv, c) = to_aes(&key, &[0xff, 0xfe, 0x00]).unwrap();
    assert_eq!(from_aes(&key, iv.as_bytes(), &c), Err(CryptError::InvalidUtf8));
}

#[test]
fn derive_key_is_sha256_of_salt() {
    let key = derive_key("test_salt");
    let expected = hash(MessageDigest::sha256(), b"test_salt").unwrap();
    assert_eq!(key.as_slice(), &expected[..]);
    assert_eq!(key.len(), 32);
}

#[test]
fn utf8_text_decodes_or_refuses() {
    assert_eq!(utf8_text("héllo".as_bytes().to_vec()), Some(String::from("héllo")));
    assert_eq!(utf8_text(vec![0xc3]), None);
}

#[test]
fn ciphertext_has_the_padded_length() {
    let key = derive_key("k");
    let (_, empty) = to_aes(&key, b"").unwrap();
    assert_eq!(empty.len(), 16);
    let (_, block) = to_aes(&key, &[7u8; 16]).unwrap();
    assert_eq!(block.len(), 32);
    let (_, longer) = to_aes(&key, &[7u8; 17]).unwrap();
    assert_eq!(longer.len(), 32);
}


#[test]
fn from_aes_refuses_a_partial_block() {
    let key = [0u8; 32];
    let iv = b"0123456789abcdef";
    assert_eq!(from_aes(&key, iv, &[1u8, 2, 3]), Err(CryptError::Decrypt));
    assert_eq!(from_aes(&key, iv, &[]), Err(CryptError::Decrypt));
}
