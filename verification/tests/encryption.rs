use you_have_mail_common::encryption::{
    decrypt, encrypt, DefaultEncryption, Encryption, EncryptionKey, ENCRYPTION_KEY_BYTES_LEN,
};

#[test]
fn test_encrypt_decrypt() {
    let value = b"Hello World!!";
    let key = EncryptionKey::new();
    let encryptor = DefaultEncryption::new(key);
    let encrypted = encryptor.encrypt(value).unwrap();
    let decrypted = encryptor.decrypt(&encrypted).unwrap();
    assert_eq!(decrypted.as_slice(), value);
}

#[test]
fn encrypted_bytes_differ_from_plain_text() {
    let key = EncryptionKey::new();
    let encrypted = encrypt(&key, b"Hello World!!").unwrap();
    assert_ne!(encrypted.as_slice(), b"Hello World!!");
    // The nonce (12 bytes) and the tag (16 bytes) come with the cipher text.
    assert_eq!(encrypted.len(), 13 + 16 + 12);
}

#[test]
fn encrypt_empty_data_fails() {
    let key = EncryptionKey::new();
    assert!(encrypt(&key, b"").is_err());
}

#[test]
fn decrypt_with_other_key_fails() {
    let key = EncryptionKey::new();
    let other = EncryptionKey::new();
    let encrypted = encrypt(&key, b"secret").unwrap();
    assert!(decrypt(&other, &encrypted).is_err());
}

#[test]
fn decrypt_short_data_fails() {
    let key = EncryptionKey::new();
    assert!(decrypt(&key, &[1, 2, 3]).is_err());
}

#[test]
fn decrypt_tampered_data_fails() {
    let key = EncryptionKey::new();
    let mut encrypted = encrypt(&key, b"secret").unwrap();
    encrypted[0] ^= 0xff;
    assert!(decrypt(&key, &encrypted).is_err());
}

#[test]
fn key_base64_round_trip() {
    let key = EncryptionKey::new();
    let text = key.to_base64();
    let back = EncryptionKey::with_base64(&text).unwrap();
    assert_eq!(back.as_bytes(), key.as_bytes());
    assert_eq!(key.as_bytes().len(), ENCRYPTION_KEY_BYTES_LEN);
}

#[test]
fn key_base64_known_value() {
    let bytes = [0u8; 32];
    let key = EncryptionKey::from_bytes(&bytes).unwrap();
    assert_eq!(key.to_base64(), "AAAAAAAAAAAAAAAAAAAAAAAAAAAAAAAAAAAAAAAAAAA=");
}

#[test]
fn key_with_wrong_length_is_refused() {
    assert!(EncryptionKey::from_bytes(&[1u8; 16]).is_none());
    assert!(EncryptionKey::with_base64("AAAA").is_err());
    assert!(EncryptionKey::with_base64("not base64 !").is_err());
}

#[test]
fn fresh_keys_and_nonces_differ() {
    let a = EncryptionKey::new();
    let b = EncryptionKey::new();
    assert_ne!(a.as_bytes(), b.as_bytes());
    let first = encrypt(&a, b"same text").unwrap();
    let second = encrypt(&a, b"same text").unwrap();
    assert_ne!(first, second);
    assert_eq!(decrypt(&a, &first).unwrap(), decrypt(&a, &second).unwrap());
}

#[test]
fn encryption_errors_say_why() {
    let key = EncryptionKey::new();
    assert_eq!(encrypt(&key, b"").unwrap_err(), "Empty data");
    assert_eq!(decrypt(&key, b"short").unwrap_err(), "Data is not large enough");
    assert_eq!(decrypt(&key, &[0u8; 40]).unwrap_err(), "aead::Error");
}
