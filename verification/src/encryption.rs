//! Basic data encryption with ChaCha20-Poly1305, and the encryption key.
use chacha20poly1305::aead::{Aead, OsRng};
use chacha20poly1305::{AeadCore, ChaCha20Poly1305, KeyInit};
use base64::Engine;
use vstd::prelude::*;

verus! {

/// Length in bytes of an encryption key.
pub const ENCRYPTION_KEY_BYTES_LEN: usize = 32;

/// Length in bytes of a nonce.
pub const NONCE_LEN: usize = 12;

/// ChaCha20-Poly1305 encryption of `plain` under `key` and `nonce`, without
/// associated data: ciphertext followed by the tag, or `None` on failure.
pub uninterp spec fn aead_seal(key: Seq<u8>, nonce: Seq<u8>, plain: Seq<u8>) -> Option<Seq<u8>>;

/// ChaCha20-Poly1305 decryption of `cipher` under `key` and `nonce`, or
/// `None` when it does not authenticate.
pub uninterp spec fn aead_open(key: Seq<u8>, nonce: Seq<u8>, cipher: Seq<u8>) -> Option<Seq<u8>>;

/// Standard base64 (with padding) text of `bytes`.
pub uninterp spec fn base64_text(bytes: Seq<u8>) -> Seq<char>;

/// What decoding standard base64 (with padding) text gives: the bytes, or
/// the text of the decoding error.
pub uninterp spec fn base64_decoded(text: Seq<char>) -> Result<Seq<u8>, Seq<char>>;

/// The bytes that standard base64 (with padding) text decodes to, if valid.
pub open spec fn base64_bytes(text: Seq<char>) -> Option<Seq<u8>> {
    match base64_decoded(text) {
        Ok(b) => Some(b),
        Err(_) => None,
    }
}

/// What decoding base64 text gave: the bytes, or the decoder's reason.
pub enum Decoded {
    Bytes(Vec<u8>),
    Invalid(String),
}

/// The bytes decoding gave, if it succeeded.
pub open spec fn decoded_bytes(r: Decoded) -> Option<Seq<u8>> {
    match r {
        Decoded::Bytes(v) => Some(v@),
        Decoded::Invalid(_) => None,
    }
}

/// The value of what decoding gave.
pub open spec fn decoded_view(r: Decoded) -> Result<Seq<u8>, Seq<char>> {
    match r {
        Decoded::Bytes(v) => Ok(v@),
        Decoded::Invalid(e) => Err(e@),
    }
}

/// The value of an optional byte vector.
pub open spec fn bytes_opt_view(o: Option<Vec<u8>>) -> Option<Seq<u8>> {
    match o {
        Some(v) => Some(v@),
        None => None,
    }
}

/// Fresh random key bytes.
///
/// Trusted: calls `ChaCha20Poly1305::generate_key` with `OsRng`. The result
/// depends on chance; the contract says only that it has the key length.
#[verifier::external_body]
fn random_key_bytes() -> (r: Vec<u8>)
    ensures
        r@.len() == ENCRYPTION_KEY_BYTES_LEN,
{
    ChaCha20Poly1305::generate_key(&mut OsRng).to_vec()
}

/// A fresh random nonce.
///
/// Trusted: calls `ChaCha20Poly1305::generate_nonce` with `OsRng`. The
/// result depends on chance; the contract says only that it has the nonce
/// length.
#[verifier::external_body]
fn random_nonce() -> (r: Vec<u8>)
    ensures
        r@.len() == NONCE_LEN,
{
    ChaCha20Poly1305::generate_nonce(&mut OsRng).to_vec()
}

/// Encrypt `plain` under `key` and `nonce`.
///
/// Trusted: calls `ChaCha20Poly1305::new` and `Aead::encrypt`. The result is
/// named by `aead_seal`; the contract also claims, from the crate's source,
/// that encryption fails only for a message of `u32::MAX` or more 64-byte
/// blocks, and that the ciphertext is the message's length followed by the
/// 16-byte tag.
#[verifier::external_body]
fn chacha_seal(key: &[u8], nonce: &[u8], plain: &[u8]) -> (r: Option<Vec<u8>>)
    requires
        key@.len() == ENCRYPTION_KEY_BYTES_LEN,
        nonce@.len() == NONCE_LEN,
    ensures
        bytes_opt_view(r) == aead_seal(key@, nonce@, plain@),
        plain@.len() / 64 < 0xffff_ffff ==> r is Some,
        r matches Some(c) ==> c@.len() == plain@.len() + 16,
{
    let cipher = ChaCha20Poly1305::new(chacha20poly1305::Key::from_slice(key));
    cipher.encrypt(chacha20poly1305::Nonce::from_slice(nonce), plain).ok()
}

/// Decrypt `cipher` under `key` and `nonce`.
///
/// Trusted: calls `ChaCha20Poly1305::new` and `Aead::decrypt`. The result is
/// named by `aead_open`; the contract also claims the authenticated
/// encryption property: what `aead_seal` made under the same key and nonce
/// decrypts back to the message it was made from.
#[verifier::external_body]
fn chacha_open(key: &[u8], nonce: &[u8], cipher: &[u8]) -> (r: Option<Vec<u8>>)
    requires
        key@.len() == ENCRYPTION_KEY_BYTES_LEN,
        nonce@.len() == NONCE_LEN,
    ensures
        bytes_opt_view(r) == aead_open(key@, nonce@, cipher@),
        forall|p: Seq<u8>| aead_seal(key@, nonce@, p) == Some(cipher@) ==> bytes_opt_view(r) == Some(p),
{
    let c = ChaCha20Poly1305::new(chacha20poly1305::Key::from_slice(key));
    c.decrypt(chacha20poly1305::Nonce::from_slice(nonce), cipher).ok()
}

/// Standard base64 text of `bytes`, with padding.
///
/// Trusted: calls `Engine::encode` of the standard, padded engine. The text
/// is named by `base64_text`; the contract also claims the padding the crate
/// documents: four characters for every three bytes or part of them, with
/// `=` padding at the end when the bytes do not fill the last group.
#[verifier::external_body]
fn base64_encode(bytes: &[u8]) -> (r: String)
    ensures
        r@ == base64_text(bytes@),
        r@.len() == 4 * ((bytes@.len() + 2) / 3),
        bytes@.len() % 3 != 0 ==> r@.last() == '=',
{
    base64::engine::general_purpose::STANDARD.encode(bytes)
}

/// The bytes of standard base64 text, with padding, or the text of the
/// decoding error.
///
/// Trusted: calls `Engine::decode` of the standard, padded engine, and
/// `to_string` on its `DecodeError`. The result is named by
/// `base64_decoded`; the contract also claims that the text `Engine::encode`
/// makes decodes back to the bytes it was made from.
#[verifier::external_body]
fn base64_decode(text: &str) -> (r: Decoded)
    ensures
        decoded_view(r) == base64_decoded(text@),
        forall|b: Seq<u8>| text@ == base64_text(b) ==> decoded_bytes(r) == Some(b),
{
    match base64::engine::general_purpose::STANDARD.decode(text) {
        Ok(v) => Decoded::Bytes(v),
        Err(e) => Decoded::Invalid(e.to_string()),
    }
}

/// Copy of `b[from..to]`.
fn copy_range(b: &[u8], from: usize, to: usize) -> (r: Vec<u8>)
    requires
        from <= to <= b@.len(),
    ensures
        r@ == b@.subrange(from as int, to as int),
{
    let mut v: Vec<u8> = Vec::new();
    let mut i: usize = from;
    while i < to
        invariant
            from <= i <= to,
            to <= b@.len(),
            v@ == b@.subrange(from as int, i as int),
        decreases to - i,
    {
        v.push(b[i]);
        i = i + 1;
        proof {
            assert(v@ =~= b@.subrange(from as int, i as int));
        }
    }
    v
}

/// Encryption key for use with [`encrypt`] and [`decrypt`].
#[derive(Debug)]
pub struct EncryptionKey {
    bytes: Vec<u8>,
}

impl View for EncryptionKey {
    type V = Seq<u8>;

    closed spec fn view(&self) -> Seq<u8> {
        self.bytes@
    }
}

impl EncryptionKey {
    #[verifier::type_invariant]
    closed spec fn inv(&self) -> bool {
        self.bytes@.len() == ENCRYPTION_KEY_BYTES_LEN
    }

    /// A fresh random key.
    pub fn new() -> (r: Self)
        ensures
            r@.len() == ENCRYPTION_KEY_BYTES_LEN,
    {
        EncryptionKey { bytes: random_key_bytes() }
    }

    /// The key made of `value`, if it has the key length.
    pub fn from_bytes(value: &[u8]) -> (r: Option<Self>)
        ensures
            value@.len() == ENCRYPTION_KEY_BYTES_LEN ==> (r matches Some(k) && k@ == value@),
            value@.len() != ENCRYPTION_KEY_BYTES_LEN ==> r is None,
    {
        if value.len() != ENCRYPTION_KEY_BYTES_LEN {
            return None;
        }
        Some(EncryptionKey { bytes: copy_range(value, 0, value.len()) })
    }

    /// The key's bytes.
    pub fn as_bytes(&self) -> (r: &[u8])
        ensures
            r@ == self@,
            r@.len() == ENCRYPTION_KEY_BYTES_LEN,
    {
        proof {
            use_type_invariant(self);
        }
        self.bytes.as_slice()
    }

    /// The key written as standard base64 text.
    pub fn to_base64(&self) -> (r: String)
        ensures
            r@ == base64_text(self@),
            r@.len() == 44,
            r@.last() == '=',
            self@.len() == ENCRYPTION_KEY_BYTES_LEN,
    {
        proof {
            use_type_invariant(self);
        }
        base64_encode(self.bytes.as_slice())
    }

    /// The key that standard base64 text stands for. It fails if the text is
    /// no valid base64 or does not hold exactly the key length in bytes.
    pub fn with_base64(text: &str) -> (r: Result<Self, String>)
        ensures
            match base64_bytes(text@) {
                Some(b) => if b.len() == ENCRYPTION_KEY_BYTES_LEN {
                    r matches Ok(k) && k@ == b
                } else {
                    r is Err
                },
                None => r is Err,
            },
            forall|b: Seq<u8>| b.len() == ENCRYPTION_KEY_BYTES_LEN && text@ == base64_text(b) ==> (r matches Ok(
                x,
            ) && x@ == b),
            r matches Err(m) ==> m@ == key_error_text(text@),
    {
        match base64_decode(text) {
            Decoded::Invalid(e) => {
                let mut m = String::from_str("Failed to decode base64: ");
                m.append(e.as_str());
                Err(m)
            },
            Decoded::Bytes(bytes) => match Self::from_bytes(bytes.as_slice()) {
                Some(k) => Ok(k),
                None => Err("Invalid Key bytes".to_owned()),
            },
        }
    }
}

/// Why text is no valid key: it is no base64 (with the decoder's reason),
/// or it holds the wrong number of bytes.
pub open spec fn key_error_text(text: Seq<char>) -> Seq<char> {
    match base64_decoded(text) {
        Err(reason) => "Failed to decode base64: "@ + reason,
        Ok(_) => "Invalid Key bytes"@,
    }
}

/// Why data could not be encrypted: it is empty, or the cipher refused it.
pub open spec fn encrypt_error_text(plain: Seq<u8>) -> Seq<char> {
    if plain.len() == 0 {
        "Empty data"@
    } else {
        "aead::Error"@
    }
}

/// What decrypting `bytes` under `key` gives: the last bytes are the nonce,
/// the rest the ciphertext.
pub open spec fn decrypt_spec(key: Seq<u8>, bytes: Seq<u8>) -> Option<Seq<u8>> {
    if bytes.len() < NONCE_LEN {
        None
    } else {
        aead_open(key, bytes.subrange(bytes.len() - NONCE_LEN, bytes.len() as int), bytes.subrange(0, bytes.len() - NONCE_LEN))
    }
}

/// Whether `bytes` is `plain` encrypted under `key` with some nonce, the
/// nonce appended.
pub open spec fn encrypts(key: Seq<u8>, plain: Seq<u8>, bytes: Seq<u8>) -> bool {
    exists|nonce: Seq<u8>| nonce.len() == NONCE_LEN && #[trigger] sealed_as(key, nonce, plain, bytes)
}

/// Whether `bytes` is `plain` encrypted under `key` and `nonce`, the nonce
/// appended.
pub open spec fn sealed_as(key: Seq<u8>, nonce: Seq<u8>, plain: Seq<u8>, bytes: Seq<u8>) -> bool {
    match aead_seal(key, nonce, plain) {
        Some(c) => bytes == c + nonce,
        None => false,
    }
}

/// Encrypt `bytes` under `key` with a fresh random nonce, which is appended
/// to the ciphertext. Empty data is refused.
pub fn encrypt(key: &EncryptionKey, bytes: &[u8]) -> (r: Result<Vec<u8>, String>)
    ensures
        bytes@.len() == 0 ==> r is Err,
        bytes@.len() > 0 && bytes@.len() / 64 < 0xffff_ffff ==> r is Ok,
        r matches Ok(e) ==> encrypts(key@, bytes@, e@),
        r matches Ok(e) ==> e@.len() == bytes@.len() + 16 + NONCE_LEN,
        r matches Err(m) ==> m@ == encrypt_error_text(bytes@),
{
    proof {
        use_type_invariant(key);
    }
    if bytes.len() == 0 {
        return Err("Empty data".to_owned());
    }
    let nonce = random_nonce();
    match chacha_seal(key.bytes.as_slice(), nonce.as_slice(), bytes) {
        None => Err("aead::Error".to_owned()),
        Some(mut encrypted) => {
            let ghost c = encrypted@;
            let mut i: usize = 0;
            while i < nonce.len()
                invariant
                    i <= nonce@.len(),
                    encrypted@ == c + nonce@.subrange(0, i as int),
                decreases nonce@.len() - i,
            {
                encrypted.push(nonce[i]);
                i = i + 1;
                proof {
                    assert(encrypted@ =~= c + nonce@.subrange(0, i as int));
                }
            }
            proof {
                assert(nonce@.subrange(0, nonce@.len() as int) =~= nonce@);
                assert(sealed_as(key@, nonce@, bytes@, encrypted@));
            }
            Ok(encrypted)
        },
    }
}

/// Decrypt what [`encrypt`] made: the last bytes are the nonce. Data that
/// is too short to hold a nonce, or does not authenticate, is refused. Data
/// that [`encrypt`] made from a message decrypts to that message.
pub fn decrypt(key: &EncryptionKey, bytes: &[u8]) -> (r: Result<Vec<u8>, String>)
    ensures
        match decrypt_spec(key@, bytes@) {
            Some(p) => r matches Ok(v) && v@ == p,
            None => r is Err,
        },
        forall|p: Seq<u8>| encrypts(key@, p, bytes@) ==> (r matches Ok(v) && v@ == p),
        r matches Err(m) ==> m@ == (if bytes@.len() < NONCE_LEN {
            "Data is not large enough"@
        } else {
            "aead::Error"@
        }),
{
    proof {
        use_type_invariant(key);
    }
    if bytes.len() < NONCE_LEN {
        proof {
            assert forall|p: Seq<u8>| !encrypts(key@, p, bytes@) by {
                if encrypts(key@, p, bytes@) {
                    let n = choose|nonce: Seq<u8>| nonce.len() == NONCE_LEN && #[trigger] sealed_as(key@, nonce, p, bytes@);
                }
            }
        }
        return Err("Data is not large enough".to_owned());
    }
    let data_len = bytes.len() - NONCE_LEN;
    let nonce = copy_range(bytes, data_len, bytes.len());
    let cipher = copy_range(bytes, 0, data_len);
    let res = chacha_open(key.bytes.as_slice(), nonce.as_slice(), cipher.as_slice());
    proof {
        assert forall|p: Seq<u8>| encrypts(key@, p, bytes@) implies aead_seal(key@, nonce@, p) == Some(cipher@) by {
            let n = choose|nonce: Seq<u8>| nonce.len() == NONCE_LEN && #[trigger] sealed_as(key@, nonce, p, bytes@);
            let c = aead_seal(key@, n, p)->Some_0;
            assert(bytes@.subrange(data_len as int, bytes@.len() as int) =~= n);
            assert(bytes@.subrange(0, data_len as int) =~= c);
        }
    }
    match res {
        Some(v) => Ok(v),
        None => Err("aead::Error".to_owned()),
    }
}

/// Abstracts the encryption of data.
pub trait Encryption {
    fn encrypt(&self, data: &[u8]) -> Result<Vec<u8>, String>;

    fn decrypt(&self, data: &[u8]) -> Result<Vec<u8>, String>;
}

/// Default encryption and decryption, with ChaCha20-Poly1305.
#[derive(Debug)]
pub struct DefaultEncryption {
    key: EncryptionKey,
}

impl DefaultEncryption {
    /// The key used.
    pub closed spec fn key_view(&self) -> Seq<u8> {
        self.key@
    }

    pub fn new(key: EncryptionKey) -> (r: Self)
        ensures
            r.key_view() == key@,
    {
        DefaultEncryption { key }
    }
}

impl Encryption for DefaultEncryption {
    fn encrypt(&self, data: &[u8]) -> (r: Result<Vec<u8>, String>)
        ensures
            data@.len() == 0 ==> r is Err,
            data@.len() > 0 && data@.len() / 64 < 0xffff_ffff ==> r is Ok,
            r matches Ok(e) ==> encrypts(self.key_view(), data@, e@),
    {
        encrypt(&self.key, data)
    }

    fn decrypt(&self, data: &[u8]) -> (r: Result<Vec<u8>, String>)
        ensures
            match decrypt_spec(self.key_view(), data@) {
                Some(p) => r matches Ok(v) && v@ == p,
                None => r is Err,
            },
            forall|p: Seq<u8>| encrypts(self.key_view(), p, data@) ==> (r matches Ok(v) && v@ == p),
    {
        decrypt(&self.key, data)
    }
}

} // verus!
