//! Password-based encryption of credential records.
//!
//! A key is derived from the user's password and a random salt, the
//! serialized credentials are sealed with it under a random nonce, and the
//! ciphertext, nonce and salt travel base64-encoded. The outside
//! cryptographic calls stand behind trusted wrappers whose results are
//! named: verification rests on their stated determinism and round trips.

use vstd::prelude::*;
use vstd::utf8::{decode_utf8, encode_utf8, valid_utf8};
use aes_gcm::aead::{Aead, KeyInit, OsRng};
use aes_gcm::{Aes256Gcm, Key, Nonce};
use argon2::password_hash::rand_core::RngCore;
use argon2::password_hash::SaltString;
use argon2::{Argon2, PasswordHasher};
use base64::engine::general_purpose;
use base64::Engine as _;
use crate::types::DatabaseError;

verus! {

/// Encrypted connection data safe to store at rest: every field base64 or
/// plain text, only `name` readable without the password.
#[derive(Debug, Clone)]
pub struct EncryptedConnection {
    pub encrypted_data: String,
    pub nonce: String,
    pub salt: String,
    pub name: String,
}

#[verifier::ext_equal]
pub ghost struct EncryptedConnectionModel {
    pub encrypted_data: Seq<char>,
    pub nonce: Seq<char>,
    pub salt: Seq<char>,
    pub name: Seq<char>,
}

impl View for EncryptedConnection {
    type V = EncryptedConnectionModel;

    open spec fn view(&self) -> EncryptedConnectionModel {
        EncryptedConnectionModel {
            encrypted_data: self.encrypted_data@,
            nonce: self.nonce@,
            salt: self.salt@,
            name: self.name@,
        }
    }
}

/// Whether key derivation accepts this password/salt pair.
pub uninterp spec fn argon2_accepts(password: Seq<u8>, salt: Seq<char>) -> bool;

/// The derived hash for an accepted password/salt pair.
pub uninterp spec fn argon2_hash_of(password: Seq<u8>, salt: Seq<char>) -> Seq<u8>;

/// Relies on argon2's `PasswordHasher::hash_password` with default
/// parameters, on a salt parsed by `SaltString::from_b64`: whether the two
/// calls succeed, and the hash they produce, are deterministic functions of
/// the password bytes and the salt text alone.
#[verifier::external_body]
fn argon2_derive(password: &[u8], salt: &str) -> (r: Option<Vec<u8>>)
    ensures
        r is Some <==> argon2_accepts(password@, salt@),
        r matches Some(h) ==> h@ == argon2_hash_of(password@, salt@),
{
    let salt = match SaltString::from_b64(salt) {
        Ok(s) => s,
        Err(_) => return None,
    };
    let hash = match Argon2::default().hash_password(password, &salt) {
        Ok(h) => h,
        Err(_) => return None,
    };
    hash.hash.map(|output| output.as_bytes().to_vec())
}

/// The AES-256-GCM ciphertext (with appended tag) for a key, nonce and
/// plaintext.
pub uninterp spec fn aes_ciphertext_of(key: Seq<u8>, nonce: Seq<u8>, plaintext: Seq<u8>) -> Seq<
    u8,
>;

/// The plaintext AES-256-GCM decryption recovers from a key, nonce and
/// ciphertext, where it authenticates.
pub uninterp spec fn aes_plaintext_of(key: Seq<u8>, nonce: Seq<u8>, ciphertext: Seq<u8>) -> Option<
    Seq<u8>,
>;

/// Relies on aes_gcm's `Aead::encrypt` for AES-256-GCM: the ciphertext is a
/// deterministic function of key, nonce and plaintext, and decrypting it
/// with the same key and nonce gives the plaintext back.
#[verifier::external_body]
fn aes_encrypt(key: &[u8], nonce: &[u8], plaintext: &[u8]) -> (r: Option<Vec<u8>>)
    requires
        key@.len() == 32,
        nonce@.len() == 12,
    ensures
        r matches Some(ct) ==> ct@ == aes_ciphertext_of(key@, nonce@, plaintext@)
            && aes_plaintext_of(key@, nonce@, ct@) == Some(plaintext@),
{
    let cipher = Aes256Gcm::new(Key::<Aes256Gcm>::from_slice(key));
    cipher.encrypt(Nonce::from_slice(nonce), plaintext).ok()
}

/// Relies on aes_gcm's `Aead::decrypt` for AES-256-GCM: whether the
/// ciphertext authenticates, and the plaintext it opens to, are
/// deterministic functions of key, nonce and ciphertext.
#[verifier::external_body]
fn aes_decrypt(key: &[u8], nonce: &[u8], ciphertext: &[u8]) -> (r: Option<Vec<u8>>)
    requires
        key@.len() == 32,
        nonce@.len() == 12,
    ensures
        r is Some <==> aes_plaintext_of(key@, nonce@, ciphertext@) is Some,
        r matches Some(pt) ==> Some(pt@) == aes_plaintext_of(key@, nonce@, ciphertext@),
{
    let cipher = Aes256Gcm::new(Key::<Aes256Gcm>::from_slice(key));
    cipher.decrypt(Nonce::from_slice(nonce), ciphertext).ok()
}

/// The base64 text of a byte string (standard alphabet, padded).
pub uninterp spec fn b64_of(bytes: Seq<u8>) -> Seq<char>;

/// The bytes base64 text decodes to, where it is well-formed.
pub uninterp spec fn b64_decoded(s: Seq<char>) -> Option<Seq<u8>>;

/// Relies on base64's standard engine `encode`: deterministic, and its
/// output decodes back to the input bytes.
#[verifier::external_body]
fn b64_encode(bytes: &[u8]) -> (r: String)
    ensures
        r@ == b64_of(bytes@),
        b64_decoded(r@) == Some(bytes@),
{
    general_purpose::STANDARD.encode(bytes)
}

/// Relies on base64's standard engine `decode`: success and result are
/// deterministic functions of the input text.
#[verifier::external_body]
fn b64_decode(s: &str) -> (r: Option<Vec<u8>>)
    ensures
        r is Some <==> b64_decoded(s@) is Some,
        r matches Some(b) ==> Some(b@) == b64_decoded(s@),
{
    general_purpose::STANDARD.decode(s).ok()
}

/// Relies on password_hash's `SaltString::generate` over the operating
/// system's randomness; nothing is assumed of the value produced.
#[verifier::external_body]
fn generate_salt() -> (r: String)
{
    SaltString::generate(&mut OsRng).as_str().to_string()
}

/// Relies on rand_core's `OsRng::fill_bytes`: twelve bytes from the
/// operating system's randomness; nothing is assumed of their values.
#[verifier::external_body]
fn generate_nonce() -> (r: Vec<u8>)
    ensures
        r@.len() == 12,
{
    let mut bytes = [0u8; 12];
    OsRng.fill_bytes(&mut bytes);
    bytes.to_vec()
}

/// Relies on `String::from_utf8`: succeeds exactly on valid UTF-8 and
/// decodes it.
#[verifier::external_body]
fn utf8_to_string(bytes: Vec<u8>) -> (r: Option<String>)
    ensures
        r is Some <==> valid_utf8(bytes@),
        r matches Some(s) ==> s@ == decode_utf8(bytes@),
{
    String::from_utf8(bytes).ok()
}

/// The 32-byte encryption key derived from a password and a salt, where
/// derivation succeeds and yields at least 32 bytes.
pub open spec fn spec_derive_key(password: Seq<char>, salt: Seq<char>) -> Option<Seq<u8>> {
    let pw = encode_utf8(password);
    if argon2_accepts(pw, salt) && argon2_hash_of(pw, salt).len() >= 32 {
        Some(argon2_hash_of(pw, salt).take(32))
    } else {
        None
    }
}

/// What decrypting an encrypted connection with a password yields: the
/// credentials text where key derivation, both base64 decodings, the
/// twelve-byte nonce shape, authentication and UTF-8 decoding all go
/// through, and nothing otherwise.
pub open spec fn spec_decrypt(ec: EncryptedConnectionModel, password: Seq<char>) -> Option<
    Seq<char>,
> {
    match spec_derive_key(password, ec.salt) {
        None => None,
        Some(key) => match b64_decoded(ec.encrypted_data) {
            None => None,
            Some(ciphertext) => match b64_decoded(ec.nonce) {
                None => None,
                Some(nonce) => if nonce.len() == 12 {
                    match aes_plaintext_of(key, nonce, ciphertext) {
                        None => None,
                        Some(plaintext) => if valid_utf8(plaintext) {
                            Some(decode_utf8(plaintext))
                        } else {
                            None
                        },
                    }
                } else {
                    None
                },
            },
        },
    }
}

/// Encrypts and decrypts credential records with a user password.
pub struct EncryptionService;

impl EncryptionService {
    /// The 32-byte key for this password and salt, or an encryption error
    /// when derivation fails or the hash is too short.
    fn derive_key(password: &str, salt_str: &str) -> (r: Result<Vec<u8>, DatabaseError>)
        ensures
            match r {
                Ok(k) => spec_derive_key(password@, salt_str@) == Some(k@),
                Err(e) => spec_derive_key(password@, salt_str@) is None && e matches
                    DatabaseError::EncryptionError(_),
            },
    {
        let hash = match argon2_derive(password.as_bytes(), salt_str) {
            Some(h) => h,
            None => {
                return Err(
                    DatabaseError::EncryptionError(String::from_str("Key derivation failed")),
                );
            },
        };
        if hash.len() < 32 {
            return Err(DatabaseError::EncryptionError(String::from_str("Hash too short")));
        }
        let mut key: Vec<u8> = Vec::new();
        let mut i: usize = 0;
        while i < 32
            invariant
                i <= 32,
                hash@.len() >= 32,
                key@ == hash@.take(i as int),
            decreases 32 - i,
        {
            key.push(hash[i]);
            proof {
                assert(key@ =~= hash@.take(i + 1));
            }
            i = i + 1;
        }
        proof {
            assert(key@ == hash@.take(32));
        }
        Ok(key)
    }

    /// Encrypt a credentials text with a password: fresh salt and nonce,
    /// everything base64-encoded. Whatever salt and nonce were drawn,
    /// decrypting the result with the same password gives the text back.
    pub fn encrypt(credentials_json: &str, password: &str, connection_name: &str) -> (r: Result<
        EncryptedConnection,
        DatabaseError,
    >)
        ensures
            match r {
                Ok(ec) => ec@.name == connection_name@ && spec_decrypt(ec@, password@) == Some(
                    credentials_json@,
                ),
                Err(e) => e matches DatabaseError::EncryptionError(_),
            },
    {
        let salt = generate_salt();
        let key = match Self::derive_key(password, salt.as_str()) {
            Ok(k) => k,
            Err(e) => {
                return Err(e);
            },
        };
        let nonce = generate_nonce();
        let plaintext = credentials_json.as_bytes();
        proof {
            vstd::utf8::encode_utf8_valid_utf8(credentials_json@);
            vstd::utf8::encode_utf8_decode_utf8(credentials_json@);
        }
        let ciphertext = match aes_encrypt(key.as_slice(), nonce.as_slice(), plaintext) {
            Some(ct) => ct,
            None => {
                return Err(
                    DatabaseError::EncryptionError(String::from_str("Encryption failed")),
                );
            },
        };
        Ok(
            EncryptedConnection {
                encrypted_data: b64_encode(ciphertext.as_slice()),
                nonce: b64_encode(nonce.as_slice()),
                salt,
                name: String::from_str(connection_name),
            },
        )
    }

    /// Decrypt an encrypted connection with a password: `Ok` exactly when
    /// the stored data decrypts under this password, and then the
    /// credentials text.
    pub fn decrypt(encrypted_conn: &EncryptedConnection, password: &str) -> (r: Result<
        String,
        DatabaseError,
    >)
        ensures
            match r {
                Ok(s) => spec_decrypt(encrypted_conn@, password@) == Some(s@),
                Err(e) => spec_decrypt(encrypted_conn@, password@) is None && e matches
                    DatabaseError::EncryptionError(_),
            },
    {
        let key = match Self::derive_key(password, encrypted_conn.salt.as_str()) {
            Ok(k) => k,
            Err(e) => {
                return Err(e);
            },
        };
        let ciphertext = match b64_decode(encrypted_conn.encrypted_data.as_str()) {
            Some(ct) => ct,
            None => {
                return Err(
                    DatabaseError::EncryptionError(String::from_str("Invalid encrypted data")),
                );
            },
        };
        let nonce = match b64_decode(encrypted_conn.nonce.as_str()) {
            Some(n) => n,
            None => {
                return Err(DatabaseError::EncryptionError(String::from_str("Invalid nonce")));
            },
        };
        if nonce.len() != 12 {
            return Err(DatabaseError::EncryptionError(String::from_str("Invalid nonce")));
        }
        let plaintext = match aes_decrypt(key.as_slice(), nonce.as_slice(), ciphertext.as_slice()) {
            Some(pt) => pt,
            None => {
                return Err(
                    DatabaseError::EncryptionError(
                        String::from_str("Decryption failed (wrong password?)"),
                    ),
                );
            },
        };
        match utf8_to_string(plaintext) {
            Some(s) => Ok(s),
            None => Err(DatabaseError::EncryptionError(String::from_str("Invalid UTF-8"))),
        }
    }

    /// Whether this password decrypts the stored data.
    pub fn verify_password(encrypted_conn: &EncryptedConnection, password: &str) -> (r: bool)
        ensures
            r == (spec_decrypt(encrypted_conn@, password@) is Some),
    {
        Self::decrypt(encrypted_conn, password).is_ok()
    }
}

} // verus!
