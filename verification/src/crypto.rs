//! The cryptographic primitives the vault is sealed with: Argon2id key
//! derivation, AES-256-GCM, standard Base64 and the thread-local random
//! number generator. Each is a call into its crate with the contract that
//! the crate's source and documentation show.
use vstd::prelude::*;

use aes_gcm::aead::{Aead, KeyInit};
use aes_gcm::{Aes256Gcm, Key, Nonce};
use base64::engine::general_purpose::STANDARD;
use base64::Engine;
use rand::RngCore;

verus! {

/// Largest plaintext, in bytes, that AES-256-GCM seals (`aes_gcm::P_MAX`).
pub const AES_GCM_MAX_PLAINTEXT: u64 = 0x10_0000_0000u64;

/// Largest password, in bytes, that Argon2 takes (`argon2::MAX_PWD_LEN`).
pub const ARGON2_MAX_PASSWORD: u64 = 0xFFFF_FFFFu64;

/// The 32-byte key that Argon2id with the crate's default parameters
/// derives from a password and a salt.
pub uninterp spec fn argon2id_key(password: Seq<u8>, salt: Seq<u8>) -> Seq<u8>;

/// The AES-256-GCM sealing of a plaintext under a key and a nonce: the
/// ciphertext followed by the authentication tag.
pub uninterp spec fn aes256gcm_seal(key: Seq<u8>, nonce: Seq<u8>, plaintext: Seq<u8>) -> Seq<u8>;

/// The AES-256-GCM opening of a sealed message: its plaintext, or nothing
/// when the tag does not authenticate it under the key and nonce.
pub uninterp spec fn aes256gcm_open(key: Seq<u8>, nonce: Seq<u8>, sealed: Seq<u8>) -> Option<
    Seq<u8>,
>;

/// The standard, padded Base64 text of some bytes.
pub uninterp spec fn base64_encode(bytes: Seq<u8>) -> Seq<char>;

/// The bytes that a standard, padded Base64 text decodes to, or nothing when
/// the text is not valid Base64.
pub uninterp spec fn base64_decode(text: Seq<char>) -> Option<Seq<u8>>;

#[verifier::external_type_specification]
#[verifier::external_body]
pub struct ExArgon2Error(argon2::Error);

#[verifier::external_type_specification]
#[verifier::external_body]
pub struct ExAeadError(aes_gcm::Error);

#[verifier::external_type_specification]
#[verifier::external_body]
pub struct ExDecodeError(base64::DecodeError);

/// `argon2::Argon2::hash_password_into` with the default parameters
/// (Argon2id, version 0x13) into a 32-byte output. The crate's source fails
/// only on a password longer than `MAX_PWD_LEN` bytes or a salt shorter than
/// `MIN_SALT_LEN` (8) or longer than `MAX_SALT_LEN` bytes; otherwise the key
/// is the named Argon2id result.
#[verifier::external_body]
pub(crate) fn argon2id_derive(password: &[u8], salt: &[u8]) -> (r: Result<Vec<u8>, argon2::Error>)
    ensures
        (r is Ok) == (password@.len() <= ARGON2_MAX_PASSWORD && 8 <= salt@.len()
            <= 0xFFFF_FFFF),
        r matches Ok(key) ==> key@ == argon2id_key(password@, salt@) && key@.len() == 32,
{
    let mut key = vec![0u8; 32];
    argon2::Argon2::default().hash_password_into(password, salt, &mut key)?;
    Ok(key)
}

/// `Aead::encrypt` of `aes_gcm::Aes256Gcm` with no associated data. The
/// crate's source refuses only a plaintext longer than `P_MAX` bytes; the
/// result is the named sealing.
#[verifier::external_body]
pub(crate) fn aes256gcm_encrypt(key: &[u8], nonce: &[u8], plaintext: &[u8]) -> (r: Result<
    Vec<u8>,
    aes_gcm::Error,
>)
    requires
        key@.len() == 32,
        nonce@.len() == 12,
    ensures
        (r is Ok) == (plaintext@.len() <= AES_GCM_MAX_PLAINTEXT),
        r matches Ok(sealed) ==> sealed@ == aes256gcm_seal(key@, nonce@, plaintext@),
{
    Aes256Gcm::new(Key::<Aes256Gcm>::from_slice(key)).encrypt(Nonce::from_slice(nonce), plaintext)
}

/// `Aead::decrypt` of `aes_gcm::Aes256Gcm` with no associated data: the
/// named opening. As for any AEAD, opening what was sealed under the same
/// key and nonce gives the plaintext back.
#[verifier::external_body]
pub(crate) fn aes256gcm_decrypt(key: &[u8], nonce: &[u8], sealed: &[u8]) -> (r: Result<
    Vec<u8>,
    aes_gcm::Error,
>)
    requires
        key@.len() == 32,
        nonce@.len() == 12,
    ensures
        (r is Ok) == (aes256gcm_open(key@, nonce@, sealed@) is Some),
        r matches Ok(plain) ==> aes256gcm_open(key@, nonce@, sealed@) == Some(plain@),
        r is Err ==> forall|plain: Seq<u8>|
            plain.len() <= AES_GCM_MAX_PLAINTEXT ==> sealed@ != #[trigger] aes256gcm_seal(
                key@,
                nonce@,
                plain,
            ),
        r matches Ok(p) ==> forall|plain: Seq<u8>|
            plain.len() <= AES_GCM_MAX_PLAINTEXT && sealed@ == #[trigger] aes256gcm_seal(
                key@,
                nonce@,
                plain,
            ) ==> p@ == plain,
{
    Aes256Gcm::new(Key::<Aes256Gcm>::from_slice(key)).decrypt(Nonce::from_slice(nonce), sealed)
}

/// `Engine::encode` of `base64::engine::general_purpose::STANDARD`.
#[verifier::external_body]
pub(crate) fn base64_encode_bytes(bytes: &[u8]) -> (text: String)
    ensures
        text@ == base64_encode(bytes@),
{
    STANDARD.encode(bytes)
}

/// `Engine::decode` of `base64::engine::general_purpose::STANDARD`: the
/// named decoding, which gives back the bytes of any text that the same
/// engine encoded.
#[verifier::external_body]
pub(crate) fn base64_decode_text(text: &str) -> (r: Result<Vec<u8>, base64::DecodeError>)
    ensures
        (r is Ok) == (base64_decode(text@) is Some),
        r matches Ok(bytes) ==> base64_decode(text@) == Some(bytes@),
        r is Err ==> forall|bytes: Seq<u8>| text@ != #[trigger] base64_encode(bytes),
        r matches Ok(b) ==> forall|bytes: Seq<u8>|
            text@ == #[trigger] base64_encode(bytes) ==> b@ == bytes,
{
    STANDARD.decode(text)
}

/// `RngCore::fill_bytes` of `rand::thread_rng()` over `len` bytes. The
/// bytes are random: only their number is stated.
#[verifier::external_body]
pub(crate) fn random_bytes(len: usize) -> (bytes: Vec<u8>)
    ensures
        bytes@.len() == len,
{
    let mut bytes = vec![0u8; len];
    rand::thread_rng().fill_bytes(&mut bytes);
    bytes
}

} // verus!
