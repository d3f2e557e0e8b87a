//! The vault: its entries, its file format and the sealing of its contents.
use vstd::prelude::*;
use vstd::string::*;

use crate::crypto::{
    aes256gcm_decrypt, aes256gcm_encrypt, aes256gcm_open, aes256gcm_seal, argon2id_derive,
    argon2id_key, base64_decode, base64_decode_text, base64_encode, base64_encode_bytes,
    random_bytes, AES_GCM_MAX_PLAINTEXT, ARGON2_MAX_PASSWORD,
};

verus! {

/// One saved login: a service, the account on it and its secret.
#[derive(Debug)]
pub struct Entry {
    pub service: String,
    pub username: String,
    pub password: String,
    pub notes: Option<String>,
    pub updated_at: u64,
}

/// The decrypted contents of a vault.
#[derive(Debug)]
pub struct VaultData {
    pub entries: Vec<Entry>,
}

/// A vault opened with its master password: the key-derivation salt it was
/// sealed with and its contents.
#[derive(Debug)]
pub struct UnlockedVault {
    pub salt: Vec<u8>,
    pub data: VaultData,
}

impl Entry {
    /// A copy of this entry.
    pub fn duplicate(&self) -> (r: Entry)
        ensures
            r == *self,
    {
        let notes = match &self.notes {
            Some(n) => Some(n.clone()),
            None => None,
        };
        Entry {
            service: self.service.clone(),
            username: self.username.clone(),
            password: self.password.clone(),
            notes,
            updated_at: self.updated_at,
        }
    }
}

impl Default for VaultData {
    /// An empty vault.
    fn default() -> (r: VaultData)
        ensures
            r.entries@.len() == 0,
    {
        VaultData { entries: Vec::new() }
    }
}

/// Version of the vault file format.
pub const FILE_VERSION: u8 = 1;

/// Length in bytes of the key-derivation salt.
pub const SALT_LEN: usize = 16;

/// Length in bytes of the AES-GCM nonce.
pub const NONCE_LEN: usize = 12;

/// Length in bytes of the derived encryption key.
pub const KEY_LEN: usize = 32;

/// Name of the key-derivation algorithm recorded in vault files.
pub open spec fn kdf_algorithm() -> Seq<char> {
    seq!['a', 'r', 'g', 'o', 'n', '2', 'i', 'd']
}

/// The key-derivation settings stored in a vault file.
#[derive(Debug)]
pub struct KdfConfig {
    pub algorithm: String,
    /// Base64 text of the salt.
    pub salt: String,
}

/// The sealed contents stored in a vault file.
#[derive(Debug)]
pub struct EncryptedBlob {
    /// Base64 text of the nonce.
    pub nonce: String,
    /// Base64 text of the sealed plaintext.
    pub ciphertext: String,
}

/// A vault file: the format version, the key derivation and the sealed
/// contents.
#[derive(Debug)]
pub struct VaultFile {
    pub version: u8,
    pub kdf: KdfConfig,
    pub data: EncryptedBlob,
}

/// What a vault file says, as plain values.
pub struct VaultFileView {
    pub version: u8,
    pub algorithm: Seq<char>,
    pub salt: Seq<char>,
    pub nonce: Seq<char>,
    pub ciphertext: Seq<char>,
}

impl View for VaultFile {
    type V = VaultFileView;

    open spec fn view(&self) -> VaultFileView {
        VaultFileView {
            version: self.version,
            algorithm: self.kdf.algorithm@,
            salt: self.kdf.salt@,
            nonce: self.data.nonce@,
            ciphertext: self.data.ciphertext@,
        }
    }
}

/// What opening a vault file gives: its salt and its decrypted contents,
/// still encoded.
#[derive(Debug)]
pub struct OpenedVault {
    pub salt: Vec<u8>,
    pub plaintext: Vec<u8>,
}

/// Why a vault could not be sealed or opened.
#[derive(Debug)]
pub enum VaultError {
    /// The salt handed to sealing is not `SALT_LEN` bytes long.
    SaltSize,
    /// The file has a format version other than `FILE_VERSION`.
    UnsupportedVersion(u8),
    /// The file names a key-derivation algorithm other than Argon2id.
    UnsupportedKdf(String),
    /// The salt text is not Base64.
    InvalidSaltEncoding(base64::DecodeError),
    /// The stored salt is not `SALT_LEN` bytes long.
    InvalidSaltLength,
    /// The nonce text is not Base64.
    InvalidNonceEncoding(base64::DecodeError),
    /// The stored nonce is not `NONCE_LEN` bytes long.
    InvalidNonceLength,
    /// The ciphertext text is not Base64.
    InvalidCiphertextEncoding(base64::DecodeError),
    /// Argon2 refused the password (it is too long).
    KeyDerivation(argon2::Error),
    /// The contents are too large to encrypt.
    Encryption,
    /// The contents do not authenticate: a wrong password or a damaged file.
    Decryption,
}

/// The file that sealing `plaintext` with a password (as UTF-8 bytes), a
/// salt and a nonce produces.
pub open spec fn sealed_file(
    password: Seq<u8>,
    salt: Seq<u8>,
    nonce: Seq<u8>,
    plaintext: Seq<u8>,
) -> VaultFileView {
    VaultFileView {
        version: FILE_VERSION,
        algorithm: kdf_algorithm(),
        salt: base64_encode(salt),
        nonce: base64_encode(nonce),
        ciphertext: base64_encode(
            aes256gcm_seal(argon2id_key(password, salt), nonce, plaintext),
        ),
    }
}

/// Sealing succeeds for a salt of `SALT_LEN` bytes, a password that Argon2
/// takes and contents that AES-GCM takes.
pub open spec fn can_seal(password: Seq<u8>, salt: Seq<u8>, plaintext: Seq<u8>) -> bool {
    &&& salt.len() == SALT_LEN
    &&& password.len() <= ARGON2_MAX_PASSWORD
    &&& plaintext.len() <= AES_GCM_MAX_PLAINTEXT
}

/// Seals `plaintext` under the key derived from `master_password` and
/// `salt`, with the given nonce, into a vault file.
pub fn seal_with_nonce(master_password: &str, salt: &[u8], nonce: &[u8], plaintext: &[u8]) -> (r:
    Result<VaultFile, VaultError>)
    requires
        nonce@.len() == NONCE_LEN,
    ensures
        salt@.len() != SALT_LEN ==> r matches Err(VaultError::SaltSize),
        salt@.len() == SALT_LEN && master_password.spec_bytes().len() > ARGON2_MAX_PASSWORD ==> r
            matches Err(VaultError::KeyDerivation(_)),
        salt@.len() == SALT_LEN && master_password.spec_bytes().len() <= ARGON2_MAX_PASSWORD
            && plaintext@.len() > AES_GCM_MAX_PLAINTEXT ==> r matches Err(VaultError::Encryption),
        (r is Ok) == can_seal(master_password.spec_bytes(), salt@, plaintext@),
        r matches Ok(file) ==> file@ == sealed_file(
            master_password.spec_bytes(),
            salt@,
            nonce@,
            plaintext@,
        ),
{
    if salt.len() != SALT_LEN {
        return Err(VaultError::SaltSize);
    }
    let key = match argon2id_derive(master_password.as_bytes(), salt) {
        Ok(key) => key,
        Err(e) => {
            return Err(VaultError::KeyDerivation(e));
        },
    };
    let sealed = match aes256gcm_encrypt(key.as_slice(), nonce, plaintext) {
        Ok(sealed) => sealed,
        Err(_) => {
            return Err(VaultError::Encryption);
        },
    };
    let algorithm = String::from_str("argon2id");
    proof {
        reveal_strlit("argon2id");
    }
    assert(algorithm@ =~= kdf_algorithm());
    Ok(
        VaultFile {
            version: FILE_VERSION,
            kdf: KdfConfig { algorithm, salt: base64_encode_bytes(salt) },
            data: EncryptedBlob {
                nonce: base64_encode_bytes(nonce),
                ciphertext: base64_encode_bytes(sealed.as_slice()),
            },
        },
    )
}

/// Seals `plaintext` under the key derived from `master_password` and
/// `salt`, with a fresh random nonce, into a vault file.
pub fn seal(master_password: &str, salt: &[u8], plaintext: &[u8]) -> (r: Result<
    VaultFile,
    VaultError,
>)
    ensures
        salt@.len() != SALT_LEN ==> r matches Err(VaultError::SaltSize),
        salt@.len() == SALT_LEN && master_password.spec_bytes().len() > ARGON2_MAX_PASSWORD ==> r
            matches Err(VaultError::KeyDerivation(_)),
        salt@.len() == SALT_LEN && master_password.spec_bytes().len() <= ARGON2_MAX_PASSWORD
            && plaintext@.len() > AES_GCM_MAX_PLAINTEXT ==> r matches Err(VaultError::Encryption),
        (r is Ok) == can_seal(master_password.spec_bytes(), salt@, plaintext@),
        r matches Ok(file) ==> exists|nonce: Seq<u8>|
            nonce.len() == NONCE_LEN && file@ == sealed_file(
                master_password.spec_bytes(),
                salt@,
                nonce,
                plaintext@,
            ),
{
    let nonce = random_bytes(NONCE_LEN);
    seal_with_nonce(master_password, salt, nonce.as_slice(), plaintext)
}

/// A fresh random salt for a new vault.
pub fn fresh_salt() -> (salt: Vec<u8>)
    ensures
        salt@.len() == SALT_LEN,
{
    random_bytes(SALT_LEN)
}

/// The file names the current format version and Argon2id.
pub open spec fn header_ok(f: VaultFileView) -> bool {
    f.version == FILE_VERSION && f.algorithm == kdf_algorithm()
}

/// The stored salt decodes to `SALT_LEN` bytes.
pub open spec fn salt_ok(f: VaultFileView) -> bool {
    base64_decode(f.salt) matches Some(s) && s.len() == SALT_LEN
}

/// The stored nonce decodes to `NONCE_LEN` bytes.
pub open spec fn nonce_ok(f: VaultFileView) -> bool {
    base64_decode(f.nonce) matches Some(n) && n.len() == NONCE_LEN
}

/// The decrypted contents of a well-formed file under a password, or
/// nothing when they do not authenticate.
pub open spec fn opened_plaintext(f: VaultFileView, password: Seq<u8>) -> Option<Seq<u8>> {
    aes256gcm_open(
        argon2id_key(password, base64_decode(f.salt)->0),
        base64_decode(f.nonce)->0,
        base64_decode(f.ciphertext)->0,
    )
}

/// Opens a vault file with `master_password`: checks the format version and
/// the key-derivation algorithm, decodes the salt, nonce and ciphertext,
/// derives the key and decrypts. Whatever `seal` wrote with the same
/// password opens to the salt and contents it was sealed with.
pub fn unseal(file: &VaultFile, master_password: &str) -> (r: Result<OpenedVault, VaultError>)
    ensures
        ({
            let f = file@;
            let pw = master_password.spec_bytes();
            &&& f.version != FILE_VERSION ==> (r matches Err(VaultError::UnsupportedVersion(v)) && v
                == f.version)
            &&& f.version == FILE_VERSION && f.algorithm != kdf_algorithm() ==> (r matches Err(
                VaultError::UnsupportedKdf(a),
            ) && a@ == f.algorithm)
            &&& header_ok(f) && base64_decode(f.salt) is None ==> (r matches Err(VaultError::InvalidSaltEncoding(_)))
            &&& header_ok(f) && base64_decode(f.salt) is Some && !salt_ok(f) ==> (r matches Err(VaultError::InvalidSaltLength))
            &&& header_ok(f) && salt_ok(f) && base64_decode(f.nonce) is None ==> (r matches Err(VaultError::InvalidNonceEncoding(_)))
            &&& header_ok(f) && salt_ok(f) && base64_decode(f.nonce) is Some && !nonce_ok(f)
                ==> (r matches Err(VaultError::InvalidNonceLength))
            &&& header_ok(f) && salt_ok(f) && nonce_ok(f) && base64_decode(f.ciphertext) is None
                ==> (r matches Err(VaultError::InvalidCiphertextEncoding(_)))
            &&& header_ok(f) && salt_ok(f) && nonce_ok(f) && base64_decode(f.ciphertext) is Some
                && pw.len() > ARGON2_MAX_PASSWORD ==> (r matches Err(VaultError::KeyDerivation(_)))
            &&& header_ok(f) && salt_ok(f) && nonce_ok(f) && base64_decode(f.ciphertext) is Some
                && pw.len() <= ARGON2_MAX_PASSWORD && opened_plaintext(f, pw) is None ==> (r matches Err(VaultError::Decryption))
            &&& (r matches Ok(o) ==> header_ok(f) && salt_ok(f) && nonce_ok(f) && base64_decode(
                f.ciphertext,
            ) is Some && pw.len() <= ARGON2_MAX_PASSWORD && o.salt@ == base64_decode(f.salt)->0
                && opened_plaintext(f, pw) == Some(o.plaintext@))
            &&& forall|salt: Seq<u8>, nonce: Seq<u8>, plaintext: Seq<u8>|
                can_seal(pw, salt, plaintext) && nonce.len() == NONCE_LEN && f == #[trigger] sealed_file(
                    pw,
                    salt,
                    nonce,
                    plaintext,
                ) ==> (r matches Ok(o) && o.salt@ == salt && o.plaintext@ == plaintext)
        }),
{
    if file.version != FILE_VERSION {
        return Err(VaultError::UnsupportedVersion(file.version));
    }
    let expected = String::from_str("argon2id");
    proof {
        reveal_strlit("argon2id");
    }
    assert(expected@ =~= kdf_algorithm());
    if file.kdf.algorithm != expected {
        return Err(VaultError::UnsupportedKdf(file.kdf.algorithm.clone()));
    }
    let salt = match base64_decode_text(file.kdf.salt.as_str()) {
        Ok(salt) => salt,
        Err(e) => {
            return Err(VaultError::InvalidSaltEncoding(e));
        },
    };
    if salt.len() != SALT_LEN {
        return Err(VaultError::InvalidSaltLength);
    }
    let nonce = match base64_decode_text(file.data.nonce.as_str()) {
        Ok(nonce) => nonce,
        Err(e) => {
            return Err(VaultError::InvalidNonceEncoding(e));
        },
    };
    if nonce.len() != NONCE_LEN {
        return Err(VaultError::InvalidNonceLength);
    }
    let ciphertext = match base64_decode_text(file.data.ciphertext.as_str()) {
        Ok(ciphertext) => ciphertext,
        Err(e) => {
            return Err(VaultError::InvalidCiphertextEncoding(e));
        },
    };
    let key = match argon2id_derive(master_password.as_bytes(), salt.as_slice()) {
        Ok(key) => key,
        Err(e) => {
            return Err(VaultError::KeyDerivation(e));
        },
    };
    let plaintext = match aes256gcm_decrypt(key.as_slice(), nonce.as_slice(), ciphertext.as_slice()) {
        Ok(plaintext) => plaintext,
        Err(_) => {
            return Err(VaultError::Decryption);
        },
    };
    Ok(OpenedVault { salt, plaintext })
}

} // verus!
