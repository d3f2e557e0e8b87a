use vault_nova::vault::{
    fresh_salt, seal, seal_with_nonce, unseal, EncryptedBlob, KdfConfig, VaultError, VaultFile,
    NONCE_LEN, SALT_LEN,
};

const CONTENTS: &[u8] = br#"{"entries":[{"service":"github","username":"alice","password":"secret-123","notes":"2fa enabled","updated_at":1}]}"#;

#[test]
fn sealed_vault_opens_with_its_password() {
    let salt = fresh_salt();
    assert_eq!(salt.len(), SALT_LEN);
    let file = seal("master-pass", &salt, CONTENTS).expect("vault should seal");
    assert_eq!(file.version, 1);
    assert_eq!(file.kdf.algorithm, "argon2id");
    let opened = unseal(&file, "master-pass").expect("vault should open");
    assert_eq!(opened.salt, salt);
    assert_eq!(opened.plaintext, CONTENTS);
}

#[test]
fn empty_contents_round_trip() {
    let salt = fresh_salt();
    let file = seal("master-pass", &salt, b"").expect("vault should seal");
    let opened = unseal(&file, "master-pass").expect("vault should open");
    assert!(opened.plaintext.is_empty());
}

#[test]
fn sealed_text_hides_the_contents() {
    let salt = [7u8; 16];
    let nonce = [9u8; 12];
    let file = seal_with_nonce("master-pass", &salt, &nonce, CONTENTS).expect("vault should seal");
    assert_eq!(file.kdf.salt, "BwcHBwcHBwcHBwcHBwcHBw==");
    assert_eq!(file.data.nonce, "CQkJCQkJCQkJCQkJ");
    assert!(!file.data.ciphertext.contains("github"));
    assert_ne!(file.data.ciphertext.as_bytes(), CONTENTS);
    let again = seal_with_nonce("master-pass", &salt, &nonce, CONTENTS).expect("vault should seal");
    assert_eq!(file.data.ciphertext, again.data.ciphertext);
}

#[test]
fn open_fails_with_wrong_password() {
    let salt = fresh_salt();
    let file = seal("master-pass", &salt, b"{\"entries\":[]}").expect("vault should seal");
    let result = unseal(&file, "wrong-pass");
    assert!(matches!(result, Err(VaultError::Decryption)));
}

#[test]
fn seal_refuses_a_salt_of_the_wrong_size() {
    assert!(matches!(seal("master-pass", &[1u8; 15], b"x"), Err(VaultError::SaltSize)));
    assert!(matches!(seal("master-pass", &[], b"x"), Err(VaultError::SaltSize)));
}

fn file_with(version: u8, algorithm: &str, salt: &str, nonce: &str, ciphertext: &str) -> VaultFile {
    VaultFile {
        version,
        kdf: KdfConfig { algorithm: algorithm.to_string(), salt: salt.to_string() },
        data: EncryptedBlob { nonce: nonce.to_string(), ciphertext: ciphertext.to_string() },
    }
}

#[test]
fn malformed_files_are_refused_in_order() {
    let salt = "AAAAAAAAAAAAAAAAAAAAAA==";
    let nonce = "AAAAAAAAAAAAAAAA";
    assert!(matches!(
        unseal(&file_with(2, "argon2id", salt, nonce, ""), "pw"),
        Err(VaultError::UnsupportedVersion(2))
    ));
    assert!(matches!(
        unseal(&file_with(1, "scrypt", salt, nonce, ""), "pw"),
        Err(VaultError::UnsupportedKdf(ref a)) if a == "scrypt"
    ));
    assert!(matches!(
        unseal(&file_with(1, "argon2id", "not base64!", nonce, ""), "pw"),
        Err(VaultError::InvalidSaltEncoding(_))
    ));
    assert!(matches!(
        unseal(&file_with(1, "argon2id", "AAAA", nonce, ""), "pw"),
        Err(VaultError::InvalidSaltLength)
    ));
    assert!(matches!(
        unseal(&file_with(1, "argon2id", salt, "??", ""), "pw"),
        Err(VaultError::InvalidNonceEncoding(_))
    ));
    assert!(matches!(
        unseal(&file_with(1, "argon2id", salt, "AAAA", ""), "pw"),
        Err(VaultError::InvalidNonceLength)
    ));
    assert!(matches!(
        unseal(&file_with(1, "argon2id", salt, nonce, "%%%"), "pw"),
        Err(VaultError::InvalidCiphertextEncoding(_))
    ));
    assert!(matches!(
        unseal(&file_with(1, "argon2id", salt, nonce, "AAAA"), "pw"),
        Err(VaultError::Decryption)
    ));
}

#[test]
fn tampered_ciphertext_does_not_open() {
    let salt = fresh_salt();
    let mut file = seal("master-pass", &salt, CONTENTS).expect("vault should seal");
    let mut text: Vec<char> = file.data.ciphertext.chars().collect();
    text[0] = if text[0] == 'A' { 'B' } else { 'A' };
    file.data.ciphertext = text.into_iter().collect();
    assert!(matches!(unseal(&file, "master-pass"), Err(VaultError::Decryption)));
    assert_eq!(NONCE_LEN, 12);
}
