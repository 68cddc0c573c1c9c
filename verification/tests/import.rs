use desktop_core::generator::generate_keypair;
use desktop_core::importer::import_key;
use desktop_core::keys::{KeyOpError, SSHKeyImportStatus};

use ssh_key::rand_core::SeedableRng;

fn encrypted_key_text(password: &str) -> (String, String) {
    let generated = generate_keypair("ed25519").expect("generation must succeed");
    let plain = ssh_key::private::PrivateKey::from_openssh(&generated.private_key)
        .expect("generated key must parse");
    let mut rng = rand_chacha::ChaCha8Rng::from_entropy();
    let encrypted = plain
        .encrypt(&mut rng, password.as_bytes())
        .expect("encryption must succeed");
    let text = encrypted
        .to_openssh(ssh_key::LineEnding::LF)
        .expect("encoding must succeed")
        .to_string();
    (text, generated.key_fingerprint)
}

#[test]
fn garbage_yields_parsing_error() {
    let result = import_key("definitely not an openssh key", "").expect("import must not fail");
    assert!(matches!(result.status, SSHKeyImportStatus::ParsingError));
    assert!(result.ssh_key.is_none());
}

#[test]
fn unencrypted_key_imports_without_password() {
    let generated = generate_keypair("ed25519").expect("generation must succeed");
    let result = import_key(&generated.private_key, "").expect("import must not fail");
    assert!(matches!(result.status, SSHKeyImportStatus::Success));
    let key = result.ssh_key.expect("success carries the key");
    assert_eq!(key.public_key, generated.public_key);
    assert_eq!(key.key_fingerprint, generated.key_fingerprint);
}

#[test]
fn unencrypted_key_ignores_a_password() {
    let generated = generate_keypair("ed25519").expect("generation must succeed");
    let with_password =
        import_key(&generated.private_key, "some password").expect("import must not fail");
    let without = import_key(&generated.private_key, "").expect("import must not fail");

    assert!(matches!(with_password.status, SSHKeyImportStatus::Success));
    assert!(matches!(without.status, SSHKeyImportStatus::Success));
    let a = with_password.ssh_key.expect("success carries the key");
    let b = without.ssh_key.expect("success carries the key");
    assert!(a.same_as(&b), "password must be ignored for an unencrypted key");
}

#[test]
fn encrypted_key_without_password_requires_one() {
    let (text, _) = encrypted_key_text("correct horse");
    let result = import_key(&text, "").expect("import must not fail");
    assert!(matches!(result.status, SSHKeyImportStatus::PasswordRequired));
    assert!(result.ssh_key.is_none());
}

#[test]
fn encrypted_key_with_wrong_password_is_rejected() {
    let (text, _) = encrypted_key_text("correct horse");
    let result = import_key(&text, "battery staple").expect("import must not fail");
    assert!(matches!(result.status, SSHKeyImportStatus::WrongPassword));
    assert!(result.ssh_key.is_none());
}

#[test]
fn encrypted_key_with_correct_password_succeeds_with_stable_fingerprint() {
    let (text, original_fingerprint) = encrypted_key_text("correct horse");
    let first = import_key(&text, "correct horse").expect("import must not fail");
    let second = import_key(&text, "correct horse").expect("import must not fail");

    assert!(matches!(first.status, SSHKeyImportStatus::Success));
    assert!(matches!(second.status, SSHKeyImportStatus::Success));
    let a = first.ssh_key.expect("success carries the key");
    let b = second.ssh_key.expect("success carries the key");
    assert_eq!(a.key_fingerprint, b.key_fingerprint);
    assert_eq!(a.key_fingerprint, original_fingerprint);
}

#[test]
fn generated_key_round_trips_through_import() {
    let generated = generate_keypair("ed25519").expect("generation must succeed");
    assert_eq!(generated.key_algorithm, "ed25519");
    let result = import_key(&generated.private_key, "ignored").expect("import must not fail");
    assert!(matches!(result.status, SSHKeyImportStatus::Success));
    let key = result.ssh_key.expect("success carries the key");
    assert_eq!(key.public_key, generated.public_key);
    assert_eq!(key.key_fingerprint, generated.key_fingerprint);
}

#[test]
fn two_generated_keys_differ() {
    let a = generate_keypair("ed25519").expect("generation must succeed");
    let b = generate_keypair("ed25519").expect("generation must succeed");
    assert_ne!(a.key_fingerprint, b.key_fingerprint);
    assert_ne!(a.private_key, b.private_key);
    assert!(!a.same_as(&b));
    assert!(a.same_as(&a));
}

#[test]
fn unknown_algorithm_is_rejected() {
    let err = generate_keypair("dsa1024").expect_err("unknown algorithm must be rejected");
    assert!(matches!(err, KeyOpError::UnsupportedAlgorithm));
    assert_eq!(err.message(), "Unsupported key algorithm");
}
