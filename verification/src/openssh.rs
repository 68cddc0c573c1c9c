//! Trusted boundary to the `ssh_key` crate.
//!
//! A private key value is opaque to the verifier, so this module models it
//! by its canonical OpenSSH text: `canon` gives, for each in-memory key, the
//! text that `PrivateKey::to_openssh` produces for it. The uninterpreted
//! functions below name what the `ssh_key` crate computes from that text; no
//! contract here states what any of them equals on given values, only how
//! the crate's calls relate to one another.

use vstd::prelude::*;

verus! {

#[verifier::external_type_specification]
#[verifier::external_body]
pub struct ExSshPrivateKey(ssh_key::private::PrivateKey);

/// An in-memory private key, held for the `ssh_key` crate.
pub struct SshKeyHandle {
    key: ssh_key::private::PrivateKey,
}

/// The canonical OpenSSH text of an in-memory key: the text that
/// `ssh_key::private::PrivateKey::to_openssh` encodes it to.
pub uninterp spec fn canon(k: SshKeyHandle) -> Seq<char>;

/// What parsing OpenSSH private key text yields: `None` when the text does
/// not parse, otherwise the canonical OpenSSH text of the parsed key.
pub uninterp spec fn parse_result(pem: Seq<char>) -> Option<Seq<char>>;

/// Whether the key with the given canonical text is passphrase-protected.
pub uninterp spec fn encrypted_of(canon_text: Seq<char>) -> bool;

/// What decrypting the key with the given canonical text under the given
/// password yields: `None` when decryption fails, otherwise the canonical
/// text of the decrypted key.
pub uninterp spec fn decrypt_result(canon_text: Seq<char>, password: Seq<char>) -> Option<
    Seq<char>,
>;

/// Whether the key with the given canonical text re-encodes to OpenSSH
/// private key text at all.
pub uninterp spec fn encodable_of(canon_text: Seq<char>) -> bool;

/// The public key text (authorized-keys form) of the key with the given
/// canonical text, when its encoding succeeds.
pub uninterp spec fn public_text_of(canon_text: Seq<char>) -> Option<Seq<char>>;

/// The modulus size, in bits, of the RSA key with the given canonical
/// text.
pub uninterp spec fn rsa_bits_of(canon_text: Seq<char>) -> usize;

/// The algorithm label of the key with the given canonical text.
pub uninterp spec fn algorithm_text_of(canon_text: Seq<char>) -> Seq<char>;

/// The SHA-256 fingerprint text of the key with the given canonical text.
pub uninterp spec fn fingerprint_text_of(canon_text: Seq<char>) -> Seq<char>;

/// The encoded public key bytes of the key with the given canonical text,
/// when their encoding succeeds.
pub uninterp spec fn public_bytes_of(canon_text: Seq<char>) -> Option<Seq<u8>>;

/// Relies on `ssh_key::private::PrivateKey::from_openssh`: parses
/// OpenSSH-formatted private key text, encrypted or not.
#[verifier::external_body]
pub(crate) fn parse_openssh(pem: &str) -> (r: Option<SshKeyHandle>)
    ensures
        r is Some <==> parse_result(pem@) is Some,
        r is Some ==> canon(r->0) == parse_result(pem@)->0,
{
    match ssh_key::private::PrivateKey::from_openssh(pem) {
        Ok(key) => Some(SshKeyHandle { key }),
        Err(_) => None,
    }
}

/// Relies on `ssh_key::private::PrivateKey::is_encrypted`: reports whether
/// the key's private material is passphrase-protected.
#[verifier::external_body]
pub(crate) fn is_encrypted(k: &SshKeyHandle) -> (r: bool)
    ensures
        r == encrypted_of(canon(*k)),
{
    k.key.is_encrypted()
}

/// Relies on `ssh_key::private::PrivateKey::decrypt`: derives a key from
/// the password and decrypts; fails on a wrong password and on a key that
/// is not encrypted.
#[verifier::external_body]
pub(crate) fn decrypt(k: &SshKeyHandle, password: &str) -> (r: Option<SshKeyHandle>)
    ensures
        r is Some <==> decrypt_result(canon(*k), password@) is Some,
        r is Some ==> canon(r->0) == decrypt_result(canon(*k), password@)->0,
{
    match k.key.decrypt(password.as_bytes()) {
        Ok(key) => Some(SshKeyHandle { key }),
        Err(_) => None,
    }
}

/// Relies on `ssh_key::private::PrivateKey::to_openssh`: encodes the key as
/// OpenSSH private key text, the same text this handle is modelled by, and
/// deterministically — whether it succeeds is a fact of the key alone. The
/// emitted text parses back, by `from_openssh`, to a key with the same
/// content (checkints, padding and comment are reproduced exactly), so its
/// canonical text is itself.
#[verifier::external_body]
pub(crate) fn encode_openssh(k: &SshKeyHandle) -> (r: Option<String>)
    ensures
        r is Some <==> encodable_of(canon(*k)),
        r is Some ==> r->0@ == canon(*k),
        r is Some ==> parse_result(canon(*k)) == Some(canon(*k)),
{
    match k.key.to_openssh(ssh_key::LineEnding::LF) {
        Ok(text) => Some(text.to_string()),
        Err(_) => None,
    }
}

/// Relies on `ssh_key::private::PrivateKey::public_key` and
/// `ssh_key::public::PublicKey::to_openssh`: encodes the corresponding
/// public key in authorized-keys form.
#[verifier::external_body]
pub(crate) fn public_key_text(k: &SshKeyHandle) -> (r: Option<String>)
    ensures
        r is Some <==> public_text_of(canon(*k)) is Some,
        r is Some ==> r->0@ == public_text_of(canon(*k))->0,
{
    match k.key.public_key().to_openssh() {
        Ok(text) => Some(text),
        Err(_) => None,
    }
}

/// Relies on `ssh_key::private::PrivateKey::public_key` and
/// `ssh_key::public::PublicKey::to_bytes`: the encoded public key bytes,
/// the identity under which the agent stores and looks up this key.
#[verifier::external_body]
pub(crate) fn public_key_bytes(k: &SshKeyHandle) -> (r: Option<Vec<u8>>)
    ensures
        r is Some <==> public_bytes_of(canon(*k)) is Some,
        r is Some ==> r->0@ == public_bytes_of(canon(*k))->0,
{
    match k.key.public_key().to_bytes() {
        Ok(bytes) => Some(bytes),
        Err(_) => None,
    }
}

/// Relies on `ssh_key::private::PrivateKey::algorithm` and
/// `ssh_key::Algorithm::as_str`: the algorithm identifier of the key.
#[verifier::external_body]
pub(crate) fn algorithm_text(k: &SshKeyHandle) -> (r: String)
    ensures
        r@ == algorithm_text_of(canon(*k)),
{
    k.key.algorithm().as_str().to_owned()
}

/// Relies on `ssh_key::private::PrivateKey::fingerprint` with the SHA-256
/// hash and on `ssh_key::Fingerprint`'s `Display`: a stable text identifier
/// of the public key.
#[verifier::external_body]
pub(crate) fn fingerprint_text(k: &SshKeyHandle) -> (r: String)
    ensures
        r@ == fingerprint_text_of(canon(*k)),
{
    k.key.fingerprint(ssh_key::HashAlg::Sha256).to_string()
}

/// Relies on `ssh_key::private::PrivateKey::random` with `Algorithm::Ed25519`
/// and on `rand_chacha::ChaCha8Rng::from_entropy`. The random source is
/// seeded from system entropy and aborts the process when no secure entropy
/// can be obtained, by design: a key from a degraded source must never be
/// produced. The key is random, so only what holds of every outcome is
/// stated: a fresh key is unencrypted and carries the Ed25519 algorithm
/// identifier.
#[verifier::external_body]
pub(crate) fn random_ed25519() -> (r: Option<SshKeyHandle>)
    ensures
        r is Some ==> algorithm_text_of(canon(r->0)) == "ssh-ed25519"@ && !encrypted_of(
            canon(r->0),
        ),
{
    let mut rng: rand_chacha::ChaCha8Rng = ssh_key::rand_core::SeedableRng::from_entropy();
    match ssh_key::private::PrivateKey::random(&mut rng, ssh_key::Algorithm::Ed25519) {
        Ok(key) => Some(SshKeyHandle { key }),
        Err(_) => None,
    }
}

/// Relies on `ssh_key::private::RsaKeypair::random` (a fresh keypair with a
/// modulus of exactly the requested size), `ssh_key::private::KeypairData::from`
/// and `ssh_key::private::PrivateKey::new` (an unencrypted key), with
/// `rand_chacha::ChaCha8Rng::from_entropy` as the random source (seeded from
/// system entropy, aborting when none is available). The key is random, so
/// only what holds of every outcome is stated: it is unencrypted, carries
/// the RSA algorithm identifier, and has the requested modulus size.
#[verifier::external_body]
pub(crate) fn random_rsa(bits: usize) -> (r: Option<SshKeyHandle>)
    ensures
        r is Some ==> algorithm_text_of(canon(r->0)) == "ssh-rsa"@ && rsa_bits_of(canon(r->0))
            == bits && !encrypted_of(canon(r->0)),
{
    let mut rng: rand_chacha::ChaCha8Rng = ssh_key::rand_core::SeedableRng::from_entropy();
    let keypair = match ssh_key::private::RsaKeypair::random(&mut rng, bits) {
        Ok(kp) => kp,
        Err(_) => return None,
    };
    match ssh_key::private::PrivateKey::new(
        ssh_key::private::KeypairData::from(keypair),
        "".to_string(),
    ) {
        Ok(key) => Some(SshKeyHandle { key }),
        Err(_) => None,
    }
}

} // verus!
