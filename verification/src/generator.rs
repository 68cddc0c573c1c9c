//! Key generation: produce a fresh keypair for a requested algorithm from a
//! cryptographically secure random source.
//!
//! The accepted algorithm names are an enumerated set: the fixed Ed25519
//! scheme and an RSA variant at one of three modulus sizes. Any other name
//! is a rejection, never a silent default.

use vstd::prelude::*;

use crate::importer::{
    assemble_key, import_canon_model, import_encodes, import_status_model, key_fields_model,
};
use crate::keys::{KeyOpError, SSHKey, SSHKeyImportStatus};
use crate::openssh::{
    algorithm_text_of, canon, encodable_of, encrypted_of, fingerprint_text_of, parse_result,
    public_text_of, random_ed25519, random_rsa, rsa_bits_of,
};
use crate::textutil::str_eq;

verus! {

/// The algorithm names generation accepts.
pub open spec fn supported_algorithm(alg: Seq<char>) -> bool {
    ||| alg == "ed25519"@
    ||| alg == "rsa2048"@
    ||| alg == "rsa3072"@
    ||| alg == "rsa4096"@
}

/// What holds of a generation's product under the requested label: its four
/// fields are the encodings of one fresh key with canonical text `c`; that
/// key is unencrypted, re-encodes, and its text parses back to itself, so
/// re-importing the private key text is owed a success with the same public
/// key and fingerprint; and the key is of the algorithm the label names —
/// Ed25519, or RSA with the requested modulus size.
pub open spec fn generated_key_matches(key: SSHKey, label: Seq<char>, c: Seq<char>) -> bool {
    &&& key_fields_model(key, c, label)
    &&& encodable_of(c)
    &&& !encrypted_of(c)
    &&& parse_result(c) == Some(c)
    &&& (label == "ed25519"@ ==> algorithm_text_of(c) == "ssh-ed25519"@)
    &&& (label == "rsa2048"@ ==> algorithm_text_of(c) == "ssh-rsa"@ && rsa_bits_of(c) == 2048)
    &&& (label == "rsa3072"@ ==> algorithm_text_of(c) == "ssh-rsa"@ && rsa_bits_of(c) == 3072)
    &&& (label == "rsa4096"@ ==> algorithm_text_of(c) == "ssh-rsa"@ && rsa_bits_of(c) == 4096)
}

/// Generate a fresh keypair for the requested algorithm.
///
/// An unrecognized algorithm name yields `UnsupportedAlgorithm`, and only
/// such a name does. On success the result is labelled with the requested
/// name and is a fresh key of the requested algorithm (and, for RSA, of
/// the requested modulus size) whose fields cohere, per
/// [`generated_key_matches`]. The key is random, so nothing further
/// relates it to the input; a failing generation or encoding call ends the
/// attempt with `GenerationFailed` or `EncodingFailed`.
pub fn generate_keypair(key_algorithm: &str) -> (r: Result<SSHKey, KeyOpError>)
    ensures
        r matches Err(e) ==> (e == KeyOpError::UnsupportedAlgorithm <==> !supported_algorithm(
            key_algorithm@,
        )),
        r is Ok ==> supported_algorithm(key_algorithm@),
        r matches Ok(key) ==> exists|c: Seq<char>|
            #[trigger] generated_key_matches(key, key_algorithm@, c),
{
    proof {
        reveal_strlit("ed25519");
        reveal_strlit("rsa2048");
        reveal_strlit("rsa3072");
        reveal_strlit("rsa4096");
        // The four accepted names differ pairwise in their first or fourth
        // character; these ground facts let the branch conditions decide
        // which name was asked for.
        assert("ed25519"@[0] == 'e' && "rsa2048"@[0] == 'r' && "rsa3072"@[0] == 'r'
            && "rsa4096"@[0] == 'r');
        assert("rsa2048"@[3] == '2' && "rsa3072"@[3] == '3' && "rsa4096"@[3] == '4');
    }
    let handle = if str_eq(key_algorithm, "ed25519") {
        match random_ed25519() {
            Some(k) => k,
            None => {
                return Err(KeyOpError::GenerationFailed);
            },
        }
    } else if str_eq(key_algorithm, "rsa2048") || str_eq(key_algorithm, "rsa3072") || str_eq(
        key_algorithm,
        "rsa4096",
    ) {
        let bits: usize = if str_eq(key_algorithm, "rsa2048") {
            2048
        } else if str_eq(key_algorithm, "rsa3072") {
            3072
        } else {
            4096
        };
        match random_rsa(bits) {
            Some(k) => k,
            None => {
                return Err(KeyOpError::GenerationFailed);
            },
        }
    } else {
        return Err(KeyOpError::UnsupportedAlgorithm);
    };
    let label = key_algorithm.to_owned();
    let key = assemble_key(&handle, Some(label))?;
    proof {
        assert(generated_key_matches(key, key_algorithm@, canon(handle)));
    }
    Ok(key)
}

/// Re-importing a generated key round-trips: for any password (the key is
/// unencrypted, so the password is ignored), importing its private key
/// text is owed a `Success` whose key carries the same public key text and
/// the same fingerprint.
pub proof fn lemma_generated_key_reimports(
    key: SSHKey,
    label: Seq<char>,
    c: Seq<char>,
    password: Seq<char>,
)
    requires
        generated_key_matches(key, label, c),
    ensures
        import_status_model(key.private_key@, password) == SSHKeyImportStatus::Success,
        import_encodes(key.private_key@, password),
        import_canon_model(key.private_key@, password) == c,
        public_text_of(import_canon_model(key.private_key@, password))->0 == key.public_key@,
        fingerprint_text_of(import_canon_model(key.private_key@, password))
            == key.key_fingerprint@,
{
}

} // verus!
