//! Key import: parse an externally-encoded private key, handle optional
//! encryption, and report a precise outcome.
//!
//! The outcome is decided in priority order: text that does not parse at
//! all, then an encrypted key without a password, then an encrypted key
//! whose password does not decrypt it, and only then success. Encryption
//! status, not password presence, governs the branching: an unencrypted key
//! submitted with a password succeeds, the password ignored.

use vstd::prelude::*;

use crate::keys::{KeyOpError, SSHKey, SSHKeyImportResult, SSHKeyImportStatus};
use crate::openssh::{
    algorithm_text, algorithm_text_of, canon, decrypt, decrypt_result, encodable_of,
    encode_openssh, encrypted_of, fingerprint_text, fingerprint_text_of, is_encrypted,
    parse_openssh, parse_result, public_key_text, public_text_of, SshKeyHandle,
};

verus! {

/// The import status owed for the given key text and password.
pub open spec fn import_status_model(pem: Seq<char>, password: Seq<char>) -> SSHKeyImportStatus {
    if parse_result(pem) is None {
        SSHKeyImportStatus::ParsingError
    } else if encrypted_of(parse_result(pem)->0) && password.len() == 0 {
        SSHKeyImportStatus::PasswordRequired
    } else if encrypted_of(parse_result(pem)->0) && decrypt_result(
        parse_result(pem)->0,
        password,
    ) is None {
        SSHKeyImportStatus::WrongPassword
    } else {
        SSHKeyImportStatus::Success
    }
}

/// The canonical text of the key a successful import yields: the decrypted
/// key when the input was encrypted, the parsed key itself otherwise.
pub open spec fn import_canon_model(pem: Seq<char>, password: Seq<char>) -> Seq<char> {
    if encrypted_of(parse_result(pem)->0) {
        decrypt_result(parse_result(pem)->0, password)->0
    } else {
        parse_result(pem)->0
    }
}

/// The four text fields a successful import or generation carries, stated
/// of the key's canonical text and the algorithm label used.
pub open spec fn key_fields_model(key: SSHKey, c: Seq<char>, label: Seq<char>) -> bool {
    &&& key.private_key@ == c
    &&& public_text_of(c) is Some
    &&& key.public_key@ == public_text_of(c)->0
    &&& key.key_algorithm@ == label
    &&& key.key_fingerprint@ == fingerprint_text_of(c)
}

/// Whether the key a successful import would yield re-encodes: its private
/// text and its public text both come back from the `ssh_key` crate. On
/// every decoded key these encodings succeed in normal operation; this
/// names the exact condition, so that when an import is owed its key is
/// owed outright.
pub open spec fn import_encodes(pem: Seq<char>, password: Seq<char>) -> bool {
    &&& encodable_of(import_canon_model(pem, password))
    &&& public_text_of(import_canon_model(pem, password)) is Some
}

/// Re-encode a key as the four text fields of [`SSHKey`], labelled with the
/// given algorithm name, or with the key's own algorithm identifier when
/// none is given. Fails only when the `ssh_key` crate will not encode the
/// key or its public part back to text.
pub(crate) fn assemble_key(k: &SshKeyHandle, label: Option<String>) -> (r: Result<SSHKey, KeyOpError>)
    ensures
        r is Ok <==> (encodable_of(canon(*k)) && public_text_of(canon(*k)) is Some),
        r matches Ok(key) ==> key_fields_model(
            key,
            canon(*k),
            match label {
                Some(l) => l@,
                None => algorithm_text_of(canon(*k)),
            },
        ),
        r is Ok ==> parse_result(canon(*k)) == Some(canon(*k)),
        r matches Err(e) ==> e == KeyOpError::EncodingFailed,
{
    let private_text = match encode_openssh(k) {
        Some(t) => t,
        None => {
            return Err(KeyOpError::EncodingFailed);
        },
    };
    let public_text = match public_key_text(k) {
        Some(t) => t,
        None => {
            return Err(KeyOpError::EncodingFailed);
        },
    };
    let algorithm_label = match label {
        Some(l) => l,
        None => algorithm_text(k),
    };
    let fingerprint = fingerprint_text(k);
    Ok(
        SSHKey {
            private_key: private_text,
            public_key: public_text,
            key_algorithm: algorithm_label,
            key_fingerprint: fingerprint,
        },
    )
}

/// Import an externally-encoded private key.
///
/// The status is exactly [`import_status_model`]; the key is present if and
/// only if the status is `Success`, and then its fields are those of the
/// parsed (and, when encrypted, decrypted) key. An `Err` arises exactly
/// when an import owed a key ([`import_status_model`] says `Success`) whose
/// text the `ssh_key` crate then would not re-encode
/// (`![import_encodes]`) — a condition outside normal operation; on every
/// input where the decoded key re-encodes, the outcome is `Ok`, a function
/// of the two arguments alone.
pub fn import_key(encoded_key: &str, password: &str) -> (r: Result<
    SSHKeyImportResult,
    KeyOpError,
>)
    ensures
        r is Err <==> (import_status_model(encoded_key@, password@)
            == SSHKeyImportStatus::Success && !import_encodes(encoded_key@, password@)),
        r matches Ok(res) ==> res.status == import_status_model(encoded_key@, password@),
        r matches Ok(res) ==> (res.ssh_key is Some <==> res.status
            == SSHKeyImportStatus::Success),
        r matches Ok(res) ==> (res.status == SSHKeyImportStatus::Success ==> key_fields_model(
            res.ssh_key->0,
            import_canon_model(encoded_key@, password@),
            algorithm_text_of(import_canon_model(encoded_key@, password@)),
        )),
        r matches Err(e) ==> e == KeyOpError::EncodingFailed,
{
    let parsed = match parse_openssh(encoded_key) {
        Some(k) => k,
        None => {
            return Ok(
                SSHKeyImportResult { status: SSHKeyImportStatus::ParsingError, ssh_key: None },
            );
        },
    };
    let key = if is_encrypted(&parsed) {
        if password.is_empty() {
            return Ok(
                SSHKeyImportResult { status: SSHKeyImportStatus::PasswordRequired, ssh_key: None },
            );
        }
        match decrypt(&parsed, password) {
            Some(k) => k,
            None => {
                return Ok(
                    SSHKeyImportResult {
                        status: SSHKeyImportStatus::WrongPassword,
                        ssh_key: None,
                    },
                );
            },
        }
    } else {
        parsed
    };
    let ssh_key = assemble_key(&key, None)?;
    Ok(SSHKeyImportResult { status: SSHKeyImportStatus::Success, ssh_key: Some(ssh_key) })
}

/// An unencrypted key imports successfully whatever the password, and the
/// outcome does not depend on the password at all: the password is ignored.
pub proof fn lemma_password_ignored_when_unencrypted(
    pem: Seq<char>,
    password_a: Seq<char>,
    password_b: Seq<char>,
)
    requires
        parse_result(pem) is Some,
        !encrypted_of(parse_result(pem)->0),
    ensures
        import_status_model(pem, password_a) == SSHKeyImportStatus::Success,
        import_status_model(pem, password_a) == import_status_model(pem, password_b),
        import_canon_model(pem, password_a) == import_canon_model(pem, password_b),
        import_encodes(pem, password_a) == import_encodes(pem, password_b),
{
}

/// An encrypted key yields `PasswordRequired` without a password,
/// `WrongPassword` under a password that does not decrypt it, and `Success`
/// under one that does. The successful outcome is a function of the key
/// text and password alone, so repeated imports agree on every field,
/// the fingerprint included.
pub proof fn lemma_encrypted_key_outcomes(pem: Seq<char>, password: Seq<char>)
    requires
        parse_result(pem) is Some,
        encrypted_of(parse_result(pem)->0),
    ensures
        password.len() == 0 ==> import_status_model(pem, password)
            == SSHKeyImportStatus::PasswordRequired,
        password.len() > 0 && decrypt_result(parse_result(pem)->0, password) is None
            ==> import_status_model(pem, password) == SSHKeyImportStatus::WrongPassword,
        password.len() > 0 && decrypt_result(parse_result(pem)->0, password) is Some
            ==> import_status_model(pem, password) == SSHKeyImportStatus::Success
            && import_canon_model(pem, password) == decrypt_result(
            parse_result(pem)->0,
            password,
        )->0,
{
}

} // verus!
