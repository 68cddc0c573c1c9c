//! Resolution of the local IPC endpoint the desktop application and its
//! proxy rendezvous on: a per-user named pipe on Windows, a group-container
//! socket on macOS, a cache-directory socket on Linux.
//!
//! Each rule here turns plain values the caller resolved (home directory
//! bytes, path components, a cache directory) into the endpoint text; the
//! directory creation and filesystem access around it stay with the caller.

use vstd::prelude::*;

use base64::Engine;
use sha2::Digest;

use crate::textutil::append_str;

verus! {

/// The SHA-256 digest of a byte string.
pub uninterp spec fn sha256_of(data: Seq<u8>) -> Seq<u8>;

/// The unpadded URL-safe base64 text of a byte string.
pub uninterp spec fn b64url_nopad_of(data: Seq<u8>) -> Seq<char>;

/// Relies on `sha2::Sha256::digest`: the SHA-256 digest, 32 bytes.
#[verifier::external_body]
fn sha256(data: &Vec<u8>) -> (r: Vec<u8>)
    ensures
        r@ == sha256_of(data@),
        r@.len() == 32,
{
    sha2::Sha256::digest(data.as_slice()).to_vec()
}

/// Relies on `base64::engine::general_purpose::URL_SAFE_NO_PAD` and its
/// `Engine::encode`: URL-safe base64 without padding.
#[verifier::external_body]
fn b64url_nopad(data: &Vec<u8>) -> (r: String)
    ensures
        r@ == b64url_nopad_of(data@),
{
    base64::engine::general_purpose::URL_SAFE_NO_PAD.encode(data.as_slice())
}

/// The Windows endpoint: a named pipe, one per user. The home directory is
/// hashed and base64-encoded so that reserved characters and length limits
/// of pipe names cannot bite.
pub fn windows_pipe_path(home_bytes: &Vec<u8>, name: &str) -> (r: String)
    ensures
        r@ == "\\\\.\\pipe\\"@ + b64url_nopad_of(sha256_of(home_bytes@)) + ".app."@ + name@,
{
    let digest = sha256(home_bytes);
    let encoded = b64url_nopad(&digest);
    let mut out = "\\\\.\\pipe\\".to_owned();
    append_str(&mut out, encoded.as_str());
    append_str(&mut out, ".app.");
    append_str(&mut out, name);
    out
}

/// The Linux endpoint: a socket file in the application's directory under
/// the user's cache directory (the caller creates the directory).
pub fn linux_cache_path(cache_dir: &str, name: &str) -> (r: String)
    ensures
        r@ == cache_dir@ + "/com.bitwarden.desktop/app."@ + name@,
{
    let mut out = cache_dir.to_owned();
    append_str(&mut out, "/com.bitwarden.desktop/app.");
    append_str(&mut out, name);
    out
}

/// The first `k` path components, each preceded by the root separator:
/// the absolute path of the user they name.
pub open spec fn rooted_prefix(components: Seq<Seq<char>>, k: int) -> Seq<char>
    decreases k,
{
    if k <= 0 {
        Seq::empty()
    } else {
        rooted_prefix(components, k - 1) + seq!['/'] + components[k - 1]
    }
}

/// How many leading components of the home path the macOS endpoint keeps:
/// the two that name the user (the sandboxed home continues below them).
pub open spec fn macos_kept(len: nat) -> int {
    if len < 2 {
        len as int
    } else {
        2
    }
}

/// The macOS endpoint: the per-user group container shared by the desktop
/// application and its helpers. A sandboxed home directory lies deep below
/// the user's real home, so only the leading components naming the user
/// are kept. `home_components` are the components of the home path after
/// the root.
pub fn macos_container_path(home_components: &Vec<String>, name: &str) -> (r: String)
    ensures
        r@ == rooted_prefix(
            Seq::new(home_components@.len(), |i: int| home_components@[i]@),
            macos_kept(home_components@.len()),
        ) + "/Library/Group Containers/LTZ2PFU5D6.com.bitwarden.desktop/tmp/app."@ + name@,
{
    let ghost comps = Seq::new(home_components@.len(), |i: int| home_components@[i]@);
    let keep: usize = if home_components.len() < 2 {
        home_components.len()
    } else {
        2
    };
    let mut out = String::new();
    proof {
        reveal_strlit("/");
    }
    for i in 0..keep
        invariant
            keep <= home_components@.len(),
            comps == Seq::new(home_components@.len(), |i: int| home_components@[i]@),
            out@ == rooted_prefix(comps, i as int),
            "/"@ == seq!['/'],
    {
        append_str(&mut out, "/");
        append_str(&mut out, home_components[i].as_str());
    }
    append_str(&mut out, "/Library/Group Containers/LTZ2PFU5D6.com.bitwarden.desktop/tmp/app.");
    append_str(&mut out, name);
    out
}

} // verus!
