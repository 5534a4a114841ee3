//! The files kept in the application's asset directory.

use vstd::prelude::*;

use crate::text::copy_string;

verus! {

/// `name` placed in the directory `dir`, as `Path::join` does for a relative
/// name: a `/` goes between them unless `dir` is empty or already ends in `/`.
pub open spec fn joined_path(dir: Seq<char>, name: Seq<char>) -> Seq<char> {
    if dir.len() > 0 && dir.last() != '/' {
        dir + seq!['/'] + name
    } else {
        dir + name
    }
}

fn join_file(dir: &str, name: &str) -> (p: String)
    ensures
        p@ == joined_path(dir@, name@),
{
    let mut p = copy_string(dir);
    let n = dir.unicode_len();
    if n > 0 && dir.get_char(n - 1) != '/' {
        p.push('/');
    }
    p.append(name);
    p
}

/// The configuration file in the asset directory.
pub fn config_path(asset_dir: &str) -> (p: String)
    ensures
        p@ == joined_path(asset_dir@, "config.json"@),
{
    join_file(asset_dir, "config.json")
}

/// The executor profiles file in the asset directory.
pub fn profiles_path(asset_dir: &str) -> (p: String)
    ensures
        p@ == joined_path(asset_dir@, "profiles.json"@),
{
    join_file(asset_dir, "profiles.json")
}

/// The credentials file in the asset directory.
pub fn credentials_path(asset_dir: &str) -> (p: String)
    ensures
        p@ == joined_path(asset_dir@, "credentials.json"@),
{
    join_file(asset_dir, "credentials.json")
}

/// The trusted Ed25519 public keys file in the asset directory.
pub fn trusted_keys_path(asset_dir: &str) -> (p: String)
    ensures
        p@ == joined_path(asset_dir@, "trusted_ed25519_public_keys.json"@),
{
    join_file(asset_dir, "trusted_ed25519_public_keys.json")
}

/// The server's Ed25519 signing key file in the asset directory.
pub fn server_signing_key_path(asset_dir: &str) -> (p: String)
    ensures
        p@ == joined_path(asset_dir@, "server_ed25519_signing_key"@),
{
    join_file(asset_dir, "server_ed25519_signing_key")
}

} // verus!
