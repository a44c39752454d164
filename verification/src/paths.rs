//! The well-known per-user file locations the lifecycle works with. Paths are
//! plain text here; when no home directory is resolvable, the bare file name
//! is used as a relative path.

use vstd::prelude::*;

verus! {

/// The fixed per-user location of the vault passphrase file: a dotted file
/// name under the home directory, or the bare name without one.
pub fn generate_default_vault_password_file(home_dir: Option<&str>) -> (r: String)
    ensures
        home_dir matches Some(h) ==> r@ == h@ + "/"@ + ".vault_pass.txt"@,
        home_dir is None ==> r@ == ".vault_pass.txt"@,
{
    match home_dir {
        Some(h) => String::from_str(h).concat("/").concat(".vault_pass.txt"),
        None => String::from_str(".vault_pass.txt"),
    }
}

/// The default location of the private key file: `ansibleuser` in the `.ssh`
/// directory under the home directory, or the bare name without one.
pub fn default_ssh_key_file_name(home_dir: Option<&str>) -> (r: String)
    ensures
        home_dir matches Some(h) ==> r@ == h@ + "/"@ + ".ssh/ansibleuser"@,
        home_dir is None ==> r@ == "ansibleuser"@,
{
    match home_dir {
        Some(h) => String::from_str(h).concat("/").concat(".ssh/ansibleuser"),
        None => String::from_str("ansibleuser"),
    }
}

/// The view of the public key file's path for a given private key file path.
pub open spec fn public_key_path_spec(private_path: Seq<char>) -> Seq<char> {
    private_path + ".pub"@
}

/// The path of the public key file that stands beside a private key file.
pub fn public_key_path(private_path: &str) -> (r: String)
    ensures
        r@ == public_key_path_spec(private_path@),
{
    String::from_str(private_path).concat(".pub")
}

} // verus!
