//! The exact command lines of the two external collaborators: the
//! key-generation tool and the vault tool. The library fixes program and
//! argument text; spawning is left to the caller.

use vstd::prelude::*;

use crate::vars::AnsibleVaultCommand;

verus! {

/// The command line that generates a fresh ed25519 keypair at `key_path`
/// with the given comment, quietly and with an empty key passphrase.
pub fn keygen_command(key_path: &str, comment: &str) -> (r: (String, Vec<String>))
    ensures
        r.0@ == "ssh-keygen"@,
        r.1@.len() == 9,
        r.1@[0]@ == "-t"@,
        r.1@[1]@ == "ed25519"@,
        r.1@[2]@ == "-C"@,
        r.1@[3]@ == comment@,
        r.1@[4]@ == "-f"@,
        r.1@[5]@ == key_path@,
        r.1@[6]@ == "-q"@,
        r.1@[7]@ == "-N"@,
        r.1@[8]@ == ""@,
{
    let mut args: Vec<String> = Vec::new();
    args.push(String::from_str("-t"));
    args.push(String::from_str("ed25519"));
    args.push(String::from_str("-C"));
    args.push(String::from_str(comment));
    args.push(String::from_str("-f"));
    args.push(String::from_str(key_path));
    args.push(String::from_str("-q"));
    args.push(String::from_str("-N"));
    args.push(String::from_str(""));
    (String::from_str("ssh-keygen"), args)
}

/// The command line that encrypts or decrypts `target` in place, reading the
/// passphrase from `pass_file`.
pub fn vault_command(verb: AnsibleVaultCommand, target: &str, pass_file: &str) -> (r: (
    String,
    Vec<String>,
))
    ensures
        r.0@ == "ansible-vault"@,
        r.1@.len() == 4,
        verb is Encrypt ==> r.1@[0]@ == "encrypt"@,
        verb is Decrypt ==> r.1@[0]@ == "decrypt"@,
        r.1@[1]@ == target@,
        r.1@[2]@ == "--vault-pass-file"@,
        r.1@[3]@ == pass_file@,
{
    let mut args: Vec<String> = Vec::new();
    args.push(verb.verb());
    args.push(String::from_str(target));
    args.push(String::from_str("--vault-pass-file"));
    args.push(String::from_str(pass_file));
    (String::from_str("ansible-vault"), args)
}

} // verus!
