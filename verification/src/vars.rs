//! The keypair variable document: the in-memory keypair and the verb of the
//! external vault tool that encrypts or decrypts it on disk.

use vstd::prelude::*;

verus! {

/// A keypair held in memory during one lifecycle run: the text of the public
/// key and the text of the private key.
#[derive(Debug, Clone)]
pub struct VarsFile {
    pub ssh_public_key: String,
    pub ssh_private_key: String,
}

/// The verb passed to the external vault tool.
#[derive(Debug, Clone, Copy, PartialEq, Eq, Structural, Default)]
pub enum AnsibleVaultCommand {
    #[default]
    Encrypt,
    Decrypt,
}

impl AnsibleVaultCommand {
    /// The lower-case subcommand word the vault tool expects.
    pub fn verb(&self) -> (r: String)
        ensures
            *self is Encrypt ==> r@ == "encrypt"@,
            *self is Decrypt ==> r@ == "decrypt"@,
    {
        match self {
            AnsibleVaultCommand::Encrypt => String::from_str("encrypt"),
            AnsibleVaultCommand::Decrypt => String::from_str("decrypt"),
        }
    }
}

} // verus!
