//! The error taxonomy of the lifecycle: every stage failure is one of these.

use vstd::prelude::*;

verus! {

/// Why a lifecycle stage failed.
#[derive(Debug, Clone, PartialEq)]
pub enum SshInitError {
    /// A filesystem read or write failed; carries the reported cause.
    IOError(String),
    /// The passphrase file exists but holds no line to use as a passphrase.
    EmptyInput,
    /// The variable document is malformed; carries the parser diagnostic.
    ParseError(String),
    /// An encode-side failure of the document codec. The codec proves that
    /// encoding a keypair of text fields always succeeds, so nothing in this
    /// library produces this variant; it names the error channel of the
    /// codec's interface.
    SerializationError(String),
    /// An external tool could not be spawned, waited on, or exited non-zero.
    ExternalToolError(String),
    /// A guarded write found its target already present under a policy that
    /// refuses to reuse it.
    AlreadyExists,
}

} // verus!
