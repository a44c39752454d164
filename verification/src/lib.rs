//! Provisioning and restoring of an SSH keypair whose key material is kept
//! encrypted at rest as a vaulted variable document.
//!
//! The library holds the decision logic of the lifecycle: which files to
//! read, write or refuse to touch, which external tool invocations to make,
//! and in what order. All filesystem and subprocess work is handed out as
//! explicit [`Action`](orchestrator::Action) values; the surrounding binary
//! performs them and feeds the outcome back as
//! [`Event`](orchestrator::Event) values.

pub mod codec;
pub mod error;
pub mod laws;
pub mod commands;
pub mod orchestrator;
pub mod password;
pub mod paths;
pub mod vars;

pub use vars::VarsFile;
