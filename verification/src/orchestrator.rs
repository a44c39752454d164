//! The lifecycle state machine. One run either provisions a fresh keypair
//! (generate, encode, write, encrypt) or restores an existing one (decrypt,
//! materialize, re-encrypt), guarded so that nothing already on disk is ever
//! overwritten. The machine only decides: each decision is handed out as an
//! [`Action`], and the outcome comes back as an [`Event`].
//!
//! Every tool run's exit status is checked: a tool that runs but exits
//! unsuccessfully fails its stage just as one that could not be spawned. A
//! failed re-encryption at the end of a restore is reported as its own fatal
//! outcome rather than as a stage failure, since it can leave the
//! destination unencrypted on disk.

use vstd::prelude::*;

use crate::codec::{decode_vars_file, encode_vars_file, vars_doc};
use crate::commands::{keygen_command, vault_command};
use crate::error::SshInitError;
use crate::paths::{public_key_path, public_key_path_spec};
use crate::vars::{AnsibleVaultCommand, VarsFile};

verus! {

/// What to do when the vault passphrase file is already present.
#[derive(Debug, Clone, Copy, PartialEq, Eq, Structural)]
pub enum OverwritePolicy {
    /// Refuse with `AlreadyExists`.
    FailIfExists,
    /// Treat the file on disk as authoritative and leave it untouched.
    ReuseIfExists,
}

/// What `persist` may do, given whether its destination already exists.
#[derive(Debug, Clone, Copy, PartialEq, Eq, Structural)]
pub enum PersistDecision {
    /// Reuse the file on disk; never write over it.
    UseExisting,
    /// The destination is free: write the passphrase there.
    WriteNew,
    /// The destination is taken and the policy refuses to reuse it.
    Refuse,
}

/// Decide how to persist the passphrase. Law: a pre-existing passphrase file
/// is never written, whichever policy is chosen.
pub fn persist_decision(already_exists: bool, policy: OverwritePolicy) -> (r: PersistDecision)
    ensures
        !already_exists ==> r == PersistDecision::WriteNew,
        already_exists && policy == OverwritePolicy::ReuseIfExists ==> r
            == PersistDecision::UseExisting,
        already_exists && policy == OverwritePolicy::FailIfExists ==> r == PersistDecision::Refuse,
{
    if !already_exists {
        PersistDecision::WriteNew
    } else if policy == OverwritePolicy::ReuseIfExists {
        PersistDecision::UseExisting
    } else {
        PersistDecision::Refuse
    }
}

/// Everything one run is configured with. All paths are plain text.
#[derive(Debug, Clone)]
pub struct Config {
    /// Comment text for a freshly generated key.
    pub comment: String,
    /// Path of the vaulted variable document.
    pub destination_path: String,
    /// Path consulted for the passphrase before prompting.
    pub vault_pass_file: String,
    /// Fixed per-user path the passphrase is persisted to and that the vault
    /// tool reads.
    pub vault_store_path: String,
    /// Path of the private key file.
    pub key_file_path: String,
    /// Policy for a pre-existing persisted passphrase file.
    pub store_policy: OverwritePolicy,
}

/// The stage a failure is attributed to.
#[derive(Debug, Clone, Copy, PartialEq, Eq, Structural)]
pub enum Stage {
    ResolvePassword,
    PersistPassword,
    GenerateKey,
    ReadKeyFiles,
    WriteVars,
    Encrypt,
    Decrypt,
    Materialize,
}

/// Where the machine stands: which answer it is waiting for, or how it ended.
#[derive(Debug)]
pub enum State {
    /// Awaiting: does the passphrase file to read from exist?
    CheckingPassSource,
    /// Awaiting the contents of the passphrase file.
    ReadingPassFile,
    /// Awaiting an interactively entered passphrase.
    Prompting,
    /// Awaiting: does the persisted passphrase file exist?
    CheckingStore { password: String },
    /// Awaiting the write of the persisted passphrase file.
    WritingStore { password: String },
    /// Awaiting: does the vaulted document exist? This forks the two flows.
    CheckingDestination,
    /// Awaiting: does the private key file exist? (provisioning)
    CheckingKeyFile,
    /// Awaiting the key-generation tool.
    RunningKeygen,
    /// Awaiting the contents of the generated private key file.
    ReadingPrivateKey,
    /// Awaiting the contents of the generated public key file.
    ReadingPublicKey { private_key: String },
    /// Awaiting the write of the encoded document to the destination.
    WritingVarsDoc,
    /// Awaiting the vault tool encrypting the destination.
    Encrypting,
    /// Awaiting the vault tool decrypting the destination. (restore)
    Decrypting,
    /// Awaiting: does the private key file exist? (restore)
    CheckingExistingKeys,
    /// Awaiting the contents of the decrypted document.
    ReadingVarsDoc,
    /// Awaiting the write of the public key file.
    WritingPublicKey { private_key: String },
    /// Awaiting the write of the private key file.
    WritingPrivateKey { private_key: String },
    /// Awaiting the vault tool re-encrypting the destination; a failure of
    /// the materialization step is held back here until that is done.
    Reencrypting { pending: Option<SshInitError> },
    /// Terminal: first-run provisioning succeeded.
    Provisioned,
    /// Terminal: restore succeeded and the destination is encrypted again.
    Restored,
    /// Terminal and fatal: re-encryption failed; the destination's state on
    /// disk is unknown.
    RestoredWithReencryptFailure { cause: SshInitError },
    /// Terminal: the named stage failed.
    Failed { stage: Stage, cause: SshInitError },
}

/// The outside work the machine asks for next.
#[derive(Debug)]
pub enum Action {
    /// Report whether `path` exists.
    CheckExists { path: String },
    /// Read `path` as text.
    ReadFile { path: String },
    /// Ask interactively for a passphrase, echo suppressed.
    PromptPassphrase,
    /// Create `path` with `contents`; fail rather than touch an existing file.
    CreateFile { path: String, contents: String },
    /// Create `path` with `contents` and the given permission bits from the
    /// start; fail rather than touch an existing file.
    CreatePrivateKeyFile { path: String, contents: String, mode: u32 },
    /// Run `program` with `args` and wait for it.
    RunTool { program: String, args: Vec<String> },
    /// Nothing more to do: the state is terminal.
    Report,
}

/// The answer to the last action.
#[derive(Debug)]
pub enum Event {
    /// Answer to `CheckExists`.
    Exists { yes: bool },
    /// Answer to `ReadFile`: the text, or the reported cause.
    ReadResult { result: Result<String, String> },
    /// Answer to `PromptPassphrase`: what was entered, or the reported
    /// cause if the terminal could not be read.
    PassphraseEntered { result: Result<String, String> },
    /// Answer to `CreateFile` and `CreatePrivateKeyFile`.
    WriteResult { result: Result<(), String> },
    /// Answer to `RunTool`: whether the tool exited successfully, or the
    /// cause if it could not be spawned or waited on.
    ToolResult { result: Result<bool, String> },
}

pub open spec fn is_check_exists(a: Action, path: Seq<char>) -> bool {
    a matches Action::CheckExists { path: p } && p@ == path
}

pub open spec fn is_read_file(a: Action, path: Seq<char>) -> bool {
    a matches Action::ReadFile { path: p } && p@ == path
}

pub open spec fn is_create_file(a: Action, path: Seq<char>, contents: Seq<char>) -> bool {
    a matches Action::CreateFile { path: p, contents: c } && p@ == path && c@ == contents
}

pub open spec fn is_create_private_key(a: Action, path: Seq<char>, contents: Seq<char>) -> bool {
    a matches Action::CreatePrivateKeyFile { path: p, contents: c, mode } && p@ == path && c@
        == contents && mode == 0o600u32
}

pub open spec fn is_run_keygen(a: Action, key_path: Seq<char>, comment: Seq<char>) -> bool {
    a matches Action::RunTool { program, args } && program@ == "ssh-keygen"@ && args@.len() == 9
        && args@[0]@ == "-t"@ && args@[1]@ == "ed25519"@ && args@[2]@ == "-C"@ && args@[3]@
        == comment && args@[4]@ == "-f"@ && args@[5]@ == key_path && args@[6]@ == "-q"@ && args@[7]@
        == "-N"@ && args@[8]@ == ""@
}

pub open spec fn is_run_vault(
    a: Action,
    verb_word: Seq<char>,
    target: Seq<char>,
    pass_file: Seq<char>,
) -> bool {
    a matches Action::RunTool { program, args } && program@ == "ansible-vault"@ && args@.len() == 4
        && args@[0]@ == verb_word && args@[1]@ == target && args@[2]@ == "--vault-pass-file"@
        && args@[3]@ == pass_file
}

pub open spec fn is_io_error(e: SshInitError, cause: Seq<char>) -> bool {
    e matches SshInitError::IOError(m) && m@ == cause
}

pub open spec fn is_tool_error(e: SshInitError, cause: Seq<char>) -> bool {
    e matches SshInitError::ExternalToolError(m) && m@ == cause
}

/// The message attributed to a tool that ran but exited unsuccessfully.
pub open spec fn tool_failure_message() -> Seq<char> {
    "external tool exited with a failure status"@
}

pub open spec fn is_failed(s: State, stage: Stage, cause: SshInitError) -> bool {
    s matches State::Failed { stage: g, cause: c } && g == stage && c == cause
}

/// Which event kind each non-terminal state awaits.
pub open spec fn wf_event(s: State, ev: Event) -> bool {
    match s {
        State::CheckingPassSource => ev is Exists,
        State::ReadingPassFile => ev is ReadResult,
        State::Prompting => ev is PassphraseEntered,
        State::CheckingStore { .. } => ev is Exists,
        State::WritingStore { .. } => ev is WriteResult,
        State::CheckingDestination => ev is Exists,
        State::CheckingKeyFile => ev is Exists,
        State::RunningKeygen => ev is ToolResult,
        State::ReadingPrivateKey => ev is ReadResult,
        State::ReadingPublicKey { .. } => ev is ReadResult,
        State::WritingVarsDoc => ev is WriteResult,
        State::Encrypting => ev is ToolResult,
        State::Decrypting => ev is ToolResult,
        State::CheckingExistingKeys => ev is Exists,
        State::ReadingVarsDoc => ev is ReadResult,
        State::WritingPublicKey { .. } => ev is WriteResult,
        State::WritingPrivateKey { .. } => ev is WriteResult,
        State::Reencrypting { .. } => ev is ToolResult,
        _ => false,
    }
}

pub open spec fn is_terminal(s: State) -> bool {
    match s {
        State::Provisioned => true,
        State::Restored => true,
        State::RestoredWithReencryptFailure { .. } => true,
        State::Failed { .. } => true,
        _ => false,
    }
}

/// The transition relation: what follows each state on each event. Every
/// successor state and action is pinned, except after reading the decrypted
/// document, where the parser decides between the write branch and the
/// deferred parse failure; on every document the codec itself produced the
/// write branch is forced.
pub open spec fn step_rel(c: Config, pre: State, ev: Event, post: State, act: Action) -> bool {
    let dest = c.destination_path@;
    let store = c.vault_store_path@;
    let key = c.key_file_path@;
    let pub_key = public_key_path_spec(c.key_file_path@);
    match pre {
        State::CheckingPassSource => (ev matches Event::Exists { yes } && if yes {
            post is ReadingPassFile && is_read_file(act, c.vault_pass_file@)
        } else {
            post is Prompting && act is PromptPassphrase
        }),
        State::ReadingPassFile => (ev matches Event::ReadResult { result } && match result {
            Ok(contents) => {
                if contents@.len() == 0 {
                    is_failed(post, Stage::ResolvePassword, SshInitError::EmptyInput) && act
                        is Report
                } else {
                    (post matches State::CheckingStore { password } && password@
                        == crate::password::first_line(contents@)) && is_check_exists(act, store)
                }
            },
            Err(m) => (post matches State::Failed { stage, cause } && stage
                == Stage::ResolvePassword && is_io_error(cause, m@)) && act is Report,
        }),
        State::Prompting => (ev matches Event::PassphraseEntered { result } && match result {
            Ok(passphrase) => (post matches State::CheckingStore { password } && password@
                == passphrase@) && is_check_exists(act, store),
            Err(m) => (post matches State::Failed { stage, cause } && stage
                == Stage::ResolvePassword && is_io_error(cause, m@)) && act is Report,
        }),
        State::CheckingStore { password } => (ev matches Event::Exists { yes } && if !yes {
            (post matches State::WritingStore { password: p } && p@ == password@) && is_create_file(
                act,
                store,
                password@,
            )
        } else if c.store_policy == OverwritePolicy::ReuseIfExists {
            post is CheckingDestination && is_check_exists(act, dest)
        } else {
            is_failed(post, Stage::PersistPassword, SshInitError::AlreadyExists) && act is Report
        }),
        State::WritingStore { .. } => (ev matches Event::WriteResult { result }
            && match result {
            Ok(_) => post is CheckingDestination && is_check_exists(act, dest),
            Err(m) => (post matches State::Failed { stage, cause } && stage
                == Stage::PersistPassword && is_io_error(cause, m@)) && act is Report,
        }),
        State::CheckingDestination => (ev matches Event::Exists { yes } && if yes {
            post is Decrypting && is_run_vault(act, "decrypt"@, dest, store)
        } else {
            post is CheckingKeyFile && is_check_exists(act, key)
        }),
        State::CheckingKeyFile => (ev matches Event::Exists { yes } && if yes {
            post is ReadingPrivateKey && is_read_file(act, key)
        } else {
            post is RunningKeygen && is_run_keygen(act, key, c.comment@)
        }),
        State::RunningKeygen => (ev matches Event::ToolResult { result } && match result {
            Ok(success) => if success {
                post is ReadingPrivateKey && is_read_file(act, key)
            } else {
                (post matches State::Failed { stage, cause } && stage == Stage::GenerateKey
                    && is_tool_error(cause, tool_failure_message())) && act is Report
            },
            Err(m) => (post matches State::Failed { stage, cause } && stage == Stage::GenerateKey
                && is_tool_error(cause, m@)) && act is Report,
        }),
        State::ReadingPrivateKey => (ev matches Event::ReadResult { result } && match result {
            Ok(contents) => (post matches State::ReadingPublicKey { private_key } && private_key@
                == contents@) && is_read_file(act, pub_key),
            Err(m) => (post matches State::Failed { stage, cause } && stage == Stage::ReadKeyFiles
                && is_io_error(cause, m@)) && act is Report,
        }),
        State::ReadingPublicKey { private_key } => (ev matches Event::ReadResult { result }
            && match result {
            Ok(contents) => post is WritingVarsDoc && is_create_file(
                act,
                dest,
                vars_doc(contents@, private_key@),
            ),
            Err(m) => (post matches State::Failed { stage, cause } && stage == Stage::ReadKeyFiles
                && is_io_error(cause, m@)) && act is Report,
        }),
        State::WritingVarsDoc => (ev matches Event::WriteResult { result } && match result {
            Ok(_) => post is Encrypting && is_run_vault(act, "encrypt"@, dest, store),
            Err(m) => (post matches State::Failed { stage, cause } && stage == Stage::WriteVars
                && is_io_error(cause, m@)) && act is Report,
        }),
        State::Encrypting => (ev matches Event::ToolResult { result } && match result {
            Ok(success) => if success {
                post is Provisioned && act is Report
            } else {
                (post matches State::Failed { stage, cause } && stage == Stage::Encrypt
                    && is_tool_error(cause, tool_failure_message())) && act is Report
            },
            Err(m) => (post matches State::Failed { stage, cause } && stage == Stage::Encrypt
                && is_tool_error(cause, m@)) && act is Report,
        }),
        State::Decrypting => (ev matches Event::ToolResult { result } && match result {
            Ok(success) => if success {
                post is CheckingExistingKeys && is_check_exists(act, key)
            } else {
                (post matches State::Failed { stage, cause } && stage == Stage::Decrypt
                    && is_tool_error(cause, tool_failure_message())) && act is Report
            },
            Err(m) => (post matches State::Failed { stage, cause } && stage == Stage::Decrypt
                && is_tool_error(cause, m@)) && act is Report,
        }),
        State::CheckingExistingKeys => (ev matches Event::Exists { yes } && if yes {
            (post matches State::Reencrypting { pending } && pending is None) && is_run_vault(
                act,
                "encrypt"@,
                dest,
                store,
            )
        } else {
            post is ReadingVarsDoc && is_read_file(act, dest)
        }),
        State::ReadingVarsDoc => (ev matches Event::ReadResult { result } && match result {
            Ok(contents) => {
                &&& forall|pk: Seq<char>, sk: Seq<char>|
                    contents@ == vars_doc(pk, sk) ==> ((post matches State::WritingPublicKey {
                        private_key,
                    } && private_key@ == sk) && is_create_file(act, pub_key, pk))
                &&& ((post matches State::WritingPublicKey { private_key } && (act matches
                Action::CreateFile { path, .. } && path@ == pub_key)) || ((post matches
                State::Reencrypting { pending } && pending matches Some(e) && e is ParseError)
                    && is_run_vault(act, "encrypt"@, dest, store)))
            },
            Err(m) => (post matches State::Reencrypting { pending } && pending matches Some(e)
                && is_io_error(e, m@)) && is_run_vault(act, "encrypt"@, dest, store),
        }),
        State::WritingPublicKey { private_key } => (ev matches Event::WriteResult { result }
            && match result {
            Ok(_) => (post matches State::WritingPrivateKey { private_key: p } && p@
                == private_key@) && is_create_private_key(act, key, private_key@),
            Err(m) => (post matches State::Reencrypting { pending } && pending matches Some(e)
                && is_io_error(e, m@)) && is_run_vault(act, "encrypt"@, dest, store),
        }),
        State::WritingPrivateKey { private_key } => (ev matches Event::WriteResult { result }
            && match result {
            Ok(_) => (post matches State::Reencrypting { pending } && pending is None)
                && is_run_vault(act, "encrypt"@, dest, store),
            Err(m) => (post matches State::Reencrypting { pending } && pending matches Some(e)
                && is_io_error(e, m@)) && is_run_vault(act, "encrypt"@, dest, store),
        }),
        State::Reencrypting { pending } => (ev matches Event::ToolResult { result }
            && match result {
            Ok(success) => if success {
                match pending {
                    None => post is Restored && act is Report,
                    Some(e) => is_failed(post, Stage::Materialize, e) && act is Report,
                }
            } else {
                (post matches State::RestoredWithReencryptFailure { cause } && is_tool_error(
                    cause,
                    tool_failure_message(),
                )) && act is Report
            },
            Err(m) => (post matches State::RestoredWithReencryptFailure { cause } && is_tool_error(
                cause,
                m@,
            )) && act is Report,
        }),
        _ => false,
    }
}

/// The orchestrator: a configuration and the state of one run.
pub struct Orchestrator {
    pub config: Config,
    pub state: State,
}

impl Orchestrator {
    /// Begin a run. The first thing to find out is whether the passphrase
    /// file to read from exists.
    pub fn new(config: Config) -> (r: (Orchestrator, Action))
        ensures
            r.0.config == config,
            r.0.state is CheckingPassSource,
            is_check_exists(r.1, config.vault_pass_file@),
    {
        let first = Action::CheckExists { path: config.vault_pass_file.clone() };
        (Orchestrator { config, state: State::CheckingPassSource }, first)
    }

    /// Whether the run has ended.
    pub fn done(&self) -> (r: bool)
        ensures
            r == is_terminal(self.state),
    {
        match self.state {
            State::Provisioned => true,
            State::Restored => true,
            State::RestoredWithReencryptFailure { .. } => true,
            State::Failed { .. } => true,
            _ => false,
        }
    }

    /// Feed the outcome of the last action in; get the next action out.
    pub fn step(&mut self, ev: Event) -> (act: Action)
        requires
            !is_terminal(old(self).state),
            wf_event(old(self).state, ev),
        ensures
            final(self).config == old(self).config,
            step_rel(old(self).config, old(self).state, ev, final(self).state, act),
    {
        let mut pre = State::CheckingPassSource;
        core::mem::swap(&mut pre, &mut self.state);
        let (post, act) = transition(&self.config, pre, ev);
        self.state = post;
        act
    }
}

/// The action that re-encrypts the destination in place.
fn encrypt_dest(c: &Config) -> (a: Action)
    ensures
        is_run_vault(a, "encrypt"@, c.destination_path@, c.vault_store_path@),
{
    let (program, args) = vault_command(
        AnsibleVaultCommand::Encrypt,
        &c.destination_path,
        &c.vault_store_path,
    );
    Action::RunTool { program, args }
}

/// One transition of the machine, as [`step_rel`] describes it.
#[verifier::rlimit(50)]
fn transition(c: &Config, pre: State, ev: Event) -> (r: (State, Action))
    requires
        !is_terminal(pre),
        wf_event(pre, ev),
    ensures
        step_rel(*c, pre, ev, r.0, r.1),
{
    match pre {
        State::CheckingPassSource => match ev {
            Event::Exists { yes } => {
                if yes {
                    (
                        State::ReadingPassFile,
                        Action::ReadFile { path: c.vault_pass_file.clone() },
                    )
                } else {
                    (State::Prompting, Action::PromptPassphrase)
                }
            },
            _ => vstd::pervasive::unreached(),
        },
        State::ReadingPassFile => match ev {
            Event::ReadResult { result } => match result {
                Ok(contents) => match crate::password::get_password(contents.as_str()) {
                    Ok(password) => (
                        State::CheckingStore { password },
                        Action::CheckExists { path: c.vault_store_path.clone() },
                    ),
                    Err(e) => (
                        State::Failed { stage: Stage::ResolvePassword, cause: e },
                        Action::Report,
                    ),
                },
                Err(m) => (
                    State::Failed {
                        stage: Stage::ResolvePassword,
                        cause: SshInitError::IOError(m),
                    },
                    Action::Report,
                ),
            },
            _ => vstd::pervasive::unreached(),
        },
        State::Prompting => match ev {
            Event::PassphraseEntered { result } => match result {
                Ok(passphrase) => (
                    State::CheckingStore { password: passphrase },
                    Action::CheckExists { path: c.vault_store_path.clone() },
                ),
                Err(m) => (
                    State::Failed {
                        stage: Stage::ResolvePassword,
                        cause: SshInitError::IOError(m),
                    },
                    Action::Report,
                ),
            },
            _ => vstd::pervasive::unreached(),
        },
        State::CheckingStore { password } => match ev {
            Event::Exists { yes } => match persist_decision(yes, c.store_policy) {
                PersistDecision::WriteNew => {
                    let stored = password.clone();
                    (
                        State::WritingStore { password },
                        Action::CreateFile { path: c.vault_store_path.clone(), contents: stored },
                    )
                },
                PersistDecision::UseExisting => (
                    State::CheckingDestination,
                    Action::CheckExists { path: c.destination_path.clone() },
                ),
                PersistDecision::Refuse => (
                    State::Failed {
                        stage: Stage::PersistPassword,
                        cause: SshInitError::AlreadyExists,
                    },
                    Action::Report,
                ),
            },
            _ => vstd::pervasive::unreached(),
        },
        State::WritingStore { .. } => match ev {
            Event::WriteResult { result } => match result {
                Ok(_) => (
                    State::CheckingDestination,
                    Action::CheckExists { path: c.destination_path.clone() },
                ),
                Err(m) => (
                    State::Failed {
                        stage: Stage::PersistPassword,
                        cause: SshInitError::IOError(m),
                    },
                    Action::Report,
                ),
            },
            _ => vstd::pervasive::unreached(),
        },
        State::CheckingDestination => match ev {
            Event::Exists { yes } => {
                if yes {
                    let (program, args) = vault_command(
                        AnsibleVaultCommand::Decrypt,
                        &c.destination_path,
                        &c.vault_store_path,
                    );
                    (State::Decrypting, Action::RunTool { program, args })
                } else {
                    (
                        State::CheckingKeyFile,
                        Action::CheckExists { path: c.key_file_path.clone() },
                    )
                }
            },
            _ => vstd::pervasive::unreached(),
        },
        State::CheckingKeyFile => match ev {
            Event::Exists { yes } => {
                if yes {
                    (
                        State::ReadingPrivateKey,
                        Action::ReadFile { path: c.key_file_path.clone() },
                    )
                } else {
                    let (program, args) = keygen_command(&c.key_file_path, &c.comment);
                    (State::RunningKeygen, Action::RunTool { program, args })
                }
            },
            _ => vstd::pervasive::unreached(),
        },
        State::RunningKeygen => match ev {
            Event::ToolResult { result } => match result {
                Ok(success) => {
                    if success {
                        (
                            State::ReadingPrivateKey,
                            Action::ReadFile { path: c.key_file_path.clone() },
                        )
                    } else {
                        (
                            State::Failed {
                                stage: Stage::GenerateKey,
                                cause: tool_exit_failure(),
                            },
                            Action::Report,
                        )
                    }
                },
                Err(m) => (
                    State::Failed {
                        stage: Stage::GenerateKey,
                        cause: SshInitError::ExternalToolError(m),
                    },
                    Action::Report,
                ),
            },
            _ => vstd::pervasive::unreached(),
        },
        State::ReadingPrivateKey => match ev {
            Event::ReadResult { result } => match result {
                Ok(contents) => (
                    State::ReadingPublicKey { private_key: contents },
                    Action::ReadFile { path: public_key_path(&c.key_file_path) },
                ),
                Err(m) => (
                    State::Failed { stage: Stage::ReadKeyFiles, cause: SshInitError::IOError(m) },
                    Action::Report,
                ),
            },
            _ => vstd::pervasive::unreached(),
        },
        State::ReadingPublicKey { private_key } => match ev {
            Event::ReadResult { result } => match result {
                Ok(contents) => {
                    let vars = VarsFile {
                        ssh_public_key: contents,
                        ssh_private_key: private_key,
                    };
                    match encode_vars_file(&vars) {
                        Ok(doc) => (
                            State::WritingVarsDoc,
                            Action::CreateFile {
                                path: c.destination_path.clone(),
                                contents: doc,
                            },
                        ),
                        Err(_) => vstd::pervasive::unreached(),
                    }
                },
                Err(m) => (
                    State::Failed { stage: Stage::ReadKeyFiles, cause: SshInitError::IOError(m) },
                    Action::Report,
                ),
            },
            _ => vstd::pervasive::unreached(),
        },
        State::WritingVarsDoc => match ev {
            Event::WriteResult { result } => match result {
                Ok(_) => (State::Encrypting, encrypt_dest(c)),
                Err(m) => (
                    State::Failed { stage: Stage::WriteVars, cause: SshInitError::IOError(m) },
                    Action::Report,
                ),
            },
            _ => vstd::pervasive::unreached(),
        },
        State::Encrypting => match ev {
            Event::ToolResult { result } => match result {
                Ok(success) => {
                    if success {
                        (State::Provisioned, Action::Report)
                    } else {
                        (
                            State::Failed { stage: Stage::Encrypt, cause: tool_exit_failure() },
                            Action::Report,
                        )
                    }
                },
                Err(m) => (
                    State::Failed {
                        stage: Stage::Encrypt,
                        cause: SshInitError::ExternalToolError(m),
                    },
                    Action::Report,
                ),
            },
            _ => vstd::pervasive::unreached(),
        },
        State::Decrypting => match ev {
            Event::ToolResult { result } => match result {
                Ok(success) => {
                    if success {
                        (
                            State::CheckingExistingKeys,
                            Action::CheckExists { path: c.key_file_path.clone() },
                        )
                    } else {
                        (
                            State::Failed { stage: Stage::Decrypt, cause: tool_exit_failure() },
                            Action::Report,
                        )
                    }
                },
                Err(m) => (
                    State::Failed {
                        stage: Stage::Decrypt,
                        cause: SshInitError::ExternalToolError(m),
                    },
                    Action::Report,
                ),
            },
            _ => vstd::pervasive::unreached(),
        },
        State::CheckingExistingKeys => match ev {
            Event::Exists { yes } => {
                if yes {
                    (State::Reencrypting { pending: None }, encrypt_dest(c))
                } else {
                    (
                        State::ReadingVarsDoc,
                        Action::ReadFile { path: c.destination_path.clone() },
                    )
                }
            },
            _ => vstd::pervasive::unreached(),
        },
        State::ReadingVarsDoc => match ev {
            Event::ReadResult { result } => match result {
                Ok(contents) => match decode_vars_file(contents.as_str()) {
                    Ok(vars) => (
                        State::WritingPublicKey { private_key: vars.ssh_private_key },
                        Action::CreateFile {
                            path: public_key_path(&c.key_file_path),
                            contents: vars.ssh_public_key,
                        },
                    ),
                    Err(e) => (State::Reencrypting { pending: Some(e) }, encrypt_dest(c)),
                },
                Err(m) => (
                    State::Reencrypting { pending: Some(SshInitError::IOError(m)) },
                    encrypt_dest(c),
                ),
            },
            _ => vstd::pervasive::unreached(),
        },
        State::WritingPublicKey { private_key } => match ev {
            Event::WriteResult { result } => match result {
                Ok(_) => {
                    let written = private_key.clone();
                    (
                        State::WritingPrivateKey { private_key },
                        Action::CreatePrivateKeyFile {
                            path: c.key_file_path.clone(),
                            contents: written,
                            mode: 0o600,
                        },
                    )
                },
                Err(m) => (
                    State::Reencrypting { pending: Some(SshInitError::IOError(m)) },
                    encrypt_dest(c),
                ),
            },
            _ => vstd::pervasive::unreached(),
        },
        State::WritingPrivateKey { .. } => match ev {
            Event::WriteResult { result } => match result {
                Ok(_) => (State::Reencrypting { pending: None }, encrypt_dest(c)),
                Err(m) => (
                    State::Reencrypting { pending: Some(SshInitError::IOError(m)) },
                    encrypt_dest(c),
                ),
            },
            _ => vstd::pervasive::unreached(),
        },
        State::Reencrypting { pending } => match ev {
            Event::ToolResult { result } => match result {
                Ok(success) => {
                    if success {
                        match pending {
                            None => (State::Restored, Action::Report),
                            Some(e) => (
                                State::Failed { stage: Stage::Materialize, cause: e },
                                Action::Report,
                            ),
                        }
                    } else {
                        (
                            State::RestoredWithReencryptFailure { cause: tool_exit_failure() },
                            Action::Report,
                        )
                    }
                },
                Err(m) => (
                    State::RestoredWithReencryptFailure {
                        cause: SshInitError::ExternalToolError(m),
                    },
                    Action::Report,
                ),
            },
            _ => vstd::pervasive::unreached(),
        },
        _ => vstd::pervasive::unreached(),
    }
}

/// The error attributed to a tool that ran but exited unsuccessfully.
fn tool_exit_failure() -> (e: SshInitError)
    ensures
        is_tool_error(e, tool_failure_message()),
{
    SshInitError::ExternalToolError(
        String::from_str("external tool exited with a failure status"),
    )
}

} // verus!
