//! The guarantees of the lifecycle machine, stated over its transition
//! relation: the overwrite guards, the private key file's permission bits,
//! the two flows end to end, and the rule that a failed materialization never
//! leaves the destination unencrypted.

use vstd::prelude::*;

use crate::codec::vars_doc;
use crate::error::SshInitError;
use crate::orchestrator::{
    is_check_exists, is_create_file, is_create_private_key, is_failed, is_read_file,
    is_run_keygen, is_run_vault, step_rel, Action, Config, Event, OverwritePolicy, Stage, State,
};
use crate::paths::public_key_path_spec;

verus! {

/// Law: a pre-existing persisted passphrase file is never written. On
/// learning that the store path exists, the machine either carries on with
/// the file as it is or refuses, by policy; under no policy does it ask for
/// a write.
pub proof fn lemma_persist_never_overwrites(
    c: Config,
    password: String,
    ev: Event,
    post: State,
    act: Action,
)
    requires
        step_rel(c, State::CheckingStore { password }, ev, post, act),
        ev matches Event::Exists { yes: true },
    ensures
        !(act matches Action::CreateFile { .. }),
        !(act matches Action::CreatePrivateKeyFile { .. }),
        c.store_policy == OverwritePolicy::ReuseIfExists ==> post is CheckingDestination
            && is_check_exists(act, c.destination_path@),
        c.store_policy == OverwritePolicy::FailIfExists ==> is_failed(
            post,
            Stage::PersistPassword,
            SshInitError::AlreadyExists,
        ),
{
}

/// Law: key generation on a path that already exists runs no tool. The
/// machine goes straight on to reading the key files back.
pub proof fn lemma_generate_skips_existing_key(c: Config, ev: Event, post: State, act: Action)
    requires
        step_rel(c, State::CheckingKeyFile, ev, post, act),
        ev matches Event::Exists { yes: true },
    ensures
        !(act matches Action::RunTool { .. }),
        post is ReadingPrivateKey,
        is_read_file(act, c.key_file_path@),
{
}

/// Law: materialization on a destination that already exists writes no key
/// file. The machine records a no-op success and moves on to re-encryption.
pub proof fn lemma_materialize_skips_existing_keys(c: Config, ev: Event, post: State, act: Action)
    requires
        step_rel(c, State::CheckingExistingKeys, ev, post, act),
        ev matches Event::Exists { yes: true },
    ensures
        !(act matches Action::CreateFile { .. }),
        !(act matches Action::CreatePrivateKeyFile { .. }),
        post matches State::Reencrypting { pending } && pending is None,
        is_run_vault(act, "encrypt"@, c.destination_path@, c.vault_store_path@),
{
}

/// Law: whenever the machine asks for the private key file to be written, it
/// asks for it at the configured key path with owner-only read/write
/// permission bits, from the start.
pub proof fn lemma_private_key_mode(c: Config, pre: State, ev: Event, post: State, act: Action)
    requires
        step_rel(c, pre, ev, post, act),
    ensures
        act matches Action::CreatePrivateKeyFile { path, contents, mode } ==> mode == 0o600u32
            && path@ == c.key_file_path@,
{
}

/// Law: a failure while materializing — the decrypted document unreadable,
/// malformed, or a key file write refused — does not surface at once: the
/// very next action is re-encrypting the destination.
pub proof fn lemma_materialize_failure_reencrypts(
    c: Config,
    pre: State,
    ev: Event,
    post: State,
    act: Action,
)
    requires
        step_rel(c, pre, ev, post, act),
        pre is ReadingVarsDoc || pre matches State::WritingPublicKey { .. } || pre matches
            State::WritingPrivateKey { .. },
        post matches State::Reencrypting { pending } && pending is Some,
    ensures
        is_run_vault(act, "encrypt"@, c.destination_path@, c.vault_store_path@),
{
}

/// Law: a read or write error during materialization always takes the
/// deferring path of [`lemma_materialize_failure_reencrypts`]: the error is
/// parked and re-encryption requested.
pub proof fn lemma_materialize_error_defers(
    c: Config,
    pre: State,
    ev: Event,
    post: State,
    act: Action,
)
    requires
        step_rel(c, pre, ev, post, act),
        pre is ReadingVarsDoc || pre matches State::WritingPublicKey { .. } || pre matches
            State::WritingPrivateKey { .. },
        (ev matches Event::ReadResult { result } && result is Err) || (ev matches
        Event::WriteResult { result } && result is Err),
    ensures
        post matches State::Reencrypting { pending } && pending is Some,
        is_run_vault(act, "encrypt"@, c.destination_path@, c.vault_store_path@),
{
}

/// Law: an error parked during materialization surfaces only once the
/// destination has been re-encrypted, and exactly as it was parked; if the
/// re-encryption itself fails, that failure is reported as fatal instead.
pub proof fn lemma_deferred_error_surfaces_after_reencrypt(
    c: Config,
    pending_err: SshInitError,
    ev: Event,
    post: State,
    act: Action,
)
    requires
        step_rel(c, State::Reencrypting { pending: Some(pending_err) }, ev, post, act),
    ensures
        ev matches Event::ToolResult { result: Ok(true) } ==> is_failed(
            post,
            Stage::Materialize,
            pending_err,
        ) && act is Report,
        (ev matches Event::ToolResult { result } && !(result matches Ok(true))) ==> post matches
            State::RestoredWithReencryptFailure { .. },
{
}

/// Law (provisioning, end to end): starting at the flow fork with the
/// destination absent, a run whose outside steps all succeed asks for
/// exactly this, in this order: a key-file check, key generation with the
/// configured comment, a read of both generated key files, a write of their
/// encoded document to the destination, and an encryption of the destination
/// with the persisted passphrase file — and ends `Provisioned`.
pub proof fn lemma_provisioning_flow(
    c: Config,
    private_key: String,
    public_key: String,
    s1: State,
    a1: Action,
    s2: State,
    a2: Action,
    s3: State,
    a3: Action,
    s4: State,
    a4: Action,
    s5: State,
    a5: Action,
    s6: State,
    a6: Action,
    s7: State,
    a7: Action,
)
    requires
        step_rel(c, State::CheckingDestination, Event::Exists { yes: false }, s1, a1),
        step_rel(c, s1, Event::Exists { yes: false }, s2, a2),
        step_rel(c, s2, Event::ToolResult { result: Ok(true) }, s3, a3),
        step_rel(c, s3, Event::ReadResult { result: Ok(private_key) }, s4, a4),
        step_rel(c, s4, Event::ReadResult { result: Ok(public_key) }, s5, a5),
        step_rel(c, s5, Event::WriteResult { result: Ok(()) }, s6, a6),
        step_rel(c, s6, Event::ToolResult { result: Ok(true) }, s7, a7),
    ensures
        s1 is CheckingKeyFile && is_check_exists(a1, c.key_file_path@),
        s2 is RunningKeygen && is_run_keygen(a2, c.key_file_path@, c.comment@),
        s3 is ReadingPrivateKey && is_read_file(a3, c.key_file_path@),
        s4 matches State::ReadingPublicKey { private_key: p } && p@ == private_key@,
        is_read_file(a4, public_key_path_spec(c.key_file_path@)),
        s5 is WritingVarsDoc,
        is_create_file(a5, c.destination_path@, vars_doc(public_key@, private_key@)),
        s6 is Encrypting && is_run_vault(a6, "encrypt"@, c.destination_path@, c.vault_store_path@),
        s7 is Provisioned && a7 is Report,
{
}

/// Law (restore, end to end): starting at the flow fork with the destination
/// present and holding the encoding of a keypair, a run whose outside steps
/// all succeed decrypts the destination, writes key files matching exactly
/// the vaulted keypair — the private one with owner-only permission bits —
/// re-encrypts the destination as its last outside step, and ends
/// `Restored`.
pub proof fn lemma_restore_flow(
    c: Config,
    doc_text: String,
    public_key: Seq<char>,
    private_key: Seq<char>,
    s1: State,
    a1: Action,
    s2: State,
    a2: Action,
    s3: State,
    a3: Action,
    s4: State,
    a4: Action,
    s5: State,
    a5: Action,
    s6: State,
    a6: Action,
    s7: State,
    a7: Action,
)
    requires
        doc_text@ == vars_doc(public_key, private_key),
        step_rel(c, State::CheckingDestination, Event::Exists { yes: true }, s1, a1),
        step_rel(c, s1, Event::ToolResult { result: Ok(true) }, s2, a2),
        step_rel(c, s2, Event::Exists { yes: false }, s3, a3),
        step_rel(c, s3, Event::ReadResult { result: Ok(doc_text) }, s4, a4),
        step_rel(c, s4, Event::WriteResult { result: Ok(()) }, s5, a5),
        step_rel(c, s5, Event::WriteResult { result: Ok(()) }, s6, a6),
        step_rel(c, s6, Event::ToolResult { result: Ok(true) }, s7, a7),
    ensures
        s1 is Decrypting && is_run_vault(a1, "decrypt"@, c.destination_path@, c.vault_store_path@),
        s2 is CheckingExistingKeys && is_check_exists(a2, c.key_file_path@),
        s3 is ReadingVarsDoc && is_read_file(a3, c.destination_path@),
        s4 matches State::WritingPublicKey { private_key: p } && p@ == private_key,
        is_create_file(a4, public_key_path_spec(c.key_file_path@), public_key),
        s5 matches State::WritingPrivateKey { private_key: q } && q@ == private_key,
        is_create_private_key(a5, c.key_file_path@, private_key),
        s6 matches State::Reencrypting { pending } && pending is None,
        is_run_vault(a6, "encrypt"@, c.destination_path@, c.vault_store_path@),
        s7 is Restored && a7 is Report,
{
}

} // verus!
