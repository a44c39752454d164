use initialize_ssh::codec::encode_vars_file;
use initialize_ssh::error::SshInitError;
use initialize_ssh::orchestrator::{
    Action, Config, Event, Orchestrator, OverwritePolicy, Stage, State,
};
use initialize_ssh::vars::VarsFile;

fn test_config(policy: OverwritePolicy) -> Config {
    Config {
        comment: String::from("ansibleuser"),
        destination_path: String::from("/data/vars/ssh_vars.yaml"),
        vault_pass_file: String::from("/data/given_pass.txt"),
        vault_store_path: String::from("/data/home/.vault_pass.txt"),
        key_file_path: String::from("/data/home/.ssh/ansibleuser"),
        store_policy: policy,
    }
}

fn found(yes: bool) -> Event {
    Event::Exists { yes }
}

fn read_ok(text: &str) -> Event {
    Event::ReadResult { result: Ok(String::from(text)) }
}

fn write_ok() -> Event {
    Event::WriteResult { result: Ok(()) }
}

fn tool_ok() -> Event {
    Event::ToolResult { result: Ok(true) }
}

/// Drive the shared password steps: the given passphrase file exists and
/// holds `line`; the persisted store file does not exist yet. Leaves the
/// machine waiting for the destination check.
fn resolve_and_persist(orch: &mut Orchestrator, line: &str) {
    let act = orch.step(found(true));
    assert!(matches!(act, Action::ReadFile { .. }));
    let act = orch.step(read_ok(line));
    assert!(matches!(act, Action::CheckExists { ref path } if path.as_str() == "/data/home/.vault_pass.txt"));
    let act = orch.step(found(false));
    match act {
        Action::CreateFile { path, contents } => {
            assert_eq!(path, "/data/home/.vault_pass.txt");
            assert_eq!(contents, "secret");
        }
        other => panic!("expected a passphrase write, got {:?}", other),
    }
    let act = orch.step(write_ok());
    assert!(matches!(act, Action::CheckExists { ref path } if path.as_str() == "/data/vars/ssh_vars.yaml"));
}

#[test]
fn provisioning_flow_end_to_end() {
    let (mut orch, act) = Orchestrator::new(test_config(OverwritePolicy::ReuseIfExists));
    assert!(matches!(act, Action::CheckExists { ref path } if path.as_str() == "/data/given_pass.txt"));
    resolve_and_persist(&mut orch, "secret\ntrailing junk\n");

    // Destination absent: provisioning. Key file absent: generate it.
    let act = orch.step(found(false));
    assert!(matches!(act, Action::CheckExists { ref path } if path.as_str() == "/data/home/.ssh/ansibleuser"));
    let act = orch.step(found(false));
    match act {
        Action::RunTool { program, args } => {
            assert_eq!(program, "ssh-keygen");
            assert_eq!(
                args,
                vec!["-t", "ed25519", "-C", "ansibleuser", "-f", "/data/home/.ssh/ansibleuser", "-q", "-N", ""]
            );
        }
        other => panic!("expected key generation, got {:?}", other),
    }

    // Read both generated key files back.
    let act = orch.step(tool_ok());
    assert!(matches!(act, Action::ReadFile { ref path } if path.as_str() == "/data/home/.ssh/ansibleuser"));
    let act = orch.step(read_ok("PRIVATE KEY TEXT"));
    assert!(matches!(act, Action::ReadFile { ref path } if path.as_str() == "/data/home/.ssh/ansibleuser.pub"));
    let act = orch.step(read_ok("ssh-ed25519 AAAA ansibleuser"));

    // The document written to the destination holds exactly the key files.
    let doc = match act {
        Action::CreateFile { path, contents } => {
            assert_eq!(path, "/data/vars/ssh_vars.yaml");
            contents
        }
        other => panic!("expected the document write, got {:?}", other),
    };
    let decoded = initialize_ssh::codec::decode_vars_file(&doc).unwrap();
    assert_eq!(decoded.ssh_public_key, "ssh-ed25519 AAAA ansibleuser");
    assert_eq!(decoded.ssh_private_key, "PRIVATE KEY TEXT");

    // Encrypt in place with the persisted passphrase file, then done.
    let act = orch.step(write_ok());
    match act {
        Action::RunTool { program, args } => {
            assert_eq!(program, "ansible-vault");
            assert_eq!(
                args,
                vec!["encrypt", "/data/vars/ssh_vars.yaml", "--vault-pass-file", "/data/home/.vault_pass.txt"]
            );
        }
        other => panic!("expected encryption, got {:?}", other),
    }
    let act = orch.step(tool_ok());
    assert!(matches!(act, Action::Report));
    assert!(orch.done());
    assert!(matches!(orch.state, State::Provisioned));
}

#[test]
fn restore_flow_end_to_end() {
    let vars = VarsFile {
        ssh_public_key: String::from("ssh-ed25519 BBBB ansibleuser"),
        ssh_private_key: String::from("RESTORED PRIVATE KEY\nwith a second line\n"),
    };
    let doc = encode_vars_file(&vars).unwrap();

    let (mut orch, _) = Orchestrator::new(test_config(OverwritePolicy::ReuseIfExists));
    resolve_and_persist(&mut orch, "secret");

    // Destination present: restore. Decrypt it in place first.
    let act = orch.step(found(true));
    match act {
        Action::RunTool { program, args } => {
            assert_eq!(program, "ansible-vault");
            assert_eq!(
                args,
                vec!["decrypt", "/data/vars/ssh_vars.yaml", "--vault-pass-file", "/data/home/.vault_pass.txt"]
            );
        }
        other => panic!("expected decryption, got {:?}", other),
    }

    // No key files yet: read the document and write both key files.
    let act = orch.step(tool_ok());
    assert!(matches!(act, Action::CheckExists { ref path } if path.as_str() == "/data/home/.ssh/ansibleuser"));
    let act = orch.step(found(false));
    assert!(matches!(act, Action::ReadFile { ref path } if path.as_str() == "/data/vars/ssh_vars.yaml"));
    let act = orch.step(read_ok(&doc));
    match act {
        Action::CreateFile { path, contents } => {
            assert_eq!(path, "/data/home/.ssh/ansibleuser.pub");
            assert_eq!(contents, "ssh-ed25519 BBBB ansibleuser");
        }
        other => panic!("expected the public key write, got {:?}", other),
    }
    let act = orch.step(write_ok());
    match act {
        Action::CreatePrivateKeyFile { path, contents, mode } => {
            assert_eq!(path, "/data/home/.ssh/ansibleuser");
            assert_eq!(contents, "RESTORED PRIVATE KEY\nwith a second line\n");
            assert_eq!(mode, 0o600);
        }
        other => panic!("expected the private key write, got {:?}", other),
    }

    // The destination is re-encrypted as the last outside step.
    let act = orch.step(write_ok());
    assert!(matches!(act, Action::RunTool { ref args, .. } if args[0] == "encrypt"));
    let act = orch.step(tool_ok());
    assert!(matches!(act, Action::Report));
    assert!(matches!(orch.state, State::Restored));
}

#[test]
fn restore_reencrypts_before_surfacing_a_malformed_document() {
    let (mut orch, _) = Orchestrator::new(test_config(OverwritePolicy::ReuseIfExists));
    resolve_and_persist(&mut orch, "secret");

    let _ = orch.step(found(true)); // destination present: decrypt
    let _ = orch.step(tool_ok()); // decrypted: check for existing keys
    let act = orch.step(found(false));
    assert!(matches!(act, Action::ReadFile { .. }));

    // The document is malformed; the next action must still be re-encryption.
    let act = orch.step(read_ok("::not a mapping: ["));
    assert!(matches!(act, Action::RunTool { ref args, .. } if args[0] == "encrypt"));
    assert!(!orch.done());

    // Only after re-encryption succeeds does the parse error surface.
    let act = orch.step(tool_ok());
    assert!(matches!(act, Action::Report));
    match &orch.state {
        State::Failed { stage, cause } => {
            assert_eq!(*stage, Stage::Materialize);
            assert!(matches!(cause, SshInitError::ParseError(_)));
        }
        other => panic!("expected a deferred materialize failure, got {:?}", other),
    }
}

#[test]
fn restore_reencrypts_before_surfacing_a_key_write_failure() {
    let vars = VarsFile {
        ssh_public_key: String::from("pk"),
        ssh_private_key: String::from("sk"),
    };
    let doc = encode_vars_file(&vars).unwrap();

    let (mut orch, _) = Orchestrator::new(test_config(OverwritePolicy::ReuseIfExists));
    resolve_and_persist(&mut orch, "secret");
    let _ = orch.step(found(true));
    let _ = orch.step(tool_ok());
    let _ = orch.step(found(false));
    let _ = orch.step(read_ok(&doc));

    // The public key write fails: re-encrypt first, surface the error after.
    let act = orch.step(Event::WriteResult { result: Err(String::from("disk full")) });
    assert!(matches!(act, Action::RunTool { ref args, .. } if args[0] == "encrypt"));
    let _ = orch.step(tool_ok());
    match &orch.state {
        State::Failed { stage, cause } => {
            assert_eq!(*stage, Stage::Materialize);
            assert_eq!(*cause, SshInitError::IOError(String::from("disk full")));
        }
        other => panic!("expected a deferred materialize failure, got {:?}", other),
    }
}

#[test]
fn reencrypt_failure_is_fatal() {
    let (mut orch, _) = Orchestrator::new(test_config(OverwritePolicy::ReuseIfExists));
    resolve_and_persist(&mut orch, "secret");
    let _ = orch.step(found(true));
    let _ = orch.step(tool_ok());
    let _ = orch.step(found(true)); // keys already present: straight to re-encrypt
    let _ = orch.step(Event::ToolResult { result: Ok(false) });
    assert!(matches!(orch.state, State::RestoredWithReencryptFailure { .. }));
}

#[test]
fn existing_keys_are_never_rewritten_on_restore() {
    let (mut orch, _) = Orchestrator::new(test_config(OverwritePolicy::ReuseIfExists));
    resolve_and_persist(&mut orch, "secret");
    let _ = orch.step(found(true));
    let act = orch.step(tool_ok());
    assert!(matches!(act, Action::CheckExists { ref path } if path.as_str() == "/data/home/.ssh/ansibleuser"));

    // Key file already present: no write is requested, only re-encryption.
    let act = orch.step(found(true));
    assert!(matches!(act, Action::RunTool { ref args, .. } if args[0] == "encrypt"));
    let _ = orch.step(tool_ok());
    assert!(matches!(orch.state, State::Restored));
}

#[test]
fn existing_key_file_skips_generation() {
    let (mut orch, _) = Orchestrator::new(test_config(OverwritePolicy::ReuseIfExists));
    resolve_and_persist(&mut orch, "secret");
    let _ = orch.step(found(false)); // destination absent: provisioning
    // Key file already present: no tool run, straight to reading it back.
    let act = orch.step(found(true));
    assert!(matches!(act, Action::ReadFile { ref path } if path.as_str() == "/data/home/.ssh/ansibleuser"));
}

#[test]
fn existing_passphrase_store_is_reused_not_rewritten() {
    let (mut orch, _) = Orchestrator::new(test_config(OverwritePolicy::ReuseIfExists));
    let _ = orch.step(found(true));
    let _ = orch.step(read_ok("secret"));
    // Store already present under the reuse policy: the next action is the
    // destination check, not a write.
    let act = orch.step(found(true));
    assert!(matches!(act, Action::CheckExists { ref path } if path.as_str() == "/data/vars/ssh_vars.yaml"));
}

#[test]
fn existing_passphrase_store_refused_under_strict_policy() {
    let (mut orch, _) = Orchestrator::new(test_config(OverwritePolicy::FailIfExists));
    let _ = orch.step(found(true));
    let _ = orch.step(read_ok("secret"));
    let act = orch.step(found(true));
    assert!(matches!(act, Action::Report));
    match &orch.state {
        State::Failed { stage, cause } => {
            assert_eq!(*stage, Stage::PersistPassword);
            assert_eq!(*cause, SshInitError::AlreadyExists);
        }
        other => panic!("expected a persist refusal, got {:?}", other),
    }
}

#[test]
fn empty_passphrase_file_fails_the_resolve_stage() {
    let (mut orch, _) = Orchestrator::new(test_config(OverwritePolicy::ReuseIfExists));
    let _ = orch.step(found(true));
    let act = orch.step(read_ok(""));
    assert!(matches!(act, Action::Report));
    match &orch.state {
        State::Failed { stage, cause } => {
            assert_eq!(*stage, Stage::ResolvePassword);
            assert_eq!(*cause, SshInitError::EmptyInput);
        }
        other => panic!("expected an empty-input failure, got {:?}", other),
    }
}

#[test]
fn missing_passphrase_file_prompts_instead() {
    let (mut orch, _) = Orchestrator::new(test_config(OverwritePolicy::ReuseIfExists));
    let act = orch.step(found(false));
    assert!(matches!(act, Action::PromptPassphrase));
    let act = orch.step(Event::PassphraseEntered { result: Ok(String::from("typed")) });
    assert!(matches!(act, Action::CheckExists { ref path } if path.as_str() == "/data/home/.vault_pass.txt"));
    let act = orch.step(found(false));
    match act {
        Action::CreateFile { contents, .. } => assert_eq!(contents, "typed"),
        other => panic!("expected a passphrase write, got {:?}", other),
    }
}

#[test]
fn failed_prompt_read_is_an_io_error() {
    let (mut orch, _) = Orchestrator::new(test_config(OverwritePolicy::ReuseIfExists));
    let _ = orch.step(found(false));
    let act = orch.step(Event::PassphraseEntered { result: Err(String::from("no terminal")) });
    assert!(matches!(act, Action::Report));
    match &orch.state {
        State::Failed { stage, cause } => {
            assert_eq!(*stage, Stage::ResolvePassword);
            assert_eq!(*cause, SshInitError::IOError(String::from("no terminal")));
        }
        other => panic!("expected an io failure, got {:?}", other),
    }
}

#[test]
fn unreadable_passphrase_file_is_an_io_error() {
    let (mut orch, _) = Orchestrator::new(test_config(OverwritePolicy::ReuseIfExists));
    let _ = orch.step(found(true));
    let _ = orch.step(Event::ReadResult { result: Err(String::from("permission denied")) });
    match &orch.state {
        State::Failed { stage, cause } => {
            assert_eq!(*stage, Stage::ResolvePassword);
            assert_eq!(*cause, SshInitError::IOError(String::from("permission denied")));
        }
        other => panic!("expected an io failure, got {:?}", other),
    }
}

#[test]
fn keygen_spawn_failure_is_an_external_tool_error() {
    let (mut orch, _) = Orchestrator::new(test_config(OverwritePolicy::ReuseIfExists));
    resolve_and_persist(&mut orch, "secret");
    let _ = orch.step(found(false));
    let _ = orch.step(found(false)); // key absent: generation requested
    let _ = orch.step(Event::ToolResult { result: Err(String::from("spawn failed")) });
    match &orch.state {
        State::Failed { stage, cause } => {
            assert_eq!(*stage, Stage::GenerateKey);
            assert_eq!(*cause, SshInitError::ExternalToolError(String::from("spawn failed")));
        }
        other => panic!("expected a tool failure, got {:?}", other),
    }
}

#[test]
fn keygen_nonzero_exit_fails_the_generate_stage() {
    let (mut orch, _) = Orchestrator::new(test_config(OverwritePolicy::ReuseIfExists));
    resolve_and_persist(&mut orch, "secret");
    let _ = orch.step(found(false));
    let _ = orch.step(found(false));
    let _ = orch.step(Event::ToolResult { result: Ok(false) });
    match &orch.state {
        State::Failed { stage, cause } => {
            assert_eq!(*stage, Stage::GenerateKey);
            assert!(matches!(cause, SshInitError::ExternalToolError(_)));
        }
        other => panic!("expected a tool failure, got {:?}", other),
    }
}
