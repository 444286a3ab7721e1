use pqvault::crypto::{seal_key_bundle, CryptoError};
use pqvault::flow::{
    check_new_username, check_vault_owner, deletion_confirmed, legacy_user_dir, pick_user, run_app,
    user_to_delete, AppFlow, FlowAction, FlowError, FlowEvent, Stage,
};
use pqvault::models::{Entry, KeyBundle, UserIndex, UserRecord, Vault, VaultEnvelope};
use pqvault::storage::{key_bundle_file, KeyBundleFile};
use pqvault::tui::LoginSelection;

fn text(t: &str) -> FlowEvent {
    FlowEvent::TextEntered(t.to_string())
}

fn expect_text(act: &FlowAction, prompt: &str) {
    match act {
        FlowAction::AskText(p) => assert_eq!(p, prompt),
        _ => panic!("expected a text prompt {prompt}"),
    }
}

fn expect_secret(act: &FlowAction, prompt: &str) {
    match act {
        FlowAction::AskSecret(p) => assert_eq!(p, prompt),
        _ => panic!("expected a secret prompt {prompt}"),
    }
}

fn expect_message(act: &FlowAction, message: &str) {
    match act {
        FlowAction::ShowMessage(m) => assert_eq!(m, message),
        _ => panic!("expected the message {message}"),
    }
}

fn expect_error(act: &FlowAction, e: FlowError) {
    match act {
        FlowAction::Finish(Err(got)) => assert_eq!(*got, e),
        _ => panic!("expected the error {e:?}"),
    }
}

fn expect_ok(act: &FlowAction) {
    match act {
        FlowAction::Finish(Ok(())) => {}
        _ => panic!("expected success"),
    }
}

struct Created {
    flow: AppFlow,
    file: KeyBundleFile,
    bundle: KeyBundle,
    env: VaultEnvelope,
}

/// Runs the flow through the creation of user `alice` with passphrase `pw`,
/// up to the unlock prompt.
fn create_alice() -> Created {
    let flow = AppFlow { index: UserIndex::default(), stage: Stage::Start };
    let (flow, act) = run_app(flow, FlowEvent::Started);
    assert!(matches!(act, FlowAction::LoadIndex));
    let (flow, act) = run_app(flow, FlowEvent::IndexLoaded(UserIndex::default()));
    match &act {
        FlowAction::ShowLogin(lines) => assert_eq!(lines, &vec!["[Create new]".to_string(), "[Delete user]".to_string()]),
        _ => panic!("expected the login menu"),
    }
    let (flow, act) = run_app(flow, FlowEvent::LoginChosen(LoginSelection::CreateNew));
    expect_text(&act, "New username");
    let (flow, act) = run_app(flow, text("alice"));
    expect_text(&act, "Key directory");
    let (flow, act) = run_app(flow, text("/tmp/keys"));
    expect_text(&act, "Key filename");
    let (flow, act) = run_app(flow, text("alice.json"));
    expect_secret(&act, "Create passphrase");
    let (flow, act) = run_app(flow, text("pw"));
    let user_dir = match act {
        FlowAction::CreateUserDir(d) => d,
        _ => panic!("expected a directory to create"),
    };
    assert!(user_dir.ends_with("pqvault/vaults/alice"));
    let (flow, act) = run_app(flow, FlowEvent::Done);
    let bundle = match act {
        FlowAction::SerializeKeyBundle(b) => b,
        _ => panic!("expected a bundle to serialise"),
    };
    assert_eq!(bundle.username, "alice");
    let (flow, act) = run_app(flow, FlowEvent::Serialized(b"BUNDLE-JSON".to_vec()));
    let file = match act {
        FlowAction::SaveKeyBundle(path, file) => {
            assert_eq!(path, "/tmp/keys/alice.json");
            file
        }
        _ => panic!("expected a key bundle to save"),
    };
    assert_eq!(file.version, 1);
    let (flow, act) = run_app(flow, FlowEvent::Done);
    match &act {
        FlowAction::SerializeVault(v) => assert_eq!(v.entries.len(), 0),
        _ => panic!("expected an empty vault to serialise"),
    }
    assert_eq!(flow.index.users.len(), 1);
    assert_eq!(flow.index.users[0].key_bundle_path, "/tmp/keys/alice.json");
    let (flow, act) = run_app(flow, FlowEvent::Serialized(b"[]".to_vec()));
    let env = match act {
        FlowAction::SaveVault(path, env) => {
            assert!(path.ends_with("pqvault/vaults/alice/vault.pqv"));
            env
        }
        _ => panic!("expected a vault to save"),
    };
    assert_eq!(env.username, "alice");
    let (flow, act) = run_app(flow, FlowEvent::Done);
    match &act {
        FlowAction::WritePublicCard(card) => {
            assert_eq!(card.path, format!("{user_dir}/public.json"));
            assert_eq!(card.username, "alice");
            assert_eq!(card.kem_public_b64, bundle.kem_public_b64);
            assert_eq!(card.dsa_public_b64, bundle.dsa_public_b64);
        }
        _ => panic!("expected the public card"),
    }
    let (flow, act) = run_app(flow, FlowEvent::Done);
    expect_message(&act, "User created.");
    let (flow, act) = run_app(flow, FlowEvent::Done);
    match &act {
        FlowAction::SaveIndex(i) => assert_eq!(i.users[0].username, "alice"),
        _ => panic!("expected the index to save"),
    }
    let (flow, act) = run_app(flow, FlowEvent::Done);
    expect_secret(&act, "Unlock key bundle");
    Created { flow, file, bundle, env }
}

#[test]
fn flow_creates_unlocks_and_saves() {
    let Created { flow, file, bundle, env } = create_alice();
    let (flow, act) = run_app(flow, text("pw"));
    match &act {
        FlowAction::LoadKeyBundle(p) => assert_eq!(p, "/tmp/keys/alice.json"),
        _ => panic!("expected the key bundle to load"),
    }
    let (flow, act) = run_app(flow, FlowEvent::KeyBundleLoaded(file));
    match &act {
        FlowAction::ParseKeyBundle(b) => assert_eq!(b, b"BUNDLE-JSON"),
        _ => panic!("expected the key bundle to parse"),
    }
    let (flow, act) = run_app(flow, FlowEvent::KeyBundleParsed(bundle));
    assert!(matches!(act, FlowAction::LoadVault(_)));
    let (flow, act) = run_app(flow, FlowEvent::VaultLoaded(Some(env)));
    match &act {
        FlowAction::ParseVault(b) => assert_eq!(b, b"[]"),
        _ => panic!("expected the vault to parse"),
    }
    let vault = Vault { entries: vec![Entry::empty()] };
    let (flow, act) = run_app(flow, FlowEvent::VaultParsed(vault));
    let vault = match act {
        FlowAction::RunVault(u, _, v) => {
            assert_eq!(u, "alice");
            v
        }
        _ => panic!("expected the vault screen"),
    };
    let (flow, act) = run_app(flow, FlowEvent::VaultClosed(vault));
    assert!(matches!(act, FlowAction::SerializeVault(_)));
    let (flow, act) = run_app(flow, FlowEvent::Serialized(b"[1]".to_vec()));
    assert!(matches!(act, FlowAction::SaveVault(_, _)));
    let (flow, act) = run_app(flow, FlowEvent::Done);
    expect_message(&act, "Vault saved.");
    let (flow, act) = run_app(flow, FlowEvent::Done);
    expect_ok(&act);
    let (_, act) = run_app(flow, FlowEvent::Done);
    expect_error(&act, FlowError::UnexpectedEvent);
}

#[test]
fn flow_refuses_a_wrong_unlock_passphrase() {
    let Created { flow, file, .. } = create_alice();
    let (flow, _) = run_app(flow, text("not pw"));
    let (_, act) = run_app(flow, FlowEvent::KeyBundleLoaded(file));
    expect_error(&act, FlowError::UnlockFailed(CryptoError::DecryptionFailed));
}

#[test]
fn flow_opens_a_fresh_vault_when_there_is_none() {
    let Created { flow, file, bundle, .. } = create_alice();
    let (flow, _) = run_app(flow, text("pw"));
    let (flow, _) = run_app(flow, FlowEvent::KeyBundleLoaded(file));
    let (flow, _) = run_app(flow, FlowEvent::KeyBundleParsed(bundle));
    let (_, act) = run_app(flow, FlowEvent::VaultLoaded(None));
    match act {
        FlowAction::RunVault(_, _, v) => assert_eq!(v.entries.len(), 0),
        _ => panic!("expected the vault screen"),
    }
}

#[test]
fn flow_refuses_a_vault_of_another_user() {
    let Created { flow, file, bundle, mut env } = create_alice();
    env.username = "bob".to_string();
    let (flow, _) = run_app(flow, text("pw"));
    let (flow, _) = run_app(flow, FlowEvent::KeyBundleLoaded(file));
    let (flow, _) = run_app(flow, FlowEvent::KeyBundleParsed(bundle));
    let (_, act) = run_app(flow, FlowEvent::VaultLoaded(Some(env)));
    expect_error(&act, FlowError::VaultOwnerMismatch);
}

#[test]
fn flow_deletes_a_user_after_authentication_and_confirmation() {
    let Created { flow, file, bundle, .. } = create_alice();
    let index = flow.index;
    let flow = AppFlow { index, stage: Stage::ChoosingLogin };
    let (flow, act) = run_app(flow, FlowEvent::LoginChosen(LoginSelection::DeleteUser));
    assert!(matches!(act, FlowAction::ShowLogin(_)));
    let (flow, act) = run_app(flow, FlowEvent::LoginChosen(LoginSelection::Existing(0)));
    expect_secret(&act, "Authenticate to delete account");
    let (flow, _) = run_app(flow, text("pw"));
    let (flow, act) = run_app(flow, FlowEvent::KeyBundleLoaded(file));
    assert!(matches!(act, FlowAction::ParseKeyBundle(_)));
    let (flow, act) = run_app(flow, FlowEvent::KeyBundleParsed(bundle));
    expect_text(&act, "Type DELETE to permanently remove user");
    let (flow, act) = run_app(flow, text("  DELETE "));
    match &act {
        FlowAction::RemoveUserFiles(v, k, d) => {
            assert!(v.ends_with("vaults/alice/vault.pqv"));
            assert_eq!(k, "/tmp/keys/alice.json");
            assert_eq!(d, "users/alice");
        }
        _ => panic!("expected the files to remove"),
    }
    let (flow, act) = run_app(flow, FlowEvent::Done);
    expect_message(&act, "User deleted.");
    assert_eq!(flow.index.users.len(), 0);
    let (flow, act) = run_app(flow, FlowEvent::Done);
    match &act {
        FlowAction::SaveIndex(i) => assert_eq!(i.users.len(), 0),
        _ => panic!("expected the index to save"),
    }
    let (_, act) = run_app(flow, FlowEvent::Done);
    expect_ok(&act);
}

#[test]
fn flow_deletion_needs_the_word_delete() {
    let Created { flow, file, bundle, .. } = create_alice();
    let flow = AppFlow { index: flow.index, stage: Stage::ChoosingUserToDelete };
    let (flow, _) = run_app(flow, FlowEvent::LoginChosen(LoginSelection::Existing(0)));
    let (flow, _) = run_app(flow, text("pw"));
    let (flow, _) = run_app(flow, FlowEvent::KeyBundleLoaded(file));
    let (flow, _) = run_app(flow, FlowEvent::KeyBundleParsed(bundle));
    let (flow, act) = run_app(flow, text("delete"));
    expect_error(&act, FlowError::DeletionCancelled);
    assert_eq!(flow.index.users.len(), 1);
}

#[test]
fn flow_deletion_needs_the_passphrase() {
    let Created { flow, file, .. } = create_alice();
    let flow = AppFlow { index: flow.index, stage: Stage::ChoosingUserToDelete };
    let (flow, _) = run_app(flow, FlowEvent::LoginChosen(LoginSelection::Existing(0)));
    let (flow, _) = run_app(flow, text("wrong"));
    let (_, act) = run_app(flow, FlowEvent::KeyBundleLoaded(file));
    expect_error(&act, FlowError::AuthenticationFailed(CryptoError::DecryptionFailed));
}

#[test]
fn flow_deletion_needs_a_key_bundle_behind_the_passphrase() {
    let Created { flow, .. } = create_alice();
    let sealed = seal_key_bundle(b"", "pw", &[7u8; 16], &[9u8; 24]).unwrap();
    let file = key_bundle_file(&sealed.salt, &sealed.nonce, &sealed.ciphertext);
    let flow = AppFlow { index: flow.index, stage: Stage::ChoosingUserToDelete };
    let (flow, _) = run_app(flow, FlowEvent::LoginChosen(LoginSelection::Existing(0)));
    let (flow, _) = run_app(flow, text("pw"));
    let (flow, act) = run_app(flow, FlowEvent::KeyBundleLoaded(file));
    match &act {
        FlowAction::ParseKeyBundle(bytes) => assert!(bytes.is_empty()),
        _ => panic!("expected the unlocked bundle to parse"),
    }
    let (flow, act) = run_app(flow, FlowEvent::ParseFailed("EOF while parsing a value".to_string()));
    let e = FlowError::AuthenticationUnparsable("EOF while parsing a value".to_string());
    assert_eq!(e.message(), "authentication failed: EOF while parsing a value");
    expect_error(&act, e);
    assert_eq!(flow.index.users.len(), 1);
}

#[test]
fn flow_login_reports_an_unparsable_bundle() {
    let Created { flow, file, .. } = create_alice();
    let flow = AppFlow { index: flow.index, stage: Stage::ChoosingLogin };
    let (flow, _) = run_app(flow, FlowEvent::LoginChosen(LoginSelection::Existing(0)));
    let (flow, _) = run_app(flow, FlowEvent::Done);
    let (flow, _) = run_app(flow, text("pw"));
    let (flow, act) = run_app(flow, FlowEvent::KeyBundleLoaded(file));
    assert!(matches!(act, FlowAction::ParseKeyBundle(_)));
    let (_, act) = run_app(flow, FlowEvent::ParseFailed("oops".to_string()));
    let e = FlowError::UnlockUnparsable("oops".to_string());
    assert_eq!(e.message(), "unlock private key bundle: oops");
    expect_error(&act, e);
}

#[test]
fn flow_refuses_bad_choices() {
    let flow = AppFlow { index: UserIndex::default(), stage: Stage::ChoosingLogin };
    let (_, act) = run_app(flow, FlowEvent::LoginChosen(LoginSelection::Existing(5)));
    expect_error(&act, FlowError::InvalidUserSelection);
    let flow = AppFlow { index: UserIndex::default(), stage: Stage::ChoosingUserToDelete };
    let (_, act) = run_app(flow, FlowEvent::LoginChosen(LoginSelection::CreateNew));
    expect_error(&act, FlowError::MustSelectExistingUser);
    let flow = AppFlow { index: UserIndex::default(), stage: Stage::ChoosingUserToDelete };
    let (_, act) = run_app(flow, FlowEvent::LoginChosen(LoginSelection::Existing(9)));
    expect_error(&act, FlowError::InvalidSelection);
    let flow = AppFlow { index: UserIndex::default(), stage: Stage::AskingUsername };
    let (_, act) = run_app(flow, text("  \t"));
    expect_error(&act, FlowError::UsernameEmpty);
    let flow = AppFlow { index: UserIndex::default(), stage: Stage::Start };
    let (_, act) = run_app(flow, FlowEvent::Done);
    expect_error(&act, FlowError::UnexpectedEvent);
}

#[test]
fn flow_reports_an_undecodable_key_bundle() {
    let record = UserRecord { username: "a".into(), key_bundle_path: "k".into(), vault_path: "v".into() };
    let flow = AppFlow {
        index: UserIndex::default(),
        stage: Stage::LoadingBundle { record, passphrase: "pw".to_string() },
    };
    let file = KeyBundleFile {
        version: 1,
        salt_b64: "!".to_string(),
        nonce_b64: String::new(),
        ciphertext_b64: String::new(),
    };
    let (_, act) = run_app(flow, FlowEvent::KeyBundleLoaded(file));
    expect_error(&act, FlowError::Crypto(CryptoError::Base64));
}

#[test]
fn flow_decisions() {
    let index = UserIndex {
        users: vec![UserRecord { username: "a".into(), key_bundle_path: "k".into(), vault_path: "v".into() }],
    };
    assert_eq!(pick_user(&index, 0).unwrap().username, "a");
    assert_eq!(pick_user(&index, 1).err(), Some(FlowError::InvalidUserSelection));
    assert_eq!(user_to_delete(&index, LoginSelection::Existing(0)).unwrap().vault_path, "v");
    assert_eq!(user_to_delete(&index, LoginSelection::DeleteUser).err(), Some(FlowError::MustSelectExistingUser));
    assert_eq!(check_new_username(" "), Err(FlowError::UsernameEmpty));
    assert_eq!(check_new_username("x"), Ok(()));
    assert!(deletion_confirmed("\nDELETE\t"));
    assert!(!deletion_confirmed("DEL ETE"));
    assert_eq!(legacy_user_dir("bo"), "users/bo");
    let env = VaultEnvelope {
        username: "a".into(),
        version: 1,
        kem_ciphertext_b64: String::new(),
        wrapped_key_b64: String::new(),
        nonce_b64: String::new(),
        ciphertext_b64: String::new(),
        signature_b64: String::new(),
    };
    assert_eq!(check_vault_owner(&env, &index.users[0]), Ok(()));
    let other = UserRecord { username: "b".into(), key_bundle_path: "k".into(), vault_path: "v".into() };
    assert_eq!(check_vault_owner(&env, &other), Err(FlowError::VaultOwnerMismatch));
}
