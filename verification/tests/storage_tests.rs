use pqvault::crypto::CryptoError;
use pqvault::models::{Entry, UserIndex, UserRecord, Vault};
use pqvault::storage::{
    app_root, index_path, key_bundle_file, key_path_from_input, register_user, remove_user, root_from_config,
    user_dir_under, vault_path_for, KeyBundleFile, KEY_BUNDLE_FILE_VERSION,
};
use pqvault::util::{password_from_words, printable_password, random_bytes};

fn rec(name: &str) -> UserRecord {
    UserRecord { username: name.to_string(), key_bundle_path: format!("/k/{name}"), vault_path: format!("/v/{name}") }
}

#[test]
fn paths_are_joined() {
    assert_eq!(key_path_from_input("/tmp/keys", "alice.json"), "/tmp/keys/alice.json");
    assert_eq!(key_path_from_input("/tmp/keys", "/abs/alice.json"), "/abs/alice.json");
    assert_eq!(root_from_config(Some("/cfg".to_string())), "/cfg/pqvault");
    assert_eq!(root_from_config(None), "./pqvault");
    assert_eq!(user_dir_under("/cfg/pqvault", "bob"), "/cfg/pqvault/vaults/bob");
    let root = app_root();
    assert!(root.ends_with("pqvault"));
    assert_eq!(index_path(), format!("{root}/users.json"));
    assert_eq!(vault_path_for("bob"), format!("{root}/vaults/bob/vault.pqv"));
}

#[test]
fn register_replaces_an_earlier_record_of_the_same_name() {
    let mut index = UserIndex { users: vec![rec("a"), rec("b"), rec("a")] };
    let r = register_user(&mut index, "a", "/keys/a.json");
    assert_eq!(r.username, "a");
    assert_eq!(r.key_bundle_path, "/keys/a.json");
    assert!(r.vault_path.ends_with("vaults/a/vault.pqv"));
    let names: Vec<&str> = index.users.iter().map(|u| u.username.as_str()).collect();
    assert_eq!(names, vec!["b", "a"]);
    assert_eq!(index.users[1].key_bundle_path, "/keys/a.json");
}

#[test]
fn remove_keeps_the_other_users_in_order() {
    let mut index = UserIndex { users: vec![rec("a"), rec("b"), rec("a"), rec("c")] };
    remove_user(&mut index, "a");
    let names: Vec<&str> = index.users.iter().map(|u| u.username.as_str()).collect();
    assert_eq!(names, vec!["b", "c"]);
    remove_user(&mut index, "zz");
    assert_eq!(index.users.len(), 2);
}

#[test]
fn defaults_and_copies() {
    assert_eq!(Vault::default().entries.len(), 0);
    assert_eq!(UserIndex::default().users.len(), 0);
    let e = Entry::empty();
    assert_eq!((e.title.as_str(), e.username.as_str(), e.password.as_str(), e.notes.as_str()), ("", "", "", ""));
    let i = UserIndex { users: vec![rec("x")] };
    let d = i.duplicate();
    assert_eq!(d.users[0].vault_path, "/v/x");
}

#[test]
fn key_bundle_file_round_trip() {
    let file = key_bundle_file(&[1u8; 16], &[2u8; 24], &[3u8, 4, 5]);
    assert_eq!(file.version, KEY_BUNDLE_FILE_VERSION);
    assert_eq!(file.salt_b64, "AQEBAQEBAQEBAQEBAQEBAQ==");
    assert_eq!(file.ciphertext_b64, "AwQF");
    let parts = file.parts().unwrap();
    assert_eq!(parts.salt, vec![1u8; 16]);
    assert_eq!(parts.nonce, vec![2u8; 24]);
    assert_eq!(parts.ciphertext, vec![3u8, 4, 5]);
}

#[test]
fn key_bundle_file_refuses_bad_base64() {
    let file = KeyBundleFile {
        version: 1,
        salt_b64: "AAAA".to_string(),
        nonce_b64: "@@".to_string(),
        ciphertext_b64: "AAAA".to_string(),
    };
    assert_eq!(file.parts().err(), Some(CryptoError::Base64));
}

#[test]
fn passwords_are_printable_and_long_enough() {
    let p = printable_password(4);
    assert_eq!(p.chars().count(), 16);
    let p = printable_password(40);
    assert_eq!(p.chars().count(), 40);
    assert!(p.chars().all(|c| ('!'..='~').contains(&c)));
    assert_eq!(password_from_words(&[0, 93, 94, 1, 4000000000]), "!~!\"O");
    assert_eq!(random_bytes(7).len(), 7);
}
