//! The application's flow: logging in, creating a user, deleting a user,
//! unlocking the key bundle and opening, editing and saving the vault. The
//! flow is a state that each event moves on, answering with the next thing
//! to do; the terminal, the files and JSON are handled by whoever runs it.
use vstd::prelude::*;

use crate::crypto::{
    crypto_error_text, vault_sealed_from,
    argon2_refuses, bundle_key, decrypt_key_bundle, encrypt_key_bundle, encrypt_vault, keys_from_bundle,
    bundle_kdf_refuses, unlocked_bundle, keys_paired, keys_well_formed, open_key_bundle, open_vault, open_vault_spec, passphrase_input,
    BytesOutcome, CryptoError, KeysOutcome, UserKeys, VaultOpening, KDF_CONTEXT_KEY_BUNDLE,
};
use crate::models::{KeyBundle, UserIndex, UserRecord, UserRecordView, Vault, VaultEnvelope};
use crate::primitives::{aead_message_fits, base64_encoding, join_path, joined_path};
use crate::storage::{
    is_app_root, user_dir_in, vault_path_in,
    bundle_parts, key_bundle_file, lemma_others_facts, key_path_from_input, others, register_user, remove_user, user_dir_for,
    KeyBundleFile,
};
use crate::text::{is_blank, is_white_space, lemma_trim_of_blank, same_text, trim_spec};
use crate::tui::{login_lines, LoginSelection};
use vstd::utf8::encode_utf8;

verus! {

/// Why the application stopped short of its goal.
#[derive(Debug, Clone, PartialEq, Eq)]
pub enum FlowError {
    /// A cryptographic step failed.
    Crypto(CryptoError),
    /// Unlocking the key bundle with the passphrase failed.
    UnlockFailed(CryptoError),
    /// The unlocked key bundle is not a key bundle; the parser's message.
    UnlockUnparsable(String),
    /// Checking the passphrase before a deletion failed.
    AuthenticationFailed(CryptoError),
    /// The key bundle unlocked before a deletion is not a key bundle; the
    /// parser's message.
    AuthenticationUnparsable(String),
    /// The chosen login line is not a user.
    InvalidUserSelection,
    /// The user chosen for deletion does not exist.
    InvalidSelection,
    /// Something other than a user was chosen for deletion.
    MustSelectExistingUser,
    /// A new username is blank.
    UsernameEmpty,
    /// The deletion was not confirmed.
    DeletionCancelled,
    /// The stored vault belongs to another user.
    VaultOwnerMismatch,
    /// An event that the current stage does not expect.
    UnexpectedEvent,
}

/// The record of the user on a login line, if the line is a user.
pub fn pick_user(index: &UserIndex, i: usize) -> (r: Result<UserRecord, FlowError>)
    ensures
        match r {
            Ok(u) => i < index@.len() && u@ == index@[i as int],
            Err(e) => i >= index@.len() && e == FlowError::InvalidUserSelection,
        },
{
    if i < index.users.len() {
        Ok(index.users[i].duplicate())
    } else {
        Err(FlowError::InvalidUserSelection)
    }
}

/// The user chosen for deletion: the selection must be an existing user.
pub fn user_to_delete(index: &UserIndex, selection: LoginSelection) -> (r: Result<UserRecord, FlowError>)
    ensures
        match selection {
            LoginSelection::Existing(i) => match r {
                Ok(u) => i < index@.len() && u@ == index@[i as int],
                Err(e) => i >= index@.len() && e == FlowError::InvalidSelection,
            },
            _ => r matches Err(e) && e == FlowError::MustSelectExistingUser,
        },
{
    match selection {
        LoginSelection::Existing(i) => {
            if i < index.users.len() {
                Ok(index.users[i].duplicate())
            } else {
                Err(FlowError::InvalidSelection)
            }
        },
        _ => Err(FlowError::MustSelectExistingUser),
    }
}

/// A new username is accepted unless it is blank.
pub fn check_new_username(username: &str) -> (r: Result<(), FlowError>)
    ensures
        r is Err == (trim_spec(username@).len() == 0),
        r matches Err(e) ==> e == FlowError::UsernameEmpty,
{
    if is_blank(username) {
        Err(FlowError::UsernameEmpty)
    } else {
        Ok(())
    }
}

/// Whether the typed confirmation is `DELETE`, ignoring surrounding white space.
pub fn deletion_confirmed(typed: &str) -> (ok: bool)
    ensures
        ok == (trim_spec(typed@) == "DELETE"@),
{
    same_text(typed.trim(), "DELETE")
}

/// A stored vault must belong to the user who opens it.
pub fn check_vault_owner(envelope: &VaultEnvelope, record: &UserRecord) -> (r: Result<(), FlowError>)
    ensures
        r is Ok == (envelope@.username == record@.username),
        r matches Err(e) ==> e == FlowError::VaultOwnerMismatch,
{
    if same_text(envelope.username.as_str(), record.username.as_str()) {
        Ok(())
    } else {
        Err(FlowError::VaultOwnerMismatch)
    }
}

/// The per-user directory that a deletion also removes: `users/<name>`,
/// relative to the working directory.
pub fn legacy_user_dir(username: &str) -> (dir: String)
    ensures
        dir@ == joined_path("users"@, username@),
{
    join_path("users", username)
}

/// Why the flow cannot go on without breaking the precondition of one of its
/// calls; the program stops with a panic in these cases.
#[derive(Debug, Clone, Copy, PartialEq, Eq)]
pub enum FlowAbort {
    /// The key bundle's nonce is not 24 bytes long.
    BundleNonceLength,
    /// The vault envelope's nonce is not 24 bytes long.
    VaultNonceLength,
    /// The serialised vault is too large to encode.
    VaultTooLarge,
    /// The serialised key bundle is too large to encode.
    BundleTooLarge,
}

/// The public half of a new user's keys, written beside the vault.
pub struct PublicCard {
    pub path: String,
    pub username: String,
    pub kem_public_b64: String,
    pub dsa_public_b64: String,
}

/// Where the flow stands, with what it has gathered so far.
pub enum Stage {
    Start,
    LoadingIndex,
    ChoosingLogin,
    ChoosingUserToDelete,
    AuthenticatingDeletion { user: UserRecord },
    LoadingBundleForDeletion { user: UserRecord, passphrase: String },
    ParsingBundleForDeletion { user: UserRecord },
    ConfirmingDeletion { user: UserRecord },
    RemovingFiles { user: UserRecord },
    ReportingDeletion,
    SavingIndexAfterDeletion,
    AskingUsername,
    AskingKeyDir { username: String },
    AskingKeyFile { username: String, dir: String },
    AskingNewPassphrase { username: String, key_path: String },
    CreatingUserDir { username: String, key_path: String, passphrase: String, user_dir: String },
    SerializingBundle { username: String, key_path: String, passphrase: String, user_dir: String, keys: UserKeys },
    SavingBundle { username: String, key_path: String, user_dir: String, keys: UserKeys },
    SerializingNewVault { record: UserRecord, user_dir: String, keys: UserKeys },
    SavingNewVault { record: UserRecord, user_dir: String, keys: UserKeys },
    WritingCard { record: UserRecord },
    ReportingCreation { record: UserRecord },
    SavingIndex { record: UserRecord },
    AskingUnlockPassphrase { record: UserRecord },
    LoadingBundle { record: UserRecord, passphrase: String },
    ParsingBundle { record: UserRecord },
    LoadingVault { record: UserRecord, keys: UserKeys },
    ParsingVault { record: UserRecord, keys: UserKeys },
    RunningVault { record: UserRecord, keys: UserKeys },
    SerializingVault { record: UserRecord, keys: UserKeys },
    SavingVault,
    ReportingSave,
    Finished,
}

/// The application's flow: the user index and the stage.
pub struct AppFlow {
    pub index: UserIndex,
    pub stage: Stage,
}

/// What happened since the last action: its result.
pub enum FlowEvent {
    Started,
    IndexLoaded(UserIndex),
    LoginChosen(LoginSelection),
    TextEntered(String),
    KeyBundleLoaded(KeyBundleFile),
    KeyBundleParsed(KeyBundle),
    ParseFailed(String),
    Serialized(Vec<u8>),
    VaultLoaded(Option<VaultEnvelope>),
    VaultParsed(Vault),
    VaultClosed(Vault),
    Done,
}

/// What to do next.
pub enum FlowAction {
    /// Read the user index (an empty one when it cannot be read).
    LoadIndex,
    /// Show the login menu with these lines and report the choice.
    ShowLogin(Vec<String>),
    /// Ask for a line of text with this prompt.
    AskText(String),
    /// Ask for a secret with this prompt.
    AskSecret(String),
    /// Read the key bundle file at this path.
    LoadKeyBundle(String),
    /// Parse the decrypted key bundle from JSON.
    ParseKeyBundle(Vec<u8>),
    /// Serialise the key bundle to JSON.
    SerializeKeyBundle(KeyBundle),
    /// Write the key bundle file to this path, privately.
    SaveKeyBundle(String, KeyBundleFile),
    /// Create this directory, privately.
    CreateUserDir(String),
    /// Serialise the vault to JSON.
    SerializeVault(Vault),
    /// Write the vault envelope to this path, privately.
    SaveVault(String, VaultEnvelope),
    /// Write the public card.
    WritePublicCard(PublicCard),
    /// Read the vault envelope at this path, if the file exists.
    LoadVault(String),
    /// Parse the decrypted vault from JSON.
    ParseVault(Vec<u8>),
    /// Run the vault screen for this user and vault path, and hand the vault back.
    RunVault(String, String, Vault),
    /// Remove the vault file and key bundle file where they exist, and this directory.
    RemoveUserFiles(String, String, String),
    /// Show a message.
    ShowMessage(String),
    /// Write the user index.
    SaveIndex(UserIndex),
    /// Stop: a call would otherwise panic.
    Abort(FlowAbort),
    /// Stop with this outcome.
    Finish(Result<(), FlowError>),
}

/// The outcome of the flow.
pub type FlowOutcome = Result<(), FlowError>;

/// Whether the action finishes with this error.
pub open spec fn finishes_with(act: FlowAction, e: FlowError) -> bool {
    act == FlowAction::Finish(FlowOutcome::Err(e))
}

/// Whether the action asks for a line of text with exactly this prompt.
pub open spec fn asks_text(act: FlowAction, prompt: Seq<char>) -> bool {
    act matches FlowAction::AskText(p) && p@ == prompt
}

/// Whether the action asks for a secret with exactly this prompt.
pub open spec fn asks_secret(act: FlowAction, prompt: Seq<char>) -> bool {
    act matches FlowAction::AskSecret(p) && p@ == prompt
}

/// Whether the action shows exactly this message.
pub open spec fn shows_message(act: FlowAction, text: Seq<char>) -> bool {
    act matches FlowAction::ShowMessage(m) && m@ == text
}

/// Whether the action shows the login menu of this index.
pub open spec fn shows_login(act: FlowAction, index: Seq<UserRecordView>) -> bool {
    act matches FlowAction::ShowLogin(lines) && {
        &&& lines@.len() == index.len() + 2
        &&& forall|i: int| 0 <= i < index.len() ==> #[trigger] lines@[i]@ == index[i].username
        &&& lines@[index.len() as int]@ == "[Create new]"@
        &&& lines@[index.len() as int + 1]@ == "[Delete user]"@
    }
}

/// Whether the action parses exactly these bytes as a key bundle.
pub open spec fn parses_bundle(act: FlowAction, bytes: Seq<u8>) -> bool {
    act matches FlowAction::ParseKeyBundle(b) && b@ == bytes
}

/// Whether the action parses exactly these bytes as a vault.
pub open spec fn parses_vault(act: FlowAction, bytes: Seq<u8>) -> bool {
    act matches FlowAction::ParseVault(b) && b@ == bytes
}

/// Whether the action saves exactly this index.
pub open spec fn saves_index(act: FlowAction, index: Seq<UserRecordView>) -> bool {
    act matches FlowAction::SaveIndex(i) && i@ == index
}

/// Why a stored key bundle could not be unlocked.
#[derive(Debug, Clone, Copy, PartialEq, Eq)]
pub enum UnlockError {
    /// A field of the file does not decode.
    Decode,
    /// Key derivation or decryption failed.
    Decrypt(CryptoError),
    /// The nonce is not 24 bytes long where decryption would use it.
    NonceLength,
}

/// The result of unlocking a stored key bundle, as values.
pub type UnlockOutcome = Result<Seq<u8>, UnlockError>;

/// What unlocking a stored key bundle with a passphrase gives: `Decode` when
/// a field does not decode, `NonceLength` where decryption would reach a nonce
/// of another length than 24 bytes, otherwise what decrypting the bundle with
/// the passphrase gives.
pub open spec fn unlock_outcome(file: KeyBundleFile, passphrase: Seq<char>) -> UnlockOutcome {
    match bundle_parts(file.salt_b64@, file.nonce_b64@, file.ciphertext_b64@) {
        None => UnlockOutcome::Err(UnlockError::Decode),
        Some(parts) => {
            let salt = parts.0;
            let nonce = parts.1;
            let ct = parts.2;
            if nonce.len() != 24 && !bundle_kdf_refuses(passphrase, salt.len()) {
                UnlockOutcome::Err(UnlockError::NonceLength)
            } else {
                match unlocked_bundle(passphrase, salt, nonce, ct) {
                    BytesOutcome::Ok(p) => UnlockOutcome::Ok(p),
                    BytesOutcome::Err(e) => UnlockOutcome::Err(UnlockError::Decrypt(e)),
                }
            }
        },
    }
}

/// Whether an exec result matches a result as values.
pub open spec fn unlock_view(r: Result<Vec<u8>, UnlockError>) -> UnlockOutcome {
    match r {
        Ok(p) => UnlockOutcome::Ok(p@),
        Err(e) => UnlockOutcome::Err(e),
    }
}

/// Unlocks a stored key bundle with a passphrase: decodes its fields and
/// decrypts it with the key derived from the passphrase.
pub fn unlock_key_bundle(file: &KeyBundleFile, passphrase: &str) -> (r: Result<Vec<u8>, UnlockError>)
    ensures
        unlock_view(r) == unlock_outcome(*file, passphrase@),
{
    let parts = match file.parts() {
        Ok(p) => p,
        Err(_) => return Err(UnlockError::Decode),
    };
    let context = KDF_CONTEXT_KEY_BUNDLE.as_bytes();
    let input_len: u128 = passphrase.as_bytes().len() as u128 + context.len() as u128;
    let refuses = input_len > 0xffff_ffff || parts.salt.len() < 8 || parts.salt.len() > 0xffff_ffff;
    assert(refuses == argon2_refuses(
        passphrase_input(passphrase@, encode_utf8(KDF_CONTEXT_KEY_BUNDLE@)).len(),
        parts.salt@.len(),
    ));
    if parts.nonce.len() != 24 && !refuses {
        return Err(UnlockError::NonceLength);
    }
    match decrypt_key_bundle(parts.salt.as_slice(), parts.nonce.as_slice(), parts.ciphertext.as_slice(), passphrase) {
        Ok(p) => Ok(p),
        Err(e) => Err(UnlockError::Decrypt(e)),
    }
}

/// Whether the flow stops on an event its stage does not expect.
pub open spec fn halts_unexpectedly(old: AppFlow, new: AppFlow, act: FlowAction) -> bool {
    new.index == old.index && new.stage is Finished && finishes_with(act, FlowError::UnexpectedEvent)
}

/// Whether the action saves the vault sealed from this plaintext for this
/// user, or the flow stops because sealing failed.
pub open spec fn seals_vault(json: Seq<u8>, record: UserRecord, keys: UserKeys, act: FlowAction) -> bool {
    ||| (act matches FlowAction::SaveVault(path, env) && {
        &&& aead_message_fits(json.len())
        &&& path@ == record@.vault_path
        &&& env@.username == record@.username
        &&& vault_sealed_from(env@, json, keys@, record@.username)
    })
    ||| (!aead_message_fits(json.len()) && finishes_with(act, FlowError::Crypto(CryptoError::EncryptionFailed)))
}

/// Whether the action saves a key bundle file holding this bundle encrypted
/// under the passphrase with a fresh 16-byte salt and 24-byte nonce; or, where
/// Argon2 refuses the passphrase or the bundle is too long to encrypt, the flow
/// stops with that error.
pub open spec fn seals_bundle(json: Seq<u8>, passphrase: Seq<char>, key_path: Seq<char>, act: FlowAction) -> bool {
    if bundle_kdf_refuses(passphrase, 16) {
        finishes_with(act, FlowError::Crypto(CryptoError::KeyDerivation))
    } else if !aead_message_fits(json.len()) {
        finishes_with(act, FlowError::Crypto(CryptoError::EncryptionFailed))
    } else {
        act matches FlowAction::SaveKeyBundle(path, file) && {
            &&& path@ == key_path
            &&& file.version == 1
            &&& bundle_parts(file.salt_b64@, file.nonce_b64@, file.ciphertext_b64@) matches Some(parts)
            &&& parts.0.len() == 16
            &&& parts.1.len() == 24
            &&& open_key_bundle(bundle_key(passphrase, parts.0), parts.1, parts.2) == BytesOutcome::Ok(json)
        }
    }
}

/// What one event does to the flow: the stage it reaches and the action it asks for.
pub open spec fn flow_transition(old: AppFlow, ev: FlowEvent, new: AppFlow, act: FlowAction) -> bool {
    match old.stage {
        Stage::Start => match ev {
            FlowEvent::Started => new.index == old.index && new.stage is LoadingIndex && act is LoadIndex,
            _ => halts_unexpectedly(old, new, act),
        },
        Stage::LoadingIndex => match ev {
            FlowEvent::IndexLoaded(idx) => new.index == idx && new.stage is ChoosingLogin && shows_login(act, idx@),
            _ => halts_unexpectedly(old, new, act),
        },
        Stage::ChoosingLogin => match ev {
            FlowEvent::LoginChosen(sel) => new.index == old.index && match sel {
                LoginSelection::DeleteUser => new.stage is ChoosingUserToDelete && shows_login(act, old.index@),
                LoginSelection::CreateNew => new.stage is AskingUsername && asks_text(act, "New username"@),
                LoginSelection::Existing(i) => if i < old.index@.len() {
                    new.stage matches Stage::SavingIndex { record } && record@ == old.index@[i as int]
                        && saves_index(act, old.index@)
                } else {
                    new.stage is Finished && finishes_with(act, FlowError::InvalidUserSelection)
                },
            },
            _ => halts_unexpectedly(old, new, act),
        },
        Stage::ChoosingUserToDelete => match ev {
            FlowEvent::LoginChosen(sel) => new.index == old.index && match sel {
                LoginSelection::Existing(i) => if i < old.index@.len() {
                    new.stage matches Stage::AuthenticatingDeletion { user } && user@ == old.index@[i as int]
                        && asks_secret(act, "Authenticate to delete account"@)
                } else {
                    new.stage is Finished && finishes_with(act, FlowError::InvalidSelection)
                },
                _ => new.stage is Finished && finishes_with(act, FlowError::MustSelectExistingUser),
            },
            _ => halts_unexpectedly(old, new, act),
        },
        Stage::AuthenticatingDeletion { user } => match ev {
            FlowEvent::TextEntered(p) => {
                &&& new.index == old.index
                &&& new.stage == (Stage::LoadingBundleForDeletion { user, passphrase: p })
                &&& act matches FlowAction::LoadKeyBundle(path)
                &&& path@ == user@.key_bundle_path
            },
            _ => halts_unexpectedly(old, new, act),
        },
        Stage::LoadingBundleForDeletion { user, passphrase } => match ev {
            FlowEvent::KeyBundleLoaded(file) => new.index == old.index && match unlock_outcome(file, passphrase@) {
                    Ok(p) => new.stage == (Stage::ParsingBundleForDeletion { user }) && parses_bundle(act, p),
                    Err(UnlockError::Decode) => new.stage is Finished
                        && finishes_with(act, FlowError::Crypto(CryptoError::Base64)),
                    Err(UnlockError::Decrypt(e)) => new.stage is Finished
                        && finishes_with(act, FlowError::AuthenticationFailed(e)),
                    Err(UnlockError::NonceLength) => new.stage is Finished
                        && act == FlowAction::Abort(FlowAbort::BundleNonceLength),
                },
            _ => halts_unexpectedly(old, new, act),
        },
        Stage::ParsingBundleForDeletion { user } => match ev {
            FlowEvent::KeyBundleParsed(_) => new.index == old.index
                && new.stage == (Stage::ConfirmingDeletion { user })
                && asks_text(act, "Type DELETE to permanently remove user"@),
            FlowEvent::ParseFailed(m) => new.index == old.index && new.stage is Finished
                && finishes_with(act, FlowError::AuthenticationUnparsable(m)),
            _ => halts_unexpectedly(old, new, act),
        },
        Stage::ConfirmingDeletion { user } => match ev {
            FlowEvent::TextEntered(t) => new.index == old.index && if trim_spec(t@) == "DELETE"@ {
                &&& new.stage == (Stage::RemovingFiles { user })
                &&& act matches FlowAction::RemoveUserFiles(v, k, d)
                &&& v@ == user@.vault_path && k@ == user@.key_bundle_path
                &&& d@ == joined_path("users"@, user@.username)
            } else {
                new.stage is Finished && finishes_with(act, FlowError::DeletionCancelled)
            },
            _ => halts_unexpectedly(old, new, act),
        },
        Stage::RemovingFiles { user } => match ev {
            FlowEvent::Done => new.index@ == others(old.index@, user@.username) && new.stage is ReportingDeletion
                && shows_message(act, "User deleted."@),
            _ => halts_unexpectedly(old, new, act),
        },
        Stage::ReportingDeletion => match ev {
            FlowEvent::Done => new.index == old.index && new.stage is SavingIndexAfterDeletion
                && saves_index(act, old.index@),
            _ => halts_unexpectedly(old, new, act),
        },
        Stage::SavingIndexAfterDeletion => match ev {
            FlowEvent::Done => new.index == old.index && new.stage is Finished
                && act == FlowAction::Finish(FlowOutcome::Ok(())),
            _ => halts_unexpectedly(old, new, act),
        },
        Stage::AskingUsername => match ev {
            FlowEvent::TextEntered(u) => new.index == old.index && if trim_spec(u@).len() == 0 {
                new.stage is Finished && finishes_with(act, FlowError::UsernameEmpty)
            } else {
                new.stage == (Stage::AskingKeyDir { username: u }) && asks_text(act, "Key directory"@)
            },
            _ => halts_unexpectedly(old, new, act),
        },
        Stage::AskingKeyDir { username } => match ev {
            FlowEvent::TextEntered(d) => new.index == old.index
                && new.stage == (Stage::AskingKeyFile { username, dir: d }) && asks_text(act, "Key filename"@),
            _ => halts_unexpectedly(old, new, act),
        },
        Stage::AskingKeyFile { username, dir } => match ev {
            FlowEvent::TextEntered(f) => {
                &&& new.index == old.index
                &&& new.stage matches Stage::AskingNewPassphrase { username: u2, key_path }
                &&& u2 == username
                &&& key_path@ == joined_path(dir@, f@)
                &&& asks_secret(act, "Create passphrase"@)
            },
            _ => halts_unexpectedly(old, new, act),
        },
        Stage::AskingNewPassphrase { username, key_path } => match ev {
            FlowEvent::TextEntered(p) => {
                &&& new.index == old.index
                &&& new.stage matches Stage::CreatingUserDir { username: u2, key_path: k2, passphrase: p2, user_dir }
                &&& u2 == username
                &&& k2 == key_path
                &&& p2 == p
                &&& (exists|root: Seq<char>| is_app_root(root) && user_dir@ == #[trigger] user_dir_in(root, username@))
                &&& act matches FlowAction::CreateUserDir(d)
                &&& d@ == user_dir@
            },
            _ => halts_unexpectedly(old, new, act),
        },
        Stage::CreatingUserDir { username, key_path, passphrase, user_dir } => match ev {
            FlowEvent::Done => {
                &&& new.index == old.index
                &&& new.stage matches Stage::SerializingBundle { username: u2, key_path: k2, passphrase: p2, user_dir: d2, keys }
                &&& u2 == username
                &&& k2 == key_path
                &&& p2 == passphrase
                &&& d2 == user_dir
                &&& keys_well_formed(keys@)
                &&& keys_paired(keys@)
                &&& act matches FlowAction::SerializeKeyBundle(b)
                &&& b@.username == username@
                &&& keys_from_bundle(b@) == KeysOutcome::Ok(keys@)
            },
            _ => halts_unexpectedly(old, new, act),
        },
        Stage::SerializingBundle { username, key_path, passphrase, user_dir, keys } => match ev {
            FlowEvent::Serialized(json) => new.index == old.index && if json.len() > usize::MAX / 4 {
                new.stage is Finished && act == FlowAction::Abort(FlowAbort::BundleTooLarge)
            } else {
                &&& seals_bundle(json@, passphrase@, key_path@, act)
                &&& act is SaveKeyBundle ==> new.stage == (Stage::SavingBundle { username, key_path, user_dir, keys })
                &&& !(act is SaveKeyBundle) ==> new.stage is Finished
            },
            _ => halts_unexpectedly(old, new, act),
        },
        Stage::SavingBundle { username, key_path, user_dir, keys } => match ev {
            FlowEvent::Done => {
                &&& new.stage matches Stage::SerializingNewVault { record, user_dir: d2, keys: k2 }
                &&& record@.username == username@ && record@.key_bundle_path == key_path@
                &&& (exists|root: Seq<char>| is_app_root(root) && record@.vault_path == #[trigger] vault_path_in(root, username@))
                &&& new.index@ == others(old.index@, username@).push(record@)
                &&& d2 == user_dir && k2 == keys
                &&& act matches FlowAction::SerializeVault(v) && v@.len() == 0
            },
            _ => halts_unexpectedly(old, new, act),
        },
        Stage::SerializingNewVault { record, user_dir, keys } => match ev {
            FlowEvent::Serialized(json) => new.index == old.index && if json.len() > usize::MAX / 4 {
                new.stage is Finished && act == FlowAction::Abort(FlowAbort::VaultTooLarge)
            } else {
                &&& seals_vault(json@, record, keys, act)
                &&& act is SaveVault ==> new.stage == (Stage::SavingNewVault { record, user_dir, keys })
                &&& !(act is SaveVault) ==> new.stage is Finished
            },
            _ => halts_unexpectedly(old, new, act),
        },
        Stage::SavingNewVault { record, user_dir, keys } => match ev {
            FlowEvent::Done => {
                &&& new.index == old.index
                &&& new.stage == (Stage::WritingCard { record })
                &&& act matches FlowAction::WritePublicCard(card)
                &&& card.path@ == joined_path(user_dir@, "public.json"@)
                &&& card.username@ == record@.username
                &&& card.kem_public_b64@ == base64_encoding(keys@.kem_public)
                &&& card.dsa_public_b64@ == base64_encoding(keys@.dsa_verifying)
            },
            _ => halts_unexpectedly(old, new, act),
        },
        Stage::WritingCard { record } => match ev {
            FlowEvent::Done => new.index == old.index && new.stage == (Stage::ReportingCreation { record })
                && shows_message(act, "User created."@),
            _ => halts_unexpectedly(old, new, act),
        },
        Stage::ReportingCreation { record } => match ev {
            FlowEvent::Done => new.index == old.index && new.stage == (Stage::SavingIndex { record })
                && saves_index(act, old.index@),
            _ => halts_unexpectedly(old, new, act),
        },
        Stage::SavingIndex { record } => match ev {
            FlowEvent::Done => new.index == old.index && new.stage == (Stage::AskingUnlockPassphrase { record })
                && asks_secret(act, "Unlock key bundle"@),
            _ => halts_unexpectedly(old, new, act),
        },
        Stage::AskingUnlockPassphrase { record } => match ev {
            FlowEvent::TextEntered(p) => {
                &&& new.index == old.index
                &&& new.stage == (Stage::LoadingBundle { record, passphrase: p })
                &&& act matches FlowAction::LoadKeyBundle(path)
                &&& path@ == record@.key_bundle_path
            },
            _ => halts_unexpectedly(old, new, act),
        },
        Stage::LoadingBundle { record, passphrase } => match ev {
            FlowEvent::KeyBundleLoaded(file) => new.index == old.index && match unlock_outcome(file, passphrase@) {
                    Ok(p) => new.stage == (Stage::ParsingBundle { record }) && parses_bundle(act, p),
                    Err(UnlockError::Decode) => new.stage is Finished
                        && finishes_with(act, FlowError::Crypto(CryptoError::Base64)),
                    Err(UnlockError::Decrypt(e)) => new.stage is Finished
                        && finishes_with(act, FlowError::UnlockFailed(e)),
                    Err(UnlockError::NonceLength) => new.stage is Finished
                        && act == FlowAction::Abort(FlowAbort::BundleNonceLength),
                },
            _ => halts_unexpectedly(old, new, act),
        },
        Stage::ParsingBundle { record } => match ev {
            FlowEvent::KeyBundleParsed(b) => new.index == old.index && match keys_from_bundle(b@) {
                Ok(kv) => {
                    &&& new.stage matches Stage::LoadingVault { record: r2, keys }
                    &&& r2 == record
                    &&& keys@ == kv
                    &&& act matches FlowAction::LoadVault(path)
                    &&& path@ == record@.vault_path
                },
                Err(e) => new.stage is Finished && finishes_with(act, FlowError::Crypto(e)),
            },
            FlowEvent::ParseFailed(m) => new.index == old.index && new.stage is Finished
                && finishes_with(act, FlowError::UnlockUnparsable(m)),
            _ => halts_unexpectedly(old, new, act),
        },
        Stage::LoadingVault { record, keys } => match ev {
            FlowEvent::VaultLoaded(found) => new.index == old.index && match found {
                None => {
                    &&& new.stage == (Stage::RunningVault { record, keys })
                    &&& act matches FlowAction::RunVault(u, p, v)
                    &&& u@ == record@.username
                    &&& p@ == record@.vault_path
                    &&& v@.len() == 0
                },
                Some(env) => if env@.username != record@.username {
                    new.stage is Finished && finishes_with(act, FlowError::VaultOwnerMismatch)
                } else {
                    match open_vault_spec(env@, keys@) {
                        VaultOpening::Opened(p) => {
                            &&& new.stage == (Stage::ParsingVault { record, keys })
                            &&& act matches FlowAction::ParseVault(b)
                            &&& b@ == p
                        },
                        VaultOpening::Refused(e) => new.stage is Finished
                            && finishes_with(act, FlowError::Crypto(e)),
                        VaultOpening::NonceUnfit => new.stage is Finished
                            && act == FlowAction::Abort(FlowAbort::VaultNonceLength),
                    }
                },
            },
            _ => halts_unexpectedly(old, new, act),
        },
        Stage::ParsingVault { record, keys } => match ev {
            FlowEvent::VaultParsed(v) => {
                &&& new.index == old.index
                &&& new.stage == (Stage::RunningVault { record, keys })
                &&& act matches FlowAction::RunVault(u, p, v2)
                &&& u@ == record@.username
                &&& p@ == record@.vault_path
                &&& v2 == v
            },
            _ => halts_unexpectedly(old, new, act),
        },
        Stage::RunningVault { record, keys } => match ev {
            FlowEvent::VaultClosed(v) => new.index == old.index && new.stage == (Stage::SerializingVault { record, keys })
                && act == FlowAction::SerializeVault(v),
            _ => halts_unexpectedly(old, new, act),
        },
        Stage::SerializingVault { record, keys } => match ev {
            FlowEvent::Serialized(json) => new.index == old.index && if json.len() > usize::MAX / 4 {
                new.stage is Finished && act == FlowAction::Abort(FlowAbort::VaultTooLarge)
            } else {
                &&& seals_vault(json@, record, keys, act)
                &&& act is SaveVault ==> new.stage is SavingVault
                &&& !(act is SaveVault) ==> new.stage is Finished
            },
            _ => halts_unexpectedly(old, new, act),
        },
        Stage::SavingVault => match ev {
            FlowEvent::Done => new.index == old.index && new.stage is ReportingSave && shows_message(act, "Vault saved."@),
            _ => halts_unexpectedly(old, new, act),
        },
        Stage::ReportingSave => match ev {
            FlowEvent::Done => new.index == old.index && new.stage is Finished
                && act == FlowAction::Finish(FlowOutcome::Ok(())),
            _ => halts_unexpectedly(old, new, act),
        },
        Stage::Finished => halts_unexpectedly(old, new, act),
    }
}

/// The flow stopped on an unexpected event.
fn halt(index: UserIndex) -> (r: (AppFlow, FlowAction))
    ensures
        r.0.index == index,
        r.0.stage is Finished,
        finishes_with(r.1, FlowError::UnexpectedEvent),
{
    (AppFlow { index, stage: Stage::Finished }, FlowAction::Finish(Err(FlowError::UnexpectedEvent)))
}

/// The flow stopped with an error.
fn fail(index: UserIndex, e: FlowError) -> (r: (AppFlow, FlowAction))
    ensures
        r.0.index == index,
        r.0.stage is Finished,
        finishes_with(r.1, e),
{
    (AppFlow { index, stage: Stage::Finished }, FlowAction::Finish(Err(e)))
}

/// The flow stopped because a call would panic.
fn abort(index: UserIndex, why: FlowAbort) -> (r: (AppFlow, FlowAction))
    ensures
        r.0.index == index,
        r.0.stage is Finished,
        r.1 == FlowAction::Abort(why),
{
    (AppFlow { index, stage: Stage::Finished }, FlowAction::Abort(why))
}

/// Encrypts the serialised vault for the record's user, leading to its save.
fn seal_for_save(json: Vec<u8>, record: &UserRecord, keys: &UserKeys) -> (r: Result<FlowAction, FlowError>)
    requires
        json.len() <= usize::MAX / 4,
    ensures
        match r {
            Ok(act) => seals_vault(json@, *record, *keys, act) && act is SaveVault,
            Err(e) => seals_vault(json@, *record, *keys, FlowAction::Finish(FlowOutcome::Err(e))),
        },
{
    match encrypt_vault(json.as_slice(), keys, record.username.as_str()) {
        Ok(env) => Ok(FlowAction::SaveVault(record.vault_path.clone(), env)),
        Err(e) => Err(FlowError::Crypto(e)),
    }
}

/// Encrypts the serialised key bundle under the passphrase, leading to its save.
fn seal_bundle_for_save(json: Vec<u8>, passphrase: &str, key_path: &String) -> (r: Result<FlowAction, FlowError>)
    requires
        json.len() <= usize::MAX / 4,
    ensures
        match r {
            Ok(act) => seals_bundle(json@, passphrase@, key_path@, act) && act is SaveKeyBundle,
            Err(e) => seals_bundle(json@, passphrase@, key_path@, FlowAction::Finish(FlowOutcome::Err(e))),
        },
{
    match encrypt_key_bundle(json.as_slice(), passphrase) {
        Ok(sealed) => {
            let file = key_bundle_file(sealed.salt.as_slice(), sealed.nonce.as_slice(), sealed.ciphertext.as_slice());
            Ok(FlowAction::SaveKeyBundle(key_path.clone(), file))
        },
        Err(e) => Err(FlowError::Crypto(e)),
    }
}

/// The part of the flow that a stage belongs to.
pub enum StageGroup {
    Login,
    Deletion,
    Creation,
    Unlock,
}

/// The part of the flow that a stage belongs to.
pub open spec fn group_of(stage: Stage) -> StageGroup {
    match stage {
        Stage::Start => StageGroup::Login,
        Stage::LoadingIndex => StageGroup::Login,
        Stage::ChoosingLogin => StageGroup::Login,
        Stage::Finished => StageGroup::Login,
        Stage::ChoosingUserToDelete => StageGroup::Deletion,
        Stage::AuthenticatingDeletion { .. } => StageGroup::Deletion,
        Stage::LoadingBundleForDeletion { .. } => StageGroup::Deletion,
        Stage::ParsingBundleForDeletion { .. } => StageGroup::Deletion,
        Stage::ConfirmingDeletion { .. } => StageGroup::Deletion,
        Stage::RemovingFiles { .. } => StageGroup::Deletion,
        Stage::ReportingDeletion => StageGroup::Deletion,
        Stage::SavingIndexAfterDeletion => StageGroup::Deletion,
        Stage::AskingUsername => StageGroup::Creation,
        Stage::AskingKeyDir { .. } => StageGroup::Creation,
        Stage::AskingKeyFile { .. } => StageGroup::Creation,
        Stage::AskingNewPassphrase { .. } => StageGroup::Creation,
        Stage::CreatingUserDir { .. } => StageGroup::Creation,
        Stage::SerializingBundle { .. } => StageGroup::Creation,
        Stage::SavingBundle { .. } => StageGroup::Creation,
        Stage::SerializingNewVault { .. } => StageGroup::Creation,
        Stage::SavingNewVault { .. } => StageGroup::Creation,
        Stage::WritingCard { .. } => StageGroup::Creation,
        Stage::ReportingCreation { .. } => StageGroup::Creation,
        Stage::SavingIndex { .. } => StageGroup::Unlock,
        Stage::AskingUnlockPassphrase { .. } => StageGroup::Unlock,
        Stage::LoadingBundle { .. } => StageGroup::Unlock,
        Stage::ParsingBundle { .. } => StageGroup::Unlock,
        Stage::LoadingVault { .. } => StageGroup::Unlock,
        Stage::ParsingVault { .. } => StageGroup::Unlock,
        Stage::RunningVault { .. } => StageGroup::Unlock,
        Stage::SerializingVault { .. } => StageGroup::Unlock,
        Stage::SavingVault => StageGroup::Unlock,
        Stage::ReportingSave => StageGroup::Unlock,
    }
}

/// The part of the flow that a stage belongs to.
fn stage_group(stage: &Stage) -> (g: StageGroup)
    ensures
        g == group_of(*stage),
{
    match stage {
        Stage::Start => StageGroup::Login,
        Stage::LoadingIndex => StageGroup::Login,
        Stage::ChoosingLogin => StageGroup::Login,
        Stage::Finished => StageGroup::Login,
        Stage::ChoosingUserToDelete => StageGroup::Deletion,
        Stage::AuthenticatingDeletion { .. } => StageGroup::Deletion,
        Stage::LoadingBundleForDeletion { .. } => StageGroup::Deletion,
        Stage::ParsingBundleForDeletion { .. } => StageGroup::Deletion,
        Stage::ConfirmingDeletion { .. } => StageGroup::Deletion,
        Stage::RemovingFiles { .. } => StageGroup::Deletion,
        Stage::ReportingDeletion => StageGroup::Deletion,
        Stage::SavingIndexAfterDeletion => StageGroup::Deletion,
        Stage::AskingUsername => StageGroup::Creation,
        Stage::AskingKeyDir { .. } => StageGroup::Creation,
        Stage::AskingKeyFile { .. } => StageGroup::Creation,
        Stage::AskingNewPassphrase { .. } => StageGroup::Creation,
        Stage::CreatingUserDir { .. } => StageGroup::Creation,
        Stage::SerializingBundle { .. } => StageGroup::Creation,
        Stage::SavingBundle { .. } => StageGroup::Creation,
        Stage::SerializingNewVault { .. } => StageGroup::Creation,
        Stage::SavingNewVault { .. } => StageGroup::Creation,
        Stage::WritingCard { .. } => StageGroup::Creation,
        Stage::ReportingCreation { .. } => StageGroup::Creation,
        Stage::SavingIndex { .. } => StageGroup::Unlock,
        Stage::AskingUnlockPassphrase { .. } => StageGroup::Unlock,
        Stage::LoadingBundle { .. } => StageGroup::Unlock,
        Stage::ParsingBundle { .. } => StageGroup::Unlock,
        Stage::LoadingVault { .. } => StageGroup::Unlock,
        Stage::ParsingVault { .. } => StageGroup::Unlock,
        Stage::RunningVault { .. } => StageGroup::Unlock,
        Stage::SerializingVault { .. } => StageGroup::Unlock,
        Stage::SavingVault => StageGroup::Unlock,
        Stage::ReportingSave => StageGroup::Unlock,
    }
}

/// Steps of the flow from the start to the login choice.
fn step_login(index: UserIndex, stage: Stage, event: FlowEvent) -> (r: (AppFlow, FlowAction))
    requires
        group_of(stage) == StageGroup::Login,
    ensures
        flow_transition((AppFlow { index, stage }), event, r.0, r.1),
{
    let mut index = index;
    match stage {
        Stage::Start => match event {
            FlowEvent::Started => (AppFlow { index, stage: Stage::LoadingIndex }, FlowAction::LoadIndex),
            _ => halt(index),
        },
        Stage::LoadingIndex => match event {
            FlowEvent::IndexLoaded(idx) => {
                let lines = login_lines(&idx);
                (AppFlow { index: idx, stage: Stage::ChoosingLogin }, FlowAction::ShowLogin(lines))
            },
            _ => halt(index),
        },
        Stage::ChoosingLogin => match event {
            FlowEvent::LoginChosen(sel) => match sel {
                LoginSelection::DeleteUser => {
                    let lines = login_lines(&index);
                    (AppFlow { index, stage: Stage::ChoosingUserToDelete }, FlowAction::ShowLogin(lines))
                },
                LoginSelection::CreateNew => (
                    AppFlow { index, stage: Stage::AskingUsername },
                    FlowAction::AskText(String::from_str("New username")),
                ),
                LoginSelection::Existing(i) => match pick_user(&index, i) {
                    Ok(record) => {
                        let copy = index.duplicate();
                        (AppFlow { index, stage: Stage::SavingIndex { record } }, FlowAction::SaveIndex(copy))
                    },
                    Err(e) => fail(index, e),
                },
            },
            _ => halt(index),
        },
        Stage::Finished => halt(index),
        _ => halt(index),
    }
}

/// Steps of the flow that delete a user.
fn step_deletion(index: UserIndex, stage: Stage, event: FlowEvent) -> (r: (AppFlow, FlowAction))
    requires
        group_of(stage) == StageGroup::Deletion,
    ensures
        flow_transition((AppFlow { index, stage }), event, r.0, r.1),
{
    let mut index = index;
    match stage {
        Stage::ChoosingUserToDelete => match event {
            FlowEvent::LoginChosen(sel) => match user_to_delete(&index, sel) {
                Ok(user) => (
                    AppFlow { index, stage: Stage::AuthenticatingDeletion { user } },
                    FlowAction::AskSecret(String::from_str("Authenticate to delete account")),
                ),
                Err(e) => fail(index, e),
            },
            _ => halt(index),
        },
        Stage::AuthenticatingDeletion { user } => match event {
            FlowEvent::TextEntered(p) => {
                let path = user.key_bundle_path.clone();
                (
                    AppFlow { index, stage: Stage::LoadingBundleForDeletion { user, passphrase: p } },
                    FlowAction::LoadKeyBundle(path),
                )
            },
            _ => halt(index),
        },
        Stage::LoadingBundleForDeletion { user, passphrase } => match event {
            FlowEvent::KeyBundleLoaded(file) => {
                let unlocked = unlock_key_bundle(&file, passphrase.as_str());
                match unlocked {
                    Ok(plain) => (
                        AppFlow { index, stage: Stage::ParsingBundleForDeletion { user } },
                        FlowAction::ParseKeyBundle(plain),
                    ),
                    Err(UnlockError::Decode) => fail(index, FlowError::Crypto(CryptoError::Base64)),
                    Err(UnlockError::Decrypt(e)) => fail(index, FlowError::AuthenticationFailed(e)),
                    Err(UnlockError::NonceLength) => abort(index, FlowAbort::BundleNonceLength),
                }
            },
            _ => halt(index),
        },
        Stage::ParsingBundleForDeletion { user } => match event {
            FlowEvent::KeyBundleParsed(_) => (
                AppFlow { index, stage: Stage::ConfirmingDeletion { user } },
                FlowAction::AskText(String::from_str("Type DELETE to permanently remove user")),
            ),
            FlowEvent::ParseFailed(m) => fail(index, FlowError::AuthenticationUnparsable(m)),
            _ => halt(index),
        },
        Stage::ConfirmingDeletion { user } => match event {
            FlowEvent::TextEntered(t) => {
                if deletion_confirmed(t.as_str()) {
                    let v = user.vault_path.clone();
                    let k = user.key_bundle_path.clone();
                    let d = legacy_user_dir(user.username.as_str());
                    (AppFlow { index, stage: Stage::RemovingFiles { user } }, FlowAction::RemoveUserFiles(v, k, d))
                } else {
                    fail(index, FlowError::DeletionCancelled)
                }
            },
            _ => halt(index),
        },
        Stage::RemovingFiles { user } => match event {
            FlowEvent::Done => {
                remove_user(&mut index, user.username.as_str());
                (
                    AppFlow { index, stage: Stage::ReportingDeletion },
                    FlowAction::ShowMessage(String::from_str("User deleted.")),
                )
            },
            _ => halt(index),
        },
        Stage::ReportingDeletion => match event {
            FlowEvent::Done => {
                let copy = index.duplicate();
                (AppFlow { index, stage: Stage::SavingIndexAfterDeletion }, FlowAction::SaveIndex(copy))
            },
            _ => halt(index),
        },
        Stage::SavingIndexAfterDeletion => match event {
            FlowEvent::Done => (AppFlow { index, stage: Stage::Finished }, FlowAction::Finish(Ok(()))),
            _ => halt(index),
        },
        _ => halt(index),
    }
}

/// Steps of the flow that create a user.
fn step_creation(index: UserIndex, stage: Stage, event: FlowEvent) -> (r: (AppFlow, FlowAction))
    requires
        group_of(stage) == StageGroup::Creation,
    ensures
        flow_transition((AppFlow { index, stage }), event, r.0, r.1),
{
    let mut index = index;
    match stage {
        Stage::AskingUsername => match event {
            FlowEvent::TextEntered(u) => match check_new_username(u.as_str()) {
                Ok(()) => (
                    AppFlow { index, stage: Stage::AskingKeyDir { username: u } },
                    FlowAction::AskText(String::from_str("Key directory")),
                ),
                Err(e) => fail(index, e),
            },
            _ => halt(index),
        },
        Stage::AskingKeyDir { username } => match event {
            FlowEvent::TextEntered(d) => (
                AppFlow { index, stage: Stage::AskingKeyFile { username, dir: d } },
                FlowAction::AskText(String::from_str("Key filename")),
            ),
            _ => halt(index),
        },
        Stage::AskingKeyFile { username, dir } => match event {
            FlowEvent::TextEntered(f) => {
                let key_path = key_path_from_input(dir.as_str(), f.as_str());
                (
                    AppFlow { index, stage: Stage::AskingNewPassphrase { username, key_path } },
                    FlowAction::AskSecret(String::from_str("Create passphrase")),
                )
            },
            _ => halt(index),
        },
        Stage::AskingNewPassphrase { username, key_path } => match event {
            FlowEvent::TextEntered(p) => {
                let user_dir = user_dir_for(username.as_str());
                let d = user_dir.clone();
                (
                    AppFlow { index, stage: Stage::CreatingUserDir { username, key_path, passphrase: p, user_dir } },
                    FlowAction::CreateUserDir(d),
                )
            },
            _ => halt(index),
        },
        Stage::CreatingUserDir { username, key_path, passphrase, user_dir } => match event {
            FlowEvent::Done => {
                let keys = UserKeys::generate();
                let bundle = keys.to_bundle(username.as_str());
                (
                    AppFlow { index, stage: Stage::SerializingBundle { username, key_path, passphrase, user_dir, keys } },
                    FlowAction::SerializeKeyBundle(bundle),
                )
            },
            _ => halt(index),
        },
        Stage::SerializingBundle { username, key_path, passphrase, user_dir, keys } => match event {
            FlowEvent::Serialized(json) => {
                if json.len() > usize::MAX / 4 {
                    return abort(index, FlowAbort::BundleTooLarge);
                }
                match seal_bundle_for_save(json, passphrase.as_str(), &key_path) {
                    Ok(act) => (AppFlow { index, stage: Stage::SavingBundle { username, key_path, user_dir, keys } }, act),
                    Err(e) => fail(index, e),
                }
            },
            _ => halt(index),
        },
        Stage::SavingBundle { username, key_path, user_dir, keys } => match event {
            FlowEvent::Done => {
                let record = register_user(&mut index, username.as_str(), key_path.as_str());
                (
                    AppFlow { index, stage: Stage::SerializingNewVault { record, user_dir, keys } },
                    FlowAction::SerializeVault(Vault::default()),
                )
            },
            _ => halt(index),
        },
        Stage::SerializingNewVault { record, user_dir, keys } => match event {
            FlowEvent::Serialized(json) => {
                if json.len() > usize::MAX / 4 {
                    return abort(index, FlowAbort::VaultTooLarge);
                }
                match seal_for_save(json, &record, &keys) {
                    Ok(act) => (AppFlow { index, stage: Stage::SavingNewVault { record, user_dir, keys } }, act),
                    Err(e) => fail(index, e),
                }
            },
            _ => halt(index),
        },
        Stage::SavingNewVault { record, user_dir, keys } => match event {
            FlowEvent::Done => {
                let bundle = keys.to_bundle(record.username.as_str());
                let card = PublicCard {
                    path: join_path(user_dir.as_str(), "public.json"),
                    username: record.username.clone(),
                    kem_public_b64: bundle.kem_public_b64,
                    dsa_public_b64: bundle.dsa_public_b64,
                };
                (AppFlow { index, stage: Stage::WritingCard { record } }, FlowAction::WritePublicCard(card))
            },
            _ => halt(index),
        },
        Stage::WritingCard { record } => match event {
            FlowEvent::Done => (
                AppFlow { index, stage: Stage::ReportingCreation { record } },
                FlowAction::ShowMessage(String::from_str("User created.")),
            ),
            _ => halt(index),
        },
        Stage::ReportingCreation { record } => match event {
            FlowEvent::Done => {
                let copy = index.duplicate();
                (AppFlow { index, stage: Stage::SavingIndex { record } }, FlowAction::SaveIndex(copy))
            },
            _ => halt(index),
        },
        _ => halt(index),
    }
}

/// Steps of the flow that unlock the key bundle and open, edit and save the vault.
fn step_unlock(index: UserIndex, stage: Stage, event: FlowEvent) -> (r: (AppFlow, FlowAction))
    requires
        group_of(stage) == StageGroup::Unlock,
    ensures
        flow_transition((AppFlow { index, stage }), event, r.0, r.1),
{
    let mut index = index;
    match stage {
        Stage::SavingIndex { record } => match event {
            FlowEvent::Done => (
                AppFlow { index, stage: Stage::AskingUnlockPassphrase { record } },
                FlowAction::AskSecret(String::from_str("Unlock key bundle")),
            ),
            _ => halt(index),
        },
        Stage::AskingUnlockPassphrase { record } => match event {
            FlowEvent::TextEntered(p) => {
                let path = record.key_bundle_path.clone();
                (AppFlow { index, stage: Stage::LoadingBundle { record, passphrase: p } }, FlowAction::LoadKeyBundle(path))
            },
            _ => halt(index),
        },
        Stage::LoadingBundle { record, passphrase } => match event {
            FlowEvent::KeyBundleLoaded(file) => {
                let unlocked = unlock_key_bundle(&file, passphrase.as_str());
                match unlocked {
                    Ok(plain) => (AppFlow { index, stage: Stage::ParsingBundle { record } }, FlowAction::ParseKeyBundle(plain)),
                    Err(UnlockError::Decode) => fail(index, FlowError::Crypto(CryptoError::Base64)),
                    Err(UnlockError::Decrypt(e)) => fail(index, FlowError::UnlockFailed(e)),
                    Err(UnlockError::NonceLength) => abort(index, FlowAbort::BundleNonceLength),
                }
            },
            _ => halt(index),
        },
        Stage::ParsingBundle { record } => match event {
            FlowEvent::KeyBundleParsed(b) => match UserKeys::from_bundle(&b) {
                Ok(keys) => {
                    let path = record.vault_path.clone();
                    (AppFlow { index, stage: Stage::LoadingVault { record, keys } }, FlowAction::LoadVault(path))
                },
                Err(e) => fail(index, FlowError::Crypto(e)),
            },
            FlowEvent::ParseFailed(m) => fail(index, FlowError::UnlockUnparsable(m)),
            _ => halt(index),
        },
        Stage::LoadingVault { record, keys } => match event {
            FlowEvent::VaultLoaded(found) => match found {
                None => {
                    let u = record.username.clone();
                    let p = record.vault_path.clone();
                    (
                        AppFlow { index, stage: Stage::RunningVault { record, keys } },
                        FlowAction::RunVault(u, p, Vault::default()),
                    )
                },
                Some(env) => {
                    if let Err(e) = check_vault_owner(&env, &record) {
                        return fail(index, e);
                    }
                    match open_vault(&env, &keys) {
                        None => abort(index, FlowAbort::VaultNonceLength),
                        Some(Ok(plain)) => (
                            AppFlow { index, stage: Stage::ParsingVault { record, keys } },
                            FlowAction::ParseVault(plain),
                        ),
                        Some(Err(e)) => fail(index, FlowError::Crypto(e)),
                    }
                },
            },
            _ => halt(index),
        },
        Stage::ParsingVault { record, keys } => match event {
            FlowEvent::VaultParsed(v) => {
                let u = record.username.clone();
                let p = record.vault_path.clone();
                (AppFlow { index, stage: Stage::RunningVault { record, keys } }, FlowAction::RunVault(u, p, v))
            },
            _ => halt(index),
        },
        Stage::RunningVault { record, keys } => match event {
            FlowEvent::VaultClosed(v) => (
                AppFlow { index, stage: Stage::SerializingVault { record, keys } },
                FlowAction::SerializeVault(v),
            ),
            _ => halt(index),
        },
        Stage::SerializingVault { record, keys } => match event {
            FlowEvent::Serialized(json) => {
                if json.len() > usize::MAX / 4 {
                    return abort(index, FlowAbort::VaultTooLarge);
                }
                match seal_for_save(json, &record, &keys) {
                    Ok(act) => (AppFlow { index, stage: Stage::SavingVault }, act),
                    Err(e) => fail(index, e),
                }
            },
            _ => halt(index),
        },
        Stage::SavingVault => match event {
            FlowEvent::Done => (
                AppFlow { index, stage: Stage::ReportingSave },
                FlowAction::ShowMessage(String::from_str("Vault saved.")),
            ),
            _ => halt(index),
        },
        Stage::ReportingSave => match event {
            FlowEvent::Done => (AppFlow { index, stage: Stage::Finished }, FlowAction::Finish(Ok(()))),
            _ => halt(index),
        },
        _ => halt(index),
    }
}

/// One step of the application: the event moves the flow on and the flow
/// answers with the next thing to do. Starting from `Stage::Start` with
/// `FlowEvent::Started`, and feeding back the result of each action, it logs
/// a user in, creates or deletes a user, opens the vault screen and saves the
/// vault, stopping with `FlowAction::Finish` or `FlowAction::Abort`.
pub fn run_app(flow: AppFlow, event: FlowEvent) -> (r: (AppFlow, FlowAction))
    ensures
        flow_transition(flow, event, r.0, r.1),
{
    let AppFlow { index, stage } = flow;
    match stage_group(&stage) {
        StageGroup::Login => step_login(index, stage, event),
        StageGroup::Deletion => step_deletion(index, stage, event),
        StageGroup::Creation => step_creation(index, stage, event),
        StageGroup::Unlock => step_unlock(index, stage, event),
    }
}

/// A user's files are removed only right after the typed confirmation reads
/// `DELETE` (surrounding white space aside).
pub proof fn lemma_removal_needs_confirmation(old: AppFlow, ev: FlowEvent, new: AppFlow, act: FlowAction)
    requires
        flow_transition(old, ev, new, act),
        act is RemoveUserFiles,
    ensures
        old.stage is ConfirmingDeletion,
        ev matches FlowEvent::TextEntered(t) && trim_spec(t@) == "DELETE"@,
{
}

/// The deletion of a user is confirmed only after the key bundle that the
/// passphrase unlocked was parsed as a key bundle.
pub proof fn lemma_confirmation_needs_parse(old: AppFlow, ev: FlowEvent, new: AppFlow, act: FlowAction)
    requires
        flow_transition(old, ev, new, act),
        new.stage is ConfirmingDeletion,
    ensures
        old.stage matches Stage::ParsingBundleForDeletion { user } && new.stage == (Stage::ConfirmingDeletion { user }),
        ev is KeyBundleParsed,
{
}

/// A key bundle is parsed for a deletion only after the passphrase unlocked
/// that user's key bundle, and what is parsed is exactly the unlocked bundle.
pub proof fn lemma_deletion_parse_needs_unlock(old: AppFlow, ev: FlowEvent, new: AppFlow, act: FlowAction)
    requires
        flow_transition(old, ev, new, act),
        new.stage is ParsingBundleForDeletion,
    ensures
        old.stage matches Stage::LoadingBundleForDeletion { user, passphrase } && {
            &&& new.stage == (Stage::ParsingBundleForDeletion { user })
            &&& ev matches FlowEvent::KeyBundleLoaded(file)
            &&& unlock_outcome(file, passphrase@) is Ok
            &&& parses_bundle(act, unlock_outcome(file, passphrase@)->Ok_0)
        },
{
}

/// With the passphrase that unlocks the user's key bundle, the deletion goes
/// on to parse exactly the unlocked bundle.
pub proof fn lemma_right_passphrase_reaches_parse(
    user: UserRecord,
    passphrase: String,
    file: KeyBundleFile,
    index: UserIndex,
    new: AppFlow,
    act: FlowAction,
)
    requires
        unlock_outcome(file, passphrase@) is Ok,
        flow_transition(
            AppFlow { index, stage: Stage::LoadingBundleForDeletion { user, passphrase } },
            FlowEvent::KeyBundleLoaded(file),
            new,
            act,
        ),
    ensures
        new.stage == (Stage::ParsingBundleForDeletion { user }),
        new.index == index,
        parses_bundle(act, unlock_outcome(file, passphrase@)->Ok_0),
{
}

/// Once the unlocked bundle parses as a key bundle, the deletion asks for the
/// typed confirmation; when it does not parse, the deletion stops with
/// "authentication failed" and the index is unchanged.
pub proof fn lemma_parse_decides_confirmation(user: UserRecord, index: UserIndex, ev: FlowEvent, new: AppFlow, act: FlowAction)
    requires
        flow_transition(AppFlow { index, stage: Stage::ParsingBundleForDeletion { user } }, ev, new, act),
    ensures
        new.index == index,
        ev is KeyBundleParsed ==> new.stage == (Stage::ConfirmingDeletion { user })
            && asks_text(act, "Type DELETE to permanently remove user"@),
        ev matches FlowEvent::ParseFailed(m) ==> new.stage is Finished
            && finishes_with(act, FlowError::AuthenticationUnparsable(m)),
        !(ev is KeyBundleParsed) ==> new.stage is Finished && act is Finish,
{
}

/// With the passphrase that unlocks the user's key bundle, logging in goes on
/// to parse exactly the decrypted bundle.
pub proof fn lemma_right_passphrase_unlocks(
    record: UserRecord,
    passphrase: String,
    file: KeyBundleFile,
    index: UserIndex,
    new: AppFlow,
    act: FlowAction,
)
    requires
        unlock_outcome(file, passphrase@) is Ok,
        flow_transition(
            AppFlow { index, stage: Stage::LoadingBundle { record, passphrase } },
            FlowEvent::KeyBundleLoaded(file),
            new,
            act,
        ),
    ensures
        new.stage == (Stage::ParsingBundle { record }),
        parses_bundle(act, unlock_outcome(file, passphrase@)->Ok_0),
{
}

/// A key bundle file that the flow saves for a new user unlocks with the
/// passphrase chosen for it, giving back the serialised bundle.
pub proof fn lemma_saved_bundle_unlocks(json: Seq<u8>, passphrase: Seq<char>, key_path: Seq<char>, act: FlowAction)
    requires
        seals_bundle(json, passphrase, key_path, act),
        act is SaveKeyBundle,
    ensures
        act matches FlowAction::SaveKeyBundle(_, file) && unlock_outcome(file, passphrase) == UnlockOutcome::Ok(json),
{
}

/// The vault screen opens on exactly the vault parsed from the decrypted
/// envelope: every entry, in order, for the logged-in user and vault file.
pub proof fn lemma_vault_screen_shows_parsed_vault(
    index: UserIndex,
    record: UserRecord,
    keys: UserKeys,
    v: Vault,
    new: AppFlow,
    act: FlowAction,
)
    requires
        flow_transition(AppFlow { index, stage: Stage::ParsingVault { record, keys } }, FlowEvent::VaultParsed(v), new, act),
    ensures
        act matches FlowAction::RunVault(u, p, shown) && {
            &&& shown@.len() == v@.len()
            &&& forall|i: int| 0 <= i < v@.len() ==> #[trigger] shown@[i] == v@[i]
            &&& u@ == record@.username
            &&& p@ == record@.vault_path
        },
        new.index == index,
        new.stage == (Stage::RunningVault { record, keys }),
{
}

/// What the vault screen hands back when it closes is exactly what gets
/// serialised for saving.
pub proof fn lemma_closed_vault_is_serialised(
    index: UserIndex,
    record: UserRecord,
    keys: UserKeys,
    v: Vault,
    new: AppFlow,
    act: FlowAction,
)
    requires
        flow_transition(AppFlow { index, stage: Stage::RunningVault { record, keys } }, FlowEvent::VaultClosed(v), new, act),
    ensures
        act matches FlowAction::SerializeVault(saved) && saved@ == v@,
        new.stage == (Stage::SerializingVault { record, keys }),
{
}

/// The bytes parsed as the vault are exactly the plaintext that opening the
/// user's own envelope with the user's keys gives.
pub proof fn lemma_decrypted_vault_is_parsed(
    index: UserIndex,
    record: UserRecord,
    keys: UserKeys,
    env: VaultEnvelope,
    plain: Seq<u8>,
    new: AppFlow,
    act: FlowAction,
)
    requires
        env@.username == record@.username,
        open_vault_spec(env@, keys@) == VaultOpening::Opened(plain),
        flow_transition(AppFlow { index, stage: Stage::LoadingVault { record, keys } }, FlowEvent::VaultLoaded(Some(env)), new, act),
    ensures
        act matches FlowAction::ParseVault(b) && b@ == plain,
        new.stage == (Stage::ParsingVault { record, keys }),
{
}

/// Choosing line `i` of the login menu opens the user on that line, when
/// there is one; any other line number is refused.
pub proof fn lemma_login_opens_chosen_user(index: UserIndex, i: usize, new: AppFlow, act: FlowAction)
    requires
        flow_transition(AppFlow { index, stage: Stage::ChoosingLogin }, FlowEvent::LoginChosen(LoginSelection::Existing(i)), new, act),
    ensures
        new.index == index,
        i < index@.len() ==> (new.stage matches Stage::SavingIndex { record } && record@ == index@[i as int]),
        i >= index@.len() ==> act == FlowAction::Finish(FlowOutcome::Err(FlowError::InvalidUserSelection)),
{
}

/// Choosing line `i` for a deletion asks to authenticate as the user on that
/// line, when there is one; the other lines are refused.
pub proof fn lemma_deletion_targets_chosen_user(index: UserIndex, sel: LoginSelection, new: AppFlow, act: FlowAction)
    requires
        flow_transition(AppFlow { index, stage: Stage::ChoosingUserToDelete }, FlowEvent::LoginChosen(sel), new, act),
    ensures
        new.index == index,
        sel matches LoginSelection::Existing(i) ==> (i < index@.len() ==> (new.stage matches Stage::AuthenticatingDeletion { user } && user@ == index@[i as int])),
        sel matches LoginSelection::Existing(i) ==> (i >= index@.len() ==> act == FlowAction::Finish(FlowOutcome::Err(FlowError::InvalidSelection))),
        !(sel is Existing) ==> act == FlowAction::Finish(FlowOutcome::Err(FlowError::MustSelectExistingUser)),
{
}

/// Removing a user's files takes exactly that user's records out of the
/// index: no record of that name is left, every record left was in the index,
/// and every record of another name stays.
pub proof fn lemma_removal_drops_only_that_user(index: UserIndex, user: UserRecord, new: AppFlow, act: FlowAction)
    requires
        flow_transition(AppFlow { index, stage: Stage::RemovingFiles { user } }, FlowEvent::Done, new, act),
    ensures
        forall|i: int| 0 <= i < new.index@.len() ==> #[trigger] new.index@[i].username != user@.username
            && index@.contains(new.index@[i]),
        forall|j: int| 0 <= j < index@.len() && #[trigger] index@[j].username != user@.username
            ==> new.index@.contains(index@[j]),
        shows_message(act, "User deleted."@),
{
    lemma_others_facts(index@, user@.username);
    let f = |u: UserRecordView| u.username != user@.username;
    assert forall|j: int| 0 <= j < index@.len() && #[trigger] index@[j].username != user@.username
        implies new.index@.contains(index@[j]) by {
        index@.lemma_filter_contains(f, j);
    }
}

/// A new user is registered at the end of the index under the name entered,
/// with the key file chosen, and is then the only record of that name; the
/// other users stay in order.
pub proof fn lemma_new_user_registered(
    index: UserIndex,
    username: String,
    key_path: String,
    user_dir: String,
    keys: UserKeys,
    new: AppFlow,
    act: FlowAction,
)
    requires
        flow_transition(AppFlow { index, stage: Stage::SavingBundle { username, key_path, user_dir, keys } }, FlowEvent::Done, new, act),
    ensures
        new.stage matches Stage::SerializingNewVault { record, .. } && {
            &&& new.index@.len() >= 1
            &&& new.index@.last() == record@
            &&& record@.username == username@
            &&& record@.key_bundle_path == key_path@
            &&& forall|i: int| 0 <= i < new.index@.len() - 1 ==> #[trigger] new.index@[i].username != username@
        },
        act matches FlowAction::SerializeVault(v) && v@.len() == 0,
{
    lemma_others_facts(index@, username@);
}

/// A username that is blank (only white space) is refused before anything is
/// created.
pub proof fn lemma_blank_username_refused(index: UserIndex, u: String, new: AppFlow, act: FlowAction)
    requires
        flow_transition(AppFlow { index, stage: Stage::AskingUsername }, FlowEvent::TextEntered(u), new, act),
        forall|i: int| 0 <= i < u@.len() ==> is_white_space(#[trigger] u@[i]),
    ensures
        act == FlowAction::Finish(FlowOutcome::Err(FlowError::UsernameEmpty)),
        new.index == index,
{
    lemma_trim_of_blank(u@);
}

/// The user index changes only when it is loaded, when a user is
/// registered and when a user is removed.
pub proof fn lemma_index_changes(old: AppFlow, ev: FlowEvent, new: AppFlow, act: FlowAction)
    requires
        flow_transition(old, ev, new, act),
        new.index@ != old.index@,
    ensures
        old.stage is LoadingIndex || old.stage is SavingBundle || old.stage is RemovingFiles,
{
}

/// The vault screen opens only on a fresh empty vault, when the user has no
/// vault file yet, or on the vault parsed from the user's decrypted envelope.
pub proof fn lemma_vault_screen_sources(old: AppFlow, ev: FlowEvent, new: AppFlow, act: FlowAction)
    requires
        flow_transition(old, ev, new, act),
        act is RunVault,
    ensures
        (old.stage is LoadingVault && ev == FlowEvent::VaultLoaded(None))
            || (old.stage is ParsingVault && ev is VaultParsed),
{
}

/// The text that describes a flow error.
pub open spec fn flow_error_text(e: FlowError) -> Seq<char> {
    match e {
        FlowError::Crypto(c) => crypto_error_text(c),
        FlowError::UnlockFailed(c) => "unlock private key bundle: "@ + crypto_error_text(c),
        FlowError::UnlockUnparsable(m) => "unlock private key bundle: "@ + m@,
        FlowError::AuthenticationFailed(c) => "authentication failed: "@ + crypto_error_text(c),
        FlowError::AuthenticationUnparsable(m) => "authentication failed: "@ + m@,
        FlowError::InvalidUserSelection => "invalid user selection"@,
        FlowError::InvalidSelection => "invalid selection"@,
        FlowError::MustSelectExistingUser => "must select existing user"@,
        FlowError::UsernameEmpty => "username cannot be empty"@,
        FlowError::DeletionCancelled => "deletion cancelled"@,
        FlowError::VaultOwnerMismatch => "vault owner mismatch"@,
        FlowError::UnexpectedEvent => "unexpected event"@,
    }
}

impl FlowError {
    /// The text that describes the error.
    pub fn message(&self) -> (text: String)
        ensures
            text@ == flow_error_text(*self),
    {
        match self {
            FlowError::Crypto(c) => c.message(),
            FlowError::UnlockFailed(c) => {
                let mut t = String::from_str("unlock private key bundle: ");
                let m = c.message();
                t.append(m.as_str());
                t
            },
            FlowError::UnlockUnparsable(m) => {
                let mut t = String::from_str("unlock private key bundle: ");
                t.append(m.as_str());
                t
            },
            FlowError::AuthenticationUnparsable(m) => {
                let mut t = String::from_str("authentication failed: ");
                t.append(m.as_str());
                t
            },
            FlowError::AuthenticationFailed(c) => {
                let mut t = String::from_str("authentication failed: ");
                let m = c.message();
                t.append(m.as_str());
                t
            },
            FlowError::InvalidUserSelection => String::from_str("invalid user selection"),
            FlowError::InvalidSelection => String::from_str("invalid selection"),
            FlowError::MustSelectExistingUser => String::from_str("must select existing user"),
            FlowError::UsernameEmpty => String::from_str("username cannot be empty"),
            FlowError::DeletionCancelled => String::from_str("deletion cancelled"),
            FlowError::VaultOwnerMismatch => String::from_str("vault owner mismatch"),
            FlowError::UnexpectedEvent => String::from_str("unexpected event"),
        }
    }
}

} // verus!
