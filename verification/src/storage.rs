//! Where the password manager keeps its files, the user index, and the
//! stored form of an encrypted key bundle. Reading and writing the files
//! happens outside this module.
use vstd::prelude::*;

use crate::crypto::{CryptoError, CryptoResult, SealedBundle};
use crate::models::{UserIndex, UserRecord, UserRecordView};
use crate::primitives::{b64_decode, b64_encode, base64_decoding, base64_encoding, config_dir, join_path, joined_path};
use crate::text::same_text;

verus! {

/// The application's directory: `pqvault` under the configuration directory,
/// or under the working directory when there is none.
pub open spec fn root_under(config: Option<Seq<char>>) -> Seq<char> {
    joined_path(
        match config {
            Some(c) => c,
            None => "."@,
        },
        "pqvault"@,
    )
}

/// The text of an optional string.
pub open spec fn text_of(s: Option<String>) -> Option<Seq<char>> {
    match s {
        Some(t) => Some(t@),
        None => None,
    }
}

/// Whether a path is the application's directory for some configuration directory.
pub open spec fn is_app_root(root: Seq<char>) -> bool {
    exists|config: Option<Seq<char>>| root == #[trigger] root_under(config)
}

/// The user index file under the application's directory.
pub open spec fn index_path_in(root: Seq<char>) -> Seq<char> {
    joined_path(root, "users.json"@)
}

/// A user's directory under the application's directory.
pub open spec fn user_dir_in(root: Seq<char>, username: Seq<char>) -> Seq<char> {
    joined_path(joined_path(root, "vaults"@), username)
}

/// A user's vault file under the application's directory.
pub open spec fn vault_path_in(root: Seq<char>, username: Seq<char>) -> Seq<char> {
    joined_path(user_dir_in(root, username), "vault.pqv"@)
}

/// The application's directory for the given configuration directory.
pub fn root_from_config(config: Option<String>) -> (root: String)
    ensures
        root@ == root_under(text_of(config)),
{
    match config {
        Some(c) => join_path(c.as_str(), "pqvault"),
        None => join_path(".", "pqvault"),
    }
}

/// The application's directory under the user's configuration directory.
pub fn app_root() -> (root: String)
    ensures
        is_app_root(root@),
{
    let config = config_dir();
    let ghost c = text_of(config);
    let root = root_from_config(config);
    assert(root@ == root_under(c));
    root
}

/// The user index file.
pub fn index_path() -> (path: String)
    ensures
        exists|root: Seq<char>| is_app_root(root) && path@ == #[trigger] index_path_in(root),
{
    let root = app_root();
    let path = join_path(root.as_str(), "users.json");
    assert(path@ == index_path_in(root@));
    path
}

/// The directory of a user's files under the given application directory.
pub fn user_dir_under(root: &str, username: &str) -> (dir: String)
    ensures
        dir@ == user_dir_in(root@, username@),
{
    let vaults = join_path(root, "vaults");
    join_path(vaults.as_str(), username)
}

/// The directory of a user's files.
pub fn user_dir_for(username: &str) -> (dir: String)
    ensures
        exists|root: Seq<char>| is_app_root(root) && dir@ == #[trigger] user_dir_in(root, username@),
{
    let root = app_root();
    let dir = user_dir_under(root.as_str(), username);
    assert(dir@ == user_dir_in(root@, username@));
    dir
}

/// A user's vault file.
pub fn vault_path_for(username: &str) -> (path: String)
    ensures
        exists|root: Seq<char>| is_app_root(root) && path@ == #[trigger] vault_path_in(root, username@),
{
    let root = app_root();
    let dir = user_dir_under(root.as_str(), username);
    let path = join_path(dir.as_str(), "vault.pqv");
    assert(path@ == vault_path_in(root@, username@));
    path
}

/// The key bundle file named by a directory and a file name.
pub fn key_path_from_input(dir: &str, filename: &str) -> (path: String)
    ensures
        path@ == joined_path(dir@, filename@),
{
    join_path(dir, filename)
}

/// The records of users other than `username`, in order.
pub open spec fn others(users: Seq<UserRecordView>, username: Seq<char>) -> Seq<UserRecordView> {
    users.filter(|u: UserRecordView| u.username != username)
}

/// The number of records for `username`.
pub open spec fn records_named(users: Seq<UserRecordView>, username: Seq<char>) -> nat {
    users.filter(|u: UserRecordView| u.username == username).len()
}

/// Removes every record of `username`, keeping the others in order.
pub fn remove_user(index: &mut UserIndex, username: &str)
    ensures
        final(index)@ == others(old(index)@, username@),
        forall|i: int| 0 <= i < final(index)@.len() ==> #[trigger] final(index)@[i].username != username@
            && old(index)@.contains(final(index)@[i]),
        forall|j: int| 0 <= j < old(index)@.len() && #[trigger] old(index)@[j].username != username@
            ==> final(index)@.contains(old(index)@[j]),
{
    let ghost old_users = index@;
    let mut kept: Vec<UserRecord> = Vec::new();
    let mut rest: Vec<UserRecord> = Vec::new();
    std::mem::swap(&mut rest, &mut index.users);
    let n = rest.len();
    let mut i: usize = 0;
    while i < n
        invariant
            n == rest@.len(),
            i <= n,
            rest@.map_values(|u: UserRecord| u@) == old_users,
            kept@.map_values(|u: UserRecord| u@) == others(old_users.subrange(0, i as int), username@),
        decreases n - i,
    {
        proof {
            let pre = old_users.subrange(0, i as int);
            let next = old_users.subrange(0, i + 1);
            assert(next.drop_last() =~= pre);
            reveal_with_fuel(Seq::<_>::filter, 1);
        }
        let keep = !same_text(rest[i].username.as_str(), username);
        if keep {
            let ghost before = kept@;
            kept.push(rest[i].duplicate());
            proof {
                assert(kept@.map_values(|u: UserRecord| u@) =~= before.map_values(|u: UserRecord| u@).push(rest@[i as int]@));
            }
        }
        i = i + 1;
    }
    proof {
        assert(old_users.subrange(0, n as int) =~= old_users);
    }
    index.users = kept;
    proof {
        lemma_others_facts(old_users, username@);
        let f = |u: UserRecordView| u.username != username@;
        assert forall|j: int| 0 <= j < old_users.len() && #[trigger] old_users[j].username != username@
            implies others(old_users, username@).contains(old_users[j]) by {
            old_users.lemma_filter_contains(f, j);
        }
    }
}

/// Registers a user whose key bundle is at `key_bundle_path`: any earlier
/// record of the same name is dropped, and the new record, pointing at the
/// user's vault file, is appended. Afterwards exactly one record has that name.
pub fn register_user(index: &mut UserIndex, username: &str, key_bundle_path: &str) -> (record: UserRecord)
    ensures
        record@.username == username@,
        record@.key_bundle_path == key_bundle_path@,
        exists|root: Seq<char>| is_app_root(root) && record@.vault_path == #[trigger] vault_path_in(root, username@),
        final(index)@ == others(old(index)@, username@).push(record@),
        records_named(final(index)@, username@) == 1,
        final(index)@.len() >= 1 && final(index)@.last() == record@,
        forall|i: int| 0 <= i < final(index)@.len() - 1 ==> #[trigger] final(index)@[i].username != username@
            && old(index)@.contains(final(index)@[i]),
        forall|j: int| 0 <= j < old(index)@.len() && #[trigger] old(index)@[j].username != username@
            ==> final(index)@.contains(old(index)@[j]),
{
    let record = UserRecord {
        username: String::from_str(username),
        key_bundle_path: String::from_str(key_bundle_path),
        vault_path: vault_path_for(username),
    };
    remove_user(index, username);
    let ghost before = index.users@;
    index.users.push(record.duplicate());
    proof {
        assert(index.users@.map_values(|u: UserRecord| u@) =~= before.map_values(|u: UserRecord| u@).push(record@));
        lemma_named_after_register(old(index)@, username@, record@);
        let kept = others(old(index)@, username@);
        assert forall|j: int| 0 <= j < old(index)@.len() && #[trigger] old(index)@[j].username != username@
            implies index@.contains(old(index)@[j]) by {
            assert(kept.contains(old(index)@[j]));
            let k = choose|k: int| 0 <= k < kept.len() && kept[k] == old(index)@[j];
            assert(index@[k] == kept[k]);
        }
    }
    record
}

/// After the other records of a name are kept and one record of that name is
/// appended, exactly one record has that name.
proof fn lemma_named_after_register(users: Seq<UserRecordView>, username: Seq<char>, record: UserRecordView)
    requires
        record.username == username,
    ensures
        records_named(others(users, username).push(record), username) == 1,
{
    let kept = others(users, username);
    let f = |u: UserRecordView| u.username == username;
    lemma_none_named(users, username);
    assert(kept.push(record).drop_last() =~= kept);
    reveal_with_fuel(Seq::<_>::filter, 1);
    assert(kept.push(record).filter(f) =~= kept.filter(f).push(record));
}

/// None of the records kept by `others` has the removed name.
proof fn lemma_none_named(users: Seq<UserRecordView>, username: Seq<char>)
    ensures
        records_named(others(users, username), username) == 0,
    decreases users.len(),
{
    let g = |u: UserRecordView| u.username != username;
    let f = |u: UserRecordView| u.username == username;
    if users.len() == 0 {
        assert(others(users, username) =~= Seq::<UserRecordView>::empty());
        assert(others(users, username).filter(f) =~= Seq::<UserRecordView>::empty());
    } else {
        let init = users.drop_last();
        lemma_none_named(init, username);
        reveal_with_fuel(Seq::<_>::filter, 1);
        assert(users.drop_last() =~= init);
        if users.last().username != username {
            assert(others(users, username) =~= others(init, username).push(users.last()));
            assert(others(users, username).drop_last() =~= others(init, username));
        } else {
            assert(others(users, username) =~= others(init, username));
        }
    }
}

/// Whether no two records share a username.
pub open spec fn names_distinct(users: Seq<UserRecordView>) -> bool {
    forall|i: int, j: int| 0 <= i < j < users.len() ==> #[trigger] users[i].username != #[trigger] users[j].username
}

/// The records kept by `others` are records of the index, none of them named
/// `username`, and they keep distinct names distinct.
pub proof fn lemma_others_facts(users: Seq<UserRecordView>, username: Seq<char>)
    ensures
        forall|i: int| 0 <= i < others(users, username).len() ==> {
            &&& #[trigger] others(users, username)[i].username != username
            &&& users.contains(others(users, username)[i])
        },
        names_distinct(users) ==> names_distinct(others(users, username)),
    decreases users.len(),
{
    let g = |u: UserRecordView| u.username != username;
    if users.len() == 0 {
        assert(others(users, username) =~= Seq::<UserRecordView>::empty()) by {
            reveal_with_fuel(Seq::<_>::filter, 1);
        }
    } else {
        let init = users.drop_last();
        let last = users.last();
        lemma_others_facts(init, username);
        assert(init.push(last) =~= users);
        init.lemma_filter_push(last, g);
        let kept = others(init, username);
        assert forall|i: int| 0 <= i < others(users, username).len() implies {
            &&& #[trigger] others(users, username)[i].username != username
            &&& users.contains(others(users, username)[i])
        } by {
            if i < kept.len() {
                assert(others(users, username)[i] == kept[i]);
                let k = choose|k: int| 0 <= k < init.len() && init[k] == kept[i];
                assert(users[k] == kept[i]);
            } else {
                assert(others(users, username)[i] == last);
                assert(users[users.len() - 1] == last);
            }
        }
        if names_distinct(users) {
            assert(names_distinct(init)) by {
                assert forall|i: int, j: int| 0 <= i < j < init.len() implies
                    #[trigger] init[i].username != #[trigger] init[j].username by {
                    assert(init[i] == users[i] && init[j] == users[j]);
                }
            }
            if g(last) {
                assert forall|i: int, j: int| 0 <= i < j < others(users, username).len() implies
                    #[trigger] others(users, username)[i].username != #[trigger] others(users, username)[j].username by {
                    if j < kept.len() {
                        assert(others(users, username)[i] == kept[i]);
                        assert(others(users, username)[j] == kept[j]);
                    } else {
                        assert(others(users, username)[i] == kept[i]);
                        assert(others(users, username)[j] == last);
                        let k = choose|k: int| 0 <= k < init.len() && init[k] == kept[i];
                        assert(users[k] == kept[i]);
                        assert(users[users.len() - 1] == last);
                    }
                }
            }
        }
    }
}

/// Registering a user in an index whose names are distinct leaves them
/// distinct: the new record is the last one, and the only one of its name.
pub proof fn lemma_register_keeps_names_distinct(users: Seq<UserRecordView>, username: Seq<char>, record: UserRecordView)
    requires
        names_distinct(users),
        record.username == username,
    ensures
        names_distinct(others(users, username).push(record)),
        others(users, username).push(record).last() == record,
        records_named(others(users, username).push(record), username) == 1,
{
    lemma_others_facts(users, username);
    lemma_named_after_register(users, username, record);
    let kept = others(users, username);
    let after = kept.push(record);
    assert forall|i: int, j: int| 0 <= i < j < after.len() implies
        #[trigger] after[i].username != #[trigger] after[j].username by {
        assert(after[i] == kept[i]);
        if j < kept.len() {
            assert(after[j] == kept[j]);
        } else {
            assert(kept[i].username != username);
        }
    }
}

/// Registering the same name twice leaves the index that registering it once,
/// with the second record, leaves.
pub proof fn lemma_register_twice(users: Seq<UserRecordView>, username: Seq<char>, first: UserRecordView, second: UserRecordView)
    requires
        first.username == username,
        second.username == username,
    ensures
        others(others(users, username).push(first), username).push(second) == others(users, username).push(second),
{
    let g = |u: UserRecordView| u.username != username;
    let kept = others(users, username);
    lemma_others_facts(users, username);
    kept.lemma_filter_push(first, g);
    lemma_filter_keeps_all(kept, username);
}

/// `others` leaves a sequence without records of the name unchanged.
proof fn lemma_filter_keeps_all(s: Seq<UserRecordView>, username: Seq<char>)
    requires
        forall|i: int| 0 <= i < s.len() ==> #[trigger] s[i].username != username,
    ensures
        others(s, username) == s,
    decreases s.len(),
{
    let g = |u: UserRecordView| u.username != username;
    if s.len() == 0 {
        assert(others(s, username) =~= s) by {
            reveal_with_fuel(Seq::<_>::filter, 1);
        }
    } else {
        let init = s.drop_last();
        assert forall|i: int| 0 <= i < init.len() implies #[trigger] init[i].username != username by {
            assert(init[i] == s[i]);
        }
        lemma_filter_keeps_all(init, username);
        assert(init.push(s.last()) =~= s);
        init.lemma_filter_push(s.last(), g);
        assert(s[s.len() - 1].username != username);
    }
}

/// The stored form of an encrypted key bundle: a format version and the
/// salt, nonce and ciphertext, each base64-encoded.
pub struct KeyBundleFile {
    pub version: u32,
    pub salt_b64: String,
    pub nonce_b64: String,
    pub ciphertext_b64: String,
}

/// The version of the key bundle file format that is written.
pub const KEY_BUNDLE_FILE_VERSION: u32 = 1;

/// The stored form of an encrypted key bundle.
pub fn key_bundle_file(salt: &[u8], nonce: &[u8], ciphertext: &[u8]) -> (file: KeyBundleFile)
    requires
        salt.len() <= usize::MAX / 2,
        nonce.len() <= usize::MAX / 2,
        ciphertext.len() <= usize::MAX / 2,
    ensures
        file.version == KEY_BUNDLE_FILE_VERSION,
        file.salt_b64@ == base64_encoding(salt@),
        file.nonce_b64@ == base64_encoding(nonce@),
        file.ciphertext_b64@ == base64_encoding(ciphertext@),
        bundle_parts(file.salt_b64@, file.nonce_b64@, file.ciphertext_b64@) == Some((salt@, nonce@, ciphertext@)),
{
    KeyBundleFile {
        version: KEY_BUNDLE_FILE_VERSION,
        salt_b64: b64_encode(salt),
        nonce_b64: b64_encode(nonce),
        ciphertext_b64: b64_encode(ciphertext),
    }
}

/// The salt, nonce and ciphertext that a stored key bundle's fields decode
/// to, or `None` when one of them does not decode.
pub open spec fn bundle_parts(salt_b64: Seq<char>, nonce_b64: Seq<char>, ciphertext_b64: Seq<char>) -> Option<(Seq<u8>, Seq<u8>, Seq<u8>)> {
    match (base64_decoding(salt_b64), base64_decoding(nonce_b64), base64_decoding(ciphertext_b64)) {
        (Some(s), Some(n), Some(c)) => Some((s, n, c)),
        _ => None,
    }
}

impl KeyBundleFile {
    /// The salt, nonce and ciphertext of a stored key bundle, decoded; the
    /// version is not checked.
    pub fn parts(&self) -> (r: CryptoResult<SealedBundle>)
        ensures
            match r {
                Ok(s) => bundle_parts(self.salt_b64@, self.nonce_b64@, self.ciphertext_b64@)
                    == Some((s.salt@, s.nonce@, s.ciphertext@)),
                Err(e) => e == CryptoError::Base64
                    && bundle_parts(self.salt_b64@, self.nonce_b64@, self.ciphertext_b64@) is None,
            },
    {
        let salt = match b64_decode(self.salt_b64.as_str()) {
            Some(b) => b,
            None => return Err(CryptoError::Base64),
        };
        let nonce = match b64_decode(self.nonce_b64.as_str()) {
            Some(b) => b,
            None => return Err(CryptoError::Base64),
        };
        let ciphertext = match b64_decode(self.ciphertext_b64.as_str()) {
            Some(b) => b,
            None => return Err(CryptoError::Base64),
        };
        Ok(SealedBundle { salt, nonce, ciphertext })
    }
}

} // verus!
