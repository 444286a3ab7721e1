//! The records that the password manager keeps: vault entries, the user
//! index, and the two documents that hold a user's keys and vault.
use vstd::prelude::*;

verus! {

/// One stored credential.
pub struct Entry {
    pub title: String,
    pub username: String,
    pub password: String,
    pub notes: String,
}

/// The four fields of an entry as text.
pub struct EntryView {
    pub title: Seq<char>,
    pub username: Seq<char>,
    pub password: Seq<char>,
    pub notes: Seq<char>,
}

impl View for Entry {
    type V = EntryView;

    open spec fn view(&self) -> EntryView {
        EntryView {
            title: self.title@,
            username: self.username@,
            password: self.password@,
            notes: self.notes@,
        }
    }
}

impl Entry {
    /// An entry whose four fields are all empty.
    pub fn empty() -> (e: Entry)
        ensures
            e@.title == Seq::<char>::empty(),
            e@.username == Seq::<char>::empty(),
            e@.password == Seq::<char>::empty(),
            e@.notes == Seq::<char>::empty(),
    {
        Entry { title: String::new(), username: String::new(), password: String::new(), notes: String::new() }
    }

    /// A copy of this entry, field by field.
    pub fn duplicate(&self) -> (e: Entry)
        ensures
            e@ == self@,
    {
        Entry {
            title: self.title.clone(),
            username: self.username.clone(),
            password: self.password.clone(),
            notes: self.notes.clone(),
        }
    }
}

/// The decrypted content of a vault: its entries, in order.
pub struct Vault {
    pub entries: Vec<Entry>,
}

impl View for Vault {
    type V = Seq<EntryView>;

    open spec fn view(&self) -> Seq<EntryView> {
        self.entries@.map_values(|e: Entry| e@)
    }
}

impl Default for Vault {
    /// A vault with no entries.
    fn default() -> (v: Vault)
        ensures
            v@.len() == 0,
    {
        Vault { entries: Vec::new() }
    }
}

/// Where one user's key bundle and vault live.
pub struct UserRecord {
    pub username: String,
    pub key_bundle_path: String,
    pub vault_path: String,
}

/// The three fields of a user record as text.
pub struct UserRecordView {
    pub username: Seq<char>,
    pub key_bundle_path: Seq<char>,
    pub vault_path: Seq<char>,
}

impl View for UserRecord {
    type V = UserRecordView;

    open spec fn view(&self) -> UserRecordView {
        UserRecordView {
            username: self.username@,
            key_bundle_path: self.key_bundle_path@,
            vault_path: self.vault_path@,
        }
    }
}

impl UserRecord {
    /// A copy of this record, field by field.
    pub fn duplicate(&self) -> (r: UserRecord)
        ensures
            r@ == self@,
    {
        UserRecord {
            username: self.username.clone(),
            key_bundle_path: self.key_bundle_path.clone(),
            vault_path: self.vault_path.clone(),
        }
    }
}

/// The list of known users, in the order they were registered.
pub struct UserIndex {
    pub users: Vec<UserRecord>,
}

impl View for UserIndex {
    type V = Seq<UserRecordView>;

    open spec fn view(&self) -> Seq<UserRecordView> {
        self.users@.map_values(|u: UserRecord| u@)
    }
}

impl UserIndex {
    /// A copy of this index, record by record.
    pub fn duplicate(&self) -> (r: UserIndex)
        ensures
            r@ == self@,
    {
        let mut users: Vec<UserRecord> = Vec::new();
        let mut i: usize = 0;
        while i < self.users.len()
            invariant
                i <= self.users@.len(),
                users@.map_values(|u: UserRecord| u@) == self@.subrange(0, i as int),
            decreases self.users@.len() - i,
        {
            let ghost before = users@;
            users.push(self.users[i].duplicate());
            proof {
                assert(users@.map_values(|u: UserRecord| u@) =~= before.map_values(|u: UserRecord| u@).push(
                    self.users@[i as int]@,
                ));
                assert(self@.subrange(0, i + 1) =~= self@.subrange(0, i as int).push(self.users@[i as int]@));
            }
            i = i + 1;
        }
        proof {
            assert(self@.subrange(0, self@.len() as int) =~= self@);
        }
        UserIndex { users }
    }
}

impl Default for UserIndex {
    /// An index with no users.
    fn default() -> (i: UserIndex)
        ensures
            i@.len() == 0,
    {
        UserIndex { users: Vec::new() }
    }
}

/// A user's four keys, each base64-encoded.
pub struct KeyBundle {
    pub username: String,
    pub kem_private_seed_b64: String,
    pub kem_public_b64: String,
    pub dsa_private_seed_b64: String,
    pub dsa_public_b64: String,
}

/// The fields of a key bundle as text.
pub struct KeyBundleView {
    pub username: Seq<char>,
    pub kem_private_seed_b64: Seq<char>,
    pub kem_public_b64: Seq<char>,
    pub dsa_private_seed_b64: Seq<char>,
    pub dsa_public_b64: Seq<char>,
}

impl View for KeyBundle {
    type V = KeyBundleView;

    open spec fn view(&self) -> KeyBundleView {
        KeyBundleView {
            username: self.username@,
            kem_private_seed_b64: self.kem_private_seed_b64@,
            kem_public_b64: self.kem_public_b64@,
            dsa_private_seed_b64: self.dsa_private_seed_b64@,
            dsa_public_b64: self.dsa_public_b64@,
        }
    }
}

/// An encrypted, signed vault as it is stored: every binary field base64-encoded.
pub struct VaultEnvelope {
    pub username: String,
    pub version: u32,
    pub kem_ciphertext_b64: String,
    pub wrapped_key_b64: String,
    pub nonce_b64: String,
    pub ciphertext_b64: String,
    pub signature_b64: String,
}

/// The fields of a vault envelope as values.
pub struct VaultEnvelopeView {
    pub username: Seq<char>,
    pub version: u32,
    pub kem_ciphertext_b64: Seq<char>,
    pub wrapped_key_b64: Seq<char>,
    pub nonce_b64: Seq<char>,
    pub ciphertext_b64: Seq<char>,
    pub signature_b64: Seq<char>,
}

impl View for VaultEnvelope {
    type V = VaultEnvelopeView;

    open spec fn view(&self) -> VaultEnvelopeView {
        VaultEnvelopeView {
            username: self.username@,
            version: self.version,
            kem_ciphertext_b64: self.kem_ciphertext_b64@,
            wrapped_key_b64: self.wrapped_key_b64@,
            nonce_b64: self.nonce_b64@,
            ciphertext_b64: self.ciphertext_b64@,
            signature_b64: self.signature_b64@,
        }
    }
}

} // verus!
