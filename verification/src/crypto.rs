//! The cryptography of the vault: a user's post-quantum keys, the passphrase
//! encryption of the key bundle, and the encrypted, ML-KEM-wrapped and
//! ML-DSA-signed vault envelope.
//!
//! Serialising the vault and the key bundle to JSON happens outside this
//! module: here they are the plaintext bytes that get encrypted.
use vstd::prelude::*;
use vstd::slice::slice_subrange;
use vstd::utf8::encode_utf8;

use crate::bytes::append_bytes;
use crate::util::random_bytes;
use crate::models::{KeyBundle, KeyBundleView, VaultEnvelope, VaultEnvelopeView};
use crate::primitives::{
    aead_message_fits, argon2_default_key, argon2_hash, b64_decode, b64_encode, base64_decoding,
    base64_encoding, dsa_generate, dsa_sign, dsa_signature_accepts, dsa_signing_accepts, dsa_verify,
    dsa_verifying_accepts, hkdf_sha256_expand, hkdf_sha256_okm, kem_ciphertext_accepts, kem_decapsulate,
    kem_encapsulate_with, kem_generate, kem_private_accepts, kem_public_accepts, ml_dsa_sign,
    ml_dsa_signature_decodes, ml_dsa_verifies, ml_dsa_vk_of, ml_kem_decapsulate, ml_kem_ek_accepts,
    ml_kem_ek_of, ml_kem_encaps_ct, ml_kem_encaps_key, wipe, xchacha_decrypt, xchacha_encrypt, xchacha_open, xchacha_seal,
    AeadFailure,
};

verus! {

/// Domain separation for the passphrase key that encrypts a key bundle.
pub const KDF_CONTEXT_KEY_BUNDLE: &'static str = "pqvault-keybundle-v1";

/// Domain separation (the HKDF salt) for the key that wraps a vault's data key.
pub const KDF_CONTEXT_VAULT: &'static str = "pqvault-vault-v1";

/// The HKDF info string of the vault wrapping key.
pub const VAULT_WRAP_INFO: &'static str = "vault-wrap-key";

/// The only vault format version this library writes and reads.
pub const VAULT_VERSION: u32 = 1;

/// Why a cryptographic operation gave no result.
#[derive(Debug, Clone, Copy, PartialEq, Eq)]
pub enum CryptoError {
    /// The envelope's version is not the supported one.
    UnsupportedVersion,
    /// A base64 field does not decode.
    Base64,
    /// The signature bytes are not an encoded ML-DSA-65 signature.
    InvalidSignatureBytes,
    /// The wrapped key is shorter than its 24-byte nonce.
    MissingWrapNonce,
    /// The signature does not verify under the user's verifying key.
    SignatureRejected,
    /// The KEM ciphertext is not an ML-KEM-768 ciphertext.
    InvalidKemCiphertext,
    /// A symmetric key is not 32 bytes long.
    BadKey,
    /// The message is too long for XChaCha20-Poly1305.
    EncryptionFailed,
    /// A ciphertext does not authenticate under its key and nonce.
    DecryptionFailed,
    /// Key derivation failed.
    KeyDerivation,
    /// The ML-KEM private seed is not 64 bytes.
    InvalidKemPrivateSeed,
    /// The ML-KEM public key is refused.
    InvalidKemPublicKey,
    /// The ML-DSA private seed is not 32 bytes.
    InvalidDsaPrivateSeed,
    /// The ML-DSA public key is not 1952 bytes.
    InvalidDsaPublicKey,
}

/// The result of a cryptographic operation.
pub type CryptoResult<T> = Result<T, CryptoError>;

/// The result of decoding a key bundle, as values.
pub type KeysOutcome = Result<UserKeysView, CryptoError>;

/// The result of sealing a vault, as values.
pub type EnvelopeOutcome = Result<VaultEnvelopeView, CryptoError>;

/// The result of decrypting bytes, as values.
pub type BytesOutcome = Result<Seq<u8>, CryptoError>;

/// A user's key material: the ML-KEM-768 decapsulation seed and
/// encapsulation key, and the ML-DSA-65 signing seed and verifying key.
pub struct UserKeys {
    kem_private: Vec<u8>,
    kem_public: Vec<u8>,
    dsa_signing: Vec<u8>,
    dsa_verifying: Vec<u8>,
}

/// The key material of a `UserKeys`, as byte sequences.
pub struct UserKeysView {
    pub kem_private: Seq<u8>,
    pub kem_public: Seq<u8>,
    pub dsa_signing: Seq<u8>,
    pub dsa_verifying: Seq<u8>,
}

impl View for UserKeys {
    type V = UserKeysView;

    closed spec fn view(&self) -> UserKeysView {
        UserKeysView {
            kem_private: self.kem_private@,
            kem_public: self.kem_public@,
            dsa_signing: self.dsa_signing@,
            dsa_verifying: self.dsa_verifying@,
        }
    }
}

/// Each key has the form its crate accepts.
pub open spec fn keys_well_formed(k: UserKeysView) -> bool {
    &&& k.kem_private.len() == 64
    &&& ml_kem_ek_accepts(k.kem_public)
    &&& k.kem_public.len() == 1184
    &&& k.dsa_signing.len() == 32
    &&& k.dsa_verifying.len() == 1952
}

/// Each public key is the one that belongs to its private seed.
pub open spec fn keys_paired(k: UserKeysView) -> bool {
    &&& k.kem_public == ml_kem_ek_of(k.kem_private)
    &&& k.dsa_verifying == ml_dsa_vk_of(k.dsa_signing)
}

/// What decoding a key bundle gives: its four keys, or the first field that
/// fails to decode or to be accepted as a key.
pub open spec fn keys_from_bundle(b: KeyBundleView) -> KeysOutcome {
    match (
        base64_decoding(b.kem_private_seed_b64),
        base64_decoding(b.kem_public_b64),
        base64_decoding(b.dsa_private_seed_b64),
        base64_decoding(b.dsa_public_b64),
    ) {
        (Some(kp), Some(ke), Some(ds), Some(dv)) => {
            if kp.len() != 64 {
                KeysOutcome::Err(CryptoError::InvalidKemPrivateSeed)
            } else if !ml_kem_ek_accepts(ke) {
                KeysOutcome::Err(CryptoError::InvalidKemPublicKey)
            } else if ds.len() != 32 {
                KeysOutcome::Err(CryptoError::InvalidDsaPrivateSeed)
            } else if dv.len() != 1952 {
                KeysOutcome::Err(CryptoError::InvalidDsaPublicKey)
            } else {
                KeysOutcome::Ok(UserKeysView { kem_private: kp, kem_public: ke, dsa_signing: ds, dsa_verifying: dv })
            }
        },
        _ => KeysOutcome::Err(CryptoError::Base64),
    }
}

impl UserKeys {
    #[verifier::type_invariant]
    closed spec fn well_formed(self) -> bool {
        keys_well_formed(self@)
    }

    /// Fresh keys from system randomness; each public key belongs to its seed.
    pub fn generate() -> (k: UserKeys)
        ensures
            keys_well_formed(k@),
            keys_paired(k@),
    {
        let (kem_private, kem_public) = kem_generate();
        let (dsa_signing, dsa_verifying) = dsa_generate();
        UserKeys { kem_private, kem_public, dsa_signing, dsa_verifying }
    }

    /// The keys as a bundle for `username`, each key base64-encoded. Decoding
    /// the bundle gives these keys back.
    pub fn to_bundle(&self, username: &str) -> (b: KeyBundle)
        ensures
            b@.username == username@,
            b@.kem_private_seed_b64 == base64_encoding(self@.kem_private),
            b@.kem_public_b64 == base64_encoding(self@.kem_public),
            b@.dsa_private_seed_b64 == base64_encoding(self@.dsa_signing),
            b@.dsa_public_b64 == base64_encoding(self@.dsa_verifying),
            keys_from_bundle(b@) == KeysOutcome::Ok(self@),
    {
        proof { use_type_invariant(self); }
        let b = KeyBundle {
            username: String::from_str(username),
            kem_private_seed_b64: b64_encode(self.kem_private.as_slice()),
            kem_public_b64: b64_encode(self.kem_public.as_slice()),
            dsa_private_seed_b64: b64_encode(self.dsa_signing.as_slice()),
            dsa_public_b64: b64_encode(self.dsa_verifying.as_slice()),
        };
        b
    }

    /// The keys held in a bundle: each field is decoded and handed to its
    /// crate's key constructor, and the first one refused is reported.
    pub fn from_bundle(bundle: &KeyBundle) -> (r: CryptoResult<UserKeys>)
        ensures
            match r {
                Ok(k) => keys_from_bundle(bundle@) == KeysOutcome::Ok(k@),
                Err(e) => keys_from_bundle(bundle@) == KeysOutcome::Err(e),
            },
    {
        let kem_private = match b64_decode(bundle.kem_private_seed_b64.as_str()) {
            Some(b) => b,
            None => return Err(CryptoError::Base64),
        };
        let kem_public = match b64_decode(bundle.kem_public_b64.as_str()) {
            Some(b) => b,
            None => return Err(CryptoError::Base64),
        };
        let dsa_signing = match b64_decode(bundle.dsa_private_seed_b64.as_str()) {
            Some(b) => b,
            None => return Err(CryptoError::Base64),
        };
        let dsa_verifying = match b64_decode(bundle.dsa_public_b64.as_str()) {
            Some(b) => b,
            None => return Err(CryptoError::Base64),
        };
        if !kem_private_accepts(kem_private.as_slice()) {
            return Err(CryptoError::InvalidKemPrivateSeed);
        }
        if !kem_public_accepts(kem_public.as_slice()) {
            return Err(CryptoError::InvalidKemPublicKey);
        }
        if !dsa_signing_accepts(dsa_signing.as_slice()) {
            return Err(CryptoError::InvalidDsaPrivateSeed);
        }
        if !dsa_verifying_accepts(dsa_verifying.as_slice()) {
            return Err(CryptoError::InvalidDsaPublicKey);
        }
        Ok(UserKeys { kem_private, kem_public, dsa_signing, dsa_verifying })
    }
}

/// The bytes that Argon2 hashes for a passphrase: its UTF-8 bytes, then the context.
pub open spec fn passphrase_input(passphrase: Seq<char>, context: Seq<u8>) -> Seq<u8> {
    encode_utf8(passphrase) + context
}

/// Whether Argon2 refuses a password or salt of these lengths.
pub open spec fn argon2_refuses(password_len: nat, salt_len: nat) -> bool {
    password_len > 0xffff_ffff || salt_len < 8 || salt_len > 0xffff_ffff
}

/// The key that protects a key bundle under this passphrase and salt.
pub open spec fn bundle_key(passphrase: Seq<char>, salt: Seq<u8>) -> Seq<u8> {
    argon2_default_key(passphrase_input(passphrase, encode_utf8(KDF_CONTEXT_KEY_BUNDLE@)), salt)
}

/// What decrypting a key bundle ciphertext under a 32-byte key gives.
pub open spec fn open_key_bundle(key: Seq<u8>, nonce: Seq<u8>, ciphertext: Seq<u8>) -> BytesOutcome {
    match xchacha_open(key, nonce, ciphertext) {
        Some(p) => BytesOutcome::Ok(p),
        None => BytesOutcome::Err(CryptoError::DecryptionFailed),
    }
}

/// Derives a 32-byte key from a passphrase with Argon2 (default parameters),
/// hashing the passphrase bytes followed by `context` under `salt`. It fails
/// exactly where Argon2 refuses the lengths.
fn derive_passphrase_key(passphrase: &str, salt: &[u8], context: &[u8]) -> (r: CryptoResult<Vec<u8>>)
    ensures
        r is Err <==> argon2_refuses(passphrase_input(passphrase@, context@).len(), salt.len() as nat),
        match r {
            Ok(k) => k@ == argon2_default_key(passphrase_input(passphrase@, context@), salt@) && k.len() == 32,
            Err(e) => e == CryptoError::KeyDerivation,
        },
{
    let mut input: Vec<u8> = Vec::new();
    append_bytes(&mut input, passphrase.as_bytes());
    append_bytes(&mut input, context);
    let derived = argon2_hash(input.as_slice(), salt);
    wipe(&mut input);
    match derived {
        Some(k) => Ok(k),
        None => Err(CryptoError::KeyDerivation),
    }
}

/// A key bundle encrypted under a passphrase: the Argon2 salt, the
/// XChaCha20-Poly1305 nonce and the ciphertext.
pub struct SealedBundle {
    pub salt: Vec<u8>,
    pub nonce: Vec<u8>,
    pub ciphertext: Vec<u8>,
}

/// Whether Argon2 refuses the key-bundle passphrase with a salt of this length.
pub open spec fn bundle_kdf_refuses(passphrase: Seq<char>, salt_len: nat) -> bool {
    argon2_refuses(passphrase_input(passphrase, encode_utf8(KDF_CONTEXT_KEY_BUNDLE@)).len(), salt_len)
}

/// Encrypts a serialised key bundle under a passphrase with the given salt
/// and nonce: the key is derived from the passphrase and salt, and the bundle
/// is encrypted under it. It fails with `KeyDerivation` exactly where Argon2
/// refuses the lengths and with `EncryptionFailed` exactly where the bundle is
/// too long for XChaCha20-Poly1305; otherwise decrypting with the same
/// passphrase and salt gives the bundle back.
pub fn seal_key_bundle(bundle_plain: &[u8], passphrase: &str, salt: &[u8], nonce: &[u8]) -> (r: CryptoResult<SealedBundle>)
    requires
        nonce.len() == 24,
    ensures
        bundle_kdf_refuses(passphrase@, salt.len() as nat) ==> r == CryptoResult::<SealedBundle>::Err(CryptoError::KeyDerivation),
        !bundle_kdf_refuses(passphrase@, salt.len() as nat) && !aead_message_fits(bundle_plain.len() as nat)
            ==> r == CryptoResult::<SealedBundle>::Err(CryptoError::EncryptionFailed),
        !bundle_kdf_refuses(passphrase@, salt.len() as nat) && aead_message_fits(bundle_plain.len() as nat) ==> r is Ok,
        r matches Ok(s) ==> {
            &&& s.salt@ == salt@
            &&& s.nonce@ == nonce@
            &&& s.ciphertext@ == xchacha_seal(bundle_key(passphrase@, salt@), nonce@, bundle_plain@)
            &&& s.ciphertext.len() == bundle_plain.len() + 16
            &&& open_key_bundle(bundle_key(passphrase@, salt@), nonce@, s.ciphertext@) == BytesOutcome::Ok(bundle_plain@)
        },
{
    let key = derive_passphrase_key(passphrase, salt, KDF_CONTEXT_KEY_BUNDLE.as_bytes())?;
    let ciphertext = match xchacha_encrypt(key.as_slice(), nonce, bundle_plain) {
        Ok(c) => c,
        Err(_) => return Err(CryptoError::EncryptionFailed),
    };
    let mut salt_copy: Vec<u8> = Vec::new();
    append_bytes(&mut salt_copy, salt);
    let mut nonce_copy: Vec<u8> = Vec::new();
    append_bytes(&mut nonce_copy, nonce);
    Ok(SealedBundle { salt: salt_copy, nonce: nonce_copy, ciphertext })
}

/// Encrypts a serialised key bundle under a passphrase, with a fresh 16-byte
/// salt and 24-byte nonce from system randomness. It succeeds exactly where
/// Argon2 accepts the passphrase with a 16-byte salt and the bundle is not too
/// long to encrypt; decrypting with the same passphrase and salt gives the
/// bundle back.
pub fn encrypt_key_bundle(bundle_plain: &[u8], passphrase: &str) -> (r: CryptoResult<SealedBundle>)
    ensures
        r is Ok <==> (aead_message_fits(bundle_plain.len() as nat) && !bundle_kdf_refuses(passphrase@, 16)),
        bundle_kdf_refuses(passphrase@, 16) ==> r == CryptoResult::<SealedBundle>::Err(CryptoError::KeyDerivation),
        !bundle_kdf_refuses(passphrase@, 16) && !aead_message_fits(bundle_plain.len() as nat)
            ==> r == CryptoResult::<SealedBundle>::Err(CryptoError::EncryptionFailed),
        r matches Ok(s) ==> {
            &&& s.salt.len() == 16
            &&& s.nonce.len() == 24
            &&& s.ciphertext@ == xchacha_seal(bundle_key(passphrase@, s.salt@), s.nonce@, bundle_plain@)
            &&& s.ciphertext.len() == bundle_plain.len() + 16
            &&& open_key_bundle(bundle_key(passphrase@, s.salt@), s.nonce@, s.ciphertext@) == BytesOutcome::Ok(bundle_plain@)
        },
{
    let salt = random_bytes(16);
    let nonce = random_bytes(24);
    seal_key_bundle(bundle_plain, passphrase, salt.as_slice(), nonce.as_slice())
}

/// The result of decrypting a key bundle with a passphrase: `KeyDerivation`
/// where Argon2 refuses the lengths, otherwise the decryption under the
/// derived key.
pub open spec fn unlocked_bundle(passphrase: Seq<char>, salt: Seq<u8>, nonce: Seq<u8>, ciphertext: Seq<u8>) -> BytesOutcome {
    if bundle_kdf_refuses(passphrase, salt.len()) {
        BytesOutcome::Err(CryptoError::KeyDerivation)
    } else {
        open_key_bundle(bundle_key(passphrase, salt), nonce, ciphertext)
    }
}

/// The bytes of a result, as values.
pub open spec fn bytes_outcome(r: CryptoResult<Vec<u8>>) -> BytesOutcome {
    match r {
        Ok(p) => BytesOutcome::Ok(p@),
        Err(e) => BytesOutcome::Err(e),
    }
}

/// Decrypts a key bundle with a passphrase: `KeyDerivation` where Argon2
/// refuses the lengths, otherwise exactly the decryption under the key derived
/// from the passphrase and salt. A nonce of another length than 24 bytes would
/// make the decryption panic, hence the `requires`.
pub fn decrypt_key_bundle(salt: &[u8], nonce: &[u8], ciphertext: &[u8], passphrase: &str) -> (r: CryptoResult<Vec<u8>>)
    requires
        nonce.len() == 24 || bundle_kdf_refuses(passphrase@, salt.len() as nat),
    ensures
        bytes_outcome(r) == unlocked_bundle(passphrase@, salt@, nonce@, ciphertext@),
{
    let key = derive_passphrase_key(passphrase, salt, KDF_CONTEXT_KEY_BUNDLE.as_bytes())?;
    match xchacha_decrypt(key.as_slice(), nonce, ciphertext) {
        Ok(p) => Ok(p),
        Err(_) => Err(CryptoError::DecryptionFailed),
    }
}

/// The bytes that a vault signature covers: the username's UTF-8 bytes, the
/// data nonce, the wrap nonce, the KEM ciphertext, the wrapped data key and the
/// vault ciphertext, in that order.
pub open spec fn vault_signed_bytes(
    username: Seq<char>,
    nonce: Seq<u8>,
    wrap_nonce: Seq<u8>,
    kem_ciphertext: Seq<u8>,
    wrapped_key: Seq<u8>,
    ciphertext: Seq<u8>,
) -> Seq<u8> {
    encode_utf8(username) + nonce + wrap_nonce + kem_ciphertext + wrapped_key + ciphertext
}

/// The key that wraps a vault's data key, derived from the KEM shared key.
pub open spec fn vault_wrap_key(shared: Seq<u8>) -> Seq<u8> {
    hkdf_sha256_okm(encode_utf8(KDF_CONTEXT_VAULT@), shared, encode_utf8(VAULT_WRAP_INFO@))
}

/// The envelope that sealing a vault gives for these inputs: the plaintext
/// encrypted under the data key, the data key wrapped under the key derived
/// from the KEM shared key, and the whole signed with the user's ML-DSA seed.
pub open spec fn sealed_vault(
    plain: Seq<u8>,
    k: UserKeysView,
    username: Seq<char>,
    data_key: Seq<u8>,
    nonce: Seq<u8>,
    kem_ciphertext: Seq<u8>,
    shared: Seq<u8>,
    wrap_nonce: Seq<u8>,
) -> EnvelopeOutcome {
    if data_key.len() != 32 {
        EnvelopeOutcome::Err(CryptoError::BadKey)
    } else if !aead_message_fits(plain.len()) {
        EnvelopeOutcome::Err(CryptoError::EncryptionFailed)
    } else {
        let ciphertext = xchacha_seal(data_key, nonce, plain);
        let wrapped = xchacha_seal(vault_wrap_key(shared), wrap_nonce, data_key);
        let signature = ml_dsa_sign(
            k.dsa_signing,
            vault_signed_bytes(username, nonce, wrap_nonce, kem_ciphertext, wrapped, ciphertext),
        );
        EnvelopeOutcome::Ok(VaultEnvelopeView {
            username,
            version: VAULT_VERSION,
            kem_ciphertext_b64: base64_encoding(kem_ciphertext),
            wrapped_key_b64: base64_encoding(wrap_nonce + wrapped),
            nonce_b64: base64_encoding(nonce),
            ciphertext_b64: base64_encoding(ciphertext),
            signature_b64: base64_encoding(signature),
        })
    }
}

/// What opening a vault envelope gives: the plaintext, the first check that
/// fails, or `NonceUnfit` where the data nonce is not 24 bytes long at the
/// point it is used (there `XNonce::from_slice` panics).
pub enum VaultOpening {
    Opened(Seq<u8>),
    Refused(CryptoError),
    NonceUnfit,
}

/// What opening a vault envelope with these keys gives, step by step.
pub open spec fn open_vault_spec(env: VaultEnvelopeView, k: UserKeysView) -> VaultOpening {
    if env.version != VAULT_VERSION {
        VaultOpening::Refused(CryptoError::UnsupportedVersion)
    } else {
        match (
            base64_decoding(env.kem_ciphertext_b64),
            base64_decoding(env.wrapped_key_b64),
            base64_decoding(env.nonce_b64),
            base64_decoding(env.ciphertext_b64),
            base64_decoding(env.signature_b64),
        ) {
            (Some(kem_ct), Some(blob), Some(nonce), Some(ciphertext), Some(signature)) => {
                if !ml_dsa_signature_decodes(signature) {
                    VaultOpening::Refused(CryptoError::InvalidSignatureBytes)
                } else if blob.len() < 24 {
                    VaultOpening::Refused(CryptoError::MissingWrapNonce)
                } else {
                    let wrap_nonce = blob.subrange(0, 24);
                    let wrapped = blob.subrange(24, blob.len() as int);
                    let signed = vault_signed_bytes(env.username, nonce, wrap_nonce, kem_ct, wrapped, ciphertext);
                    if !ml_dsa_verifies(k.dsa_verifying, signed, signature) {
                        VaultOpening::Refused(CryptoError::SignatureRejected)
                    } else if kem_ct.len() != 1088 {
                        VaultOpening::Refused(CryptoError::InvalidKemCiphertext)
                    } else {
                        let wrap_key = vault_wrap_key(ml_kem_decapsulate(k.kem_private, kem_ct));
                        match xchacha_open(wrap_key, wrap_nonce, wrapped) {
                            None => VaultOpening::Refused(CryptoError::DecryptionFailed),
                            Some(data_key) => {
                                if data_key.len() != 32 {
                                    VaultOpening::Refused(CryptoError::BadKey)
                                } else if nonce.len() != 24 {
                                    VaultOpening::NonceUnfit
                                } else {
                                    match xchacha_open(data_key, nonce, ciphertext) {
                                        None => VaultOpening::Refused(CryptoError::DecryptionFailed),
                                        Some(p) => VaultOpening::Opened(p),
                                    }
                                }
                            },
                        }
                    }
                }
            },
            _ => VaultOpening::Refused(CryptoError::Base64),
        }
    }
}

/// Derives the 32-byte key that wraps a vault's data key from the KEM shared
/// key with HKDF-SHA256.
fn derive_shared_key(shared: &[u8], context: &[u8]) -> (r: CryptoResult<Vec<u8>>)
    ensures
        r matches Ok(k) && k@ == hkdf_sha256_okm(context@, shared@, encode_utf8(VAULT_WRAP_INFO@)) && k.len() == 32,
{
    match hkdf_sha256_expand(context, shared, VAULT_WRAP_INFO.as_bytes()) {
        Some(k) => Ok(k),
        None => Err(CryptoError::KeyDerivation),
    }
}

/// Whether an envelope's byte fields decode: the data nonce to 24 bytes, the
/// wrapped key to 72 (its 24-byte nonce, then the 32-byte data key and the
/// 16-byte tag), the KEM ciphertext to `kem_len` bytes, the vault ciphertext to
/// 16 bytes more than the plaintext, and the signature to 3309 bytes.
pub open spec fn envelope_field_lengths(env: VaultEnvelopeView, plain_len: nat, kem_len: nat) -> bool {
    &&& (base64_decoding(env.nonce_b64) matches Some(n) && n.len() == 24)
    &&& (base64_decoding(env.wrapped_key_b64) matches Some(w) && w.len() == 72)
    &&& (base64_decoding(env.kem_ciphertext_b64) matches Some(c) && c.len() == kem_len)
    &&& (base64_decoding(env.ciphertext_b64) matches Some(c) && c.len() == plain_len + 16)
    &&& (base64_decoding(env.signature_b64) matches Some(g) && g.len() == 3309)
}

/// Seals a serialised vault for `username` with the given data key, nonces and
/// KEM encapsulation: the plaintext is encrypted under the data key, the data
/// key is wrapped under the key derived from the shared key, and the signed
/// bytes are signed with the user's ML-DSA seed. Where the keys are paired and
/// decapsulating the KEM ciphertext recovers the shared key, opening the
/// envelope with the same keys gives the plaintext back.
pub fn seal_vault(
    vault_plain: &[u8],
    keys: &UserKeys,
    username: &str,
    data_key: &[u8],
    nonce: &[u8],
    kem_ciphertext: &[u8],
    shared: &[u8],
    wrap_nonce: &[u8],
) -> (r: CryptoResult<VaultEnvelope>)
    requires
        nonce.len() == 24,
        wrap_nonce.len() == 24,
        vault_plain.len() <= usize::MAX / 4,
        kem_ciphertext.len() <= usize::MAX / 2,
    ensures
        match r {
            Ok(env) => sealed_vault(vault_plain@, keys@, username@, data_key@, nonce@, kem_ciphertext@, shared@, wrap_nonce@)
                == EnvelopeOutcome::Ok(env@),
            Err(e) => sealed_vault(vault_plain@, keys@, username@, data_key@, nonce@, kem_ciphertext@, shared@, wrap_nonce@)
                == EnvelopeOutcome::Err(e),
        },
        r matches Ok(env) ==> envelope_field_lengths(env@, vault_plain.len() as nat, kem_ciphertext.len() as nat),
        r is Ok && keys_paired(keys@) && kem_ciphertext.len() == 1088
            && ml_kem_decapsulate(keys@.kem_private, kem_ciphertext@) == shared@
            ==> open_vault_spec(r->Ok_0@, keys@) == VaultOpening::Opened(vault_plain@),
{
    proof { use_type_invariant(keys); }
    let ciphertext = match xchacha_encrypt(data_key, nonce, vault_plain) {
        Ok(c) => c,
        Err(AeadFailure::BadKey) => return Err(CryptoError::BadKey),
        Err(AeadFailure::Rejected) => return Err(CryptoError::EncryptionFailed),
    };
    let wrap_key = derive_shared_key(shared, KDF_CONTEXT_VAULT.as_bytes())?;
    let wrapped_key = match xchacha_encrypt(wrap_key.as_slice(), wrap_nonce, data_key) {
        Ok(c) => c,
        Err(AeadFailure::BadKey) => return Err(CryptoError::BadKey),
        Err(AeadFailure::Rejected) => return Err(CryptoError::EncryptionFailed),
    };
    let mut signed: Vec<u8> = Vec::new();
    append_bytes(&mut signed, username.as_bytes());
    append_bytes(&mut signed, nonce);
    append_bytes(&mut signed, wrap_nonce);
    append_bytes(&mut signed, kem_ciphertext);
    append_bytes(&mut signed, wrapped_key.as_slice());
    append_bytes(&mut signed, ciphertext.as_slice());
    let signature = dsa_sign(keys.dsa_signing.as_slice(), signed.as_slice());
    let mut wrapped_blob: Vec<u8> = Vec::new();
    append_bytes(&mut wrapped_blob, wrap_nonce);
    append_bytes(&mut wrapped_blob, wrapped_key.as_slice());
    let env = VaultEnvelope {
        username: String::from_str(username),
        version: VAULT_VERSION,
        kem_ciphertext_b64: b64_encode(kem_ciphertext),
        wrapped_key_b64: b64_encode(wrapped_blob.as_slice()),
        nonce_b64: b64_encode(nonce),
        ciphertext_b64: b64_encode(ciphertext.as_slice()),
        signature_b64: b64_encode(signature.as_slice()),
    };
    proof {
        let blob = wrapped_blob@;
        assert(blob.subrange(0, 24) =~= wrap_nonce@);
        assert(blob.subrange(24, blob.len() as int) =~= wrapped_key@);
    }
    Ok(env)
}

/// Whether decapsulating the ML-KEM ciphertext that the user's public key
/// and the randomness `m` give recovers the shared key they give. ML-KEM
/// guarantees this except for a vanishingly rare set of keys and randomness.
pub open spec fn kem_round_trips(k: UserKeysView, m: Seq<u8>) -> bool {
    ml_kem_decapsulate(k.kem_private, ml_kem_encaps_ct(k.kem_public, m)) == ml_kem_encaps_key(k.kem_public, m)
}

/// Whether an envelope is the sealing of this plaintext for this user with
/// some data key and nonces of the right lengths and an ML-KEM encapsulation to
/// the user's own public key with some 32-byte randomness `m`; and, for paired
/// keys, opens to the plaintext wherever that encapsulation round-trips.
pub open spec fn vault_sealed_from(env: VaultEnvelopeView, plain: Seq<u8>, k: UserKeysView, username: Seq<char>) -> bool {
    exists|data_key: Seq<u8>, nonce: Seq<u8>, m: Seq<u8>, wrap_nonce: Seq<u8>|
        #![trigger sealed_vault(plain, k, username, data_key, nonce, ml_kem_encaps_ct(k.kem_public, m), ml_kem_encaps_key(k.kem_public, m), wrap_nonce)]
        {
            &&& data_key.len() == 32
            &&& nonce.len() == 24
            &&& m.len() == 32
            &&& wrap_nonce.len() == 24
            &&& sealed_vault(
                plain,
                k,
                username,
                data_key,
                nonce,
                ml_kem_encaps_ct(k.kem_public, m),
                ml_kem_encaps_key(k.kem_public, m),
                wrap_nonce,
            ) == EnvelopeOutcome::Ok(env)
            &&& keys_paired(k) && kem_round_trips(k, m) ==> open_vault_spec(env, k) == VaultOpening::Opened(plain)
        }
}

/// A vault envelope sealed for paired keys opens to its plaintext, provided
/// ML-KEM decapsulation recovers the shared key for every encapsulation to
/// these keys (it fails only for a vanishingly rare set of randomness).
pub proof fn lemma_sealed_vault_opens(env: VaultEnvelopeView, plain: Seq<u8>, k: UserKeysView, username: Seq<char>)
    requires
        vault_sealed_from(env, plain, k, username),
        keys_paired(k),
        forall|m: Seq<u8>| m.len() == 32 ==> #[trigger] kem_round_trips(k, m),
    ensures
        open_vault_spec(env, k) == VaultOpening::Opened(plain),
{
    let (data_key, nonce, m, wrap_nonce) = choose|data_key: Seq<u8>, nonce: Seq<u8>, m: Seq<u8>, wrap_nonce: Seq<u8>| {
        &&& data_key.len() == 32
        &&& nonce.len() == 24
        &&& m.len() == 32
        &&& wrap_nonce.len() == 24
        &&& #[trigger] sealed_vault(
            plain,
            k,
            username,
            data_key,
            nonce,
            ml_kem_encaps_ct(k.kem_public, m),
            ml_kem_encaps_key(k.kem_public, m),
            wrap_nonce,
        ) == EnvelopeOutcome::Ok(env)
        &&& keys_paired(k) && kem_round_trips(k, m) ==> open_vault_spec(env, k) == VaultOpening::Opened(plain)
    };
    assert(kem_round_trips(k, m));
}

/// Encrypts a serialised vault for `username`: a fresh 32-byte data key and
/// 24-byte nonces from system randomness, and an ML-KEM encapsulation to the
/// user's public key with fresh 32-byte randomness. Whatever the randomness
/// gave, the envelope is the sealing of the plaintext with it, its fields decode
/// to bytes of the sealed lengths, and for paired keys it opens to the
/// plaintext wherever the encapsulation round-trips.
pub fn encrypt_vault(vault_plain: &[u8], keys: &UserKeys, username: &str) -> (r: CryptoResult<VaultEnvelope>)
    requires
        vault_plain.len() <= usize::MAX / 4,
    ensures
        r is Ok == aead_message_fits(vault_plain.len() as nat),
        r is Err ==> r == CryptoResult::<VaultEnvelope>::Err(CryptoError::EncryptionFailed),
        r matches Ok(env) ==> {
            &&& env@.username == username@
            &&& env@.version == VAULT_VERSION
            &&& envelope_field_lengths(env@, vault_plain.len() as nat, 1088)
            &&& vault_sealed_from(env@, vault_plain@, keys@, username@)
        },
{
    proof { use_type_invariant(keys); }
    let mut data_key = random_bytes(32);
    let nonce = random_bytes(24);
    let m = random_bytes(32);
    let (kem_ciphertext, shared) = kem_encapsulate_with(keys.kem_public.as_slice(), m.as_slice());
    let wrap_nonce = random_bytes(24);
    let r = seal_vault(
        vault_plain,
        keys,
        username,
        data_key.as_slice(),
        nonce.as_slice(),
        kem_ciphertext.as_slice(),
        shared.as_slice(),
        wrap_nonce.as_slice(),
    );
    let ghost dk = data_key@;
    wipe(&mut data_key);
    proof {
        if r is Ok {
            assert(sealed_vault(
                vault_plain@,
                keys@,
                username@,
                dk,
                nonce@,
                ml_kem_encaps_ct(keys@.kem_public, m@),
                ml_kem_encaps_key(keys@.kem_public, m@),
                wrap_nonce@,
            ) == EnvelopeOutcome::Ok(r->Ok_0@));
        }
    }
    r
}

/// Opens a vault envelope with the user's keys: checks the version, decodes
/// every field, checks the signature over the signed bytes, decapsulates the
/// KEM ciphertext, unwraps the data key and decrypts the vault. The envelope
/// must not be one on which this would reach a data nonce of the wrong length.
pub fn decrypt_vault(envelope: &VaultEnvelope, keys: &UserKeys) -> (r: CryptoResult<Vec<u8>>)
    requires
        open_vault_spec(envelope@, keys@) != VaultOpening::NonceUnfit,
    ensures
        match r {
            Ok(p) => open_vault_spec(envelope@, keys@) == VaultOpening::Opened(p@),
            Err(e) => open_vault_spec(envelope@, keys@) == VaultOpening::Refused(e),
        },
{
    match open_vault(envelope, keys) {
        Some(r) => r,
        None => Err(CryptoError::DecryptionFailed),
    }
}

/// `decrypt_vault` on any envelope: `None` exactly where opening it would
/// reach a data nonce of another length than 24 bytes (where decryption would
/// panic), otherwise what `decrypt_vault` gives.
pub fn open_vault(envelope: &VaultEnvelope, keys: &UserKeys) -> (r: Option<CryptoResult<Vec<u8>>>)
    ensures
        r is None <==> open_vault_spec(envelope@, keys@) == VaultOpening::NonceUnfit,
        r matches Some(inner) ==> match inner {
            Ok(p) => open_vault_spec(envelope@, keys@) == VaultOpening::Opened(p@),
            Err(e) => open_vault_spec(envelope@, keys@) == VaultOpening::Refused(e),
        },
{
    proof { use_type_invariant(keys); }
    if envelope.version != VAULT_VERSION {
        return Some(Err(CryptoError::UnsupportedVersion));
    }
    let kem_ciphertext = match b64_decode(envelope.kem_ciphertext_b64.as_str()) {
        Some(b) => b,
        None => return Some(Err(CryptoError::Base64)),
    };
    let wrapped_blob = match b64_decode(envelope.wrapped_key_b64.as_str()) {
        Some(b) => b,
        None => return Some(Err(CryptoError::Base64)),
    };
    let nonce = match b64_decode(envelope.nonce_b64.as_str()) {
        Some(b) => b,
        None => return Some(Err(CryptoError::Base64)),
    };
    let ciphertext = match b64_decode(envelope.ciphertext_b64.as_str()) {
        Some(b) => b,
        None => return Some(Err(CryptoError::Base64)),
    };
    let signature = match b64_decode(envelope.signature_b64.as_str()) {
        Some(b) => b,
        None => return Some(Err(CryptoError::Base64)),
    };
    if !dsa_signature_accepts(signature.as_slice()) {
        return Some(Err(CryptoError::InvalidSignatureBytes));
    }
    if wrapped_blob.len() < 24 {
        return Some(Err(CryptoError::MissingWrapNonce));
    }
    let wrap_nonce = slice_subrange(wrapped_blob.as_slice(), 0, 24);
    let wrapped_key = slice_subrange(wrapped_blob.as_slice(), 24, wrapped_blob.len());
    let mut signed: Vec<u8> = Vec::new();
    append_bytes(&mut signed, envelope.username.as_str().as_bytes());
    append_bytes(&mut signed, nonce.as_slice());
    append_bytes(&mut signed, wrap_nonce);
    append_bytes(&mut signed, kem_ciphertext.as_slice());
    append_bytes(&mut signed, wrapped_key);
    append_bytes(&mut signed, ciphertext.as_slice());
    if !dsa_verify(keys.dsa_verifying.as_slice(), signed.as_slice(), signature.as_slice()) {
        return Some(Err(CryptoError::SignatureRejected));
    }
    if !kem_ciphertext_accepts(kem_ciphertext.as_slice()) {
        return Some(Err(CryptoError::InvalidKemCiphertext));
    }
    let shared = kem_decapsulate(keys.kem_private.as_slice(), kem_ciphertext.as_slice());
    let wrap_key = match derive_shared_key(shared.as_slice(), KDF_CONTEXT_VAULT.as_bytes()) {
        Ok(k) => k,
        Err(e) => return Some(Err(e)),
    };
    let data_key = match xchacha_decrypt(wrap_key.as_slice(), wrap_nonce, wrapped_key) {
        Ok(k) => k,
        Err(AeadFailure::BadKey) => return Some(Err(CryptoError::BadKey)),
        Err(AeadFailure::Rejected) => return Some(Err(CryptoError::DecryptionFailed)),
    };
    if data_key.len() != 32 {
        return Some(Err(CryptoError::BadKey));
    }
    if nonce.len() != 24 {
        return None;
    }
    match xchacha_decrypt(data_key.as_slice(), nonce.as_slice(), ciphertext.as_slice()) {
        Ok(p) => Some(Ok(p)),
        Err(AeadFailure::BadKey) => Some(Err(CryptoError::BadKey)),
        Err(AeadFailure::Rejected) => Some(Err(CryptoError::DecryptionFailed)),
    }
}

/// The text that describes a cryptographic error. Where an outside crate's
/// error stands behind it, the text is that error's own (`aead::Error`,
/// `signature error`) or names it (`base64 decode error`).
pub open spec fn crypto_error_text(e: CryptoError) -> Seq<char> {
    match e {
        CryptoError::UnsupportedVersion => "unsupported vault version"@,
        CryptoError::Base64 => "base64 decode error"@,
        CryptoError::InvalidSignatureBytes => "invalid signature bytes"@,
        CryptoError::MissingWrapNonce => "wrapped key missing nonce"@,
        CryptoError::SignatureRejected => "signature error"@,
        CryptoError::InvalidKemCiphertext => "invalid ML-KEM ciphertext"@,
        CryptoError::BadKey => "bad key"@,
        CryptoError::EncryptionFailed => "aead::Error"@,
        CryptoError::DecryptionFailed => "aead::Error"@,
        CryptoError::KeyDerivation => "argon2 derivation failed"@,
        CryptoError::InvalidKemPrivateSeed => "invalid ML-KEM private seed"@,
        CryptoError::InvalidKemPublicKey => "invalid ML-KEM public key"@,
        CryptoError::InvalidDsaPrivateSeed => "invalid ML-DSA private seed"@,
        CryptoError::InvalidDsaPublicKey => "invalid ML-DSA public key"@,
    }
}

impl CryptoError {
    /// The text that describes the error.
    pub fn message(&self) -> (text: String)
        ensures
            text@ == crypto_error_text(*self),
    {
        match self {
            CryptoError::UnsupportedVersion => String::from_str("unsupported vault version"),
            CryptoError::Base64 => String::from_str("base64 decode error"),
            CryptoError::InvalidSignatureBytes => String::from_str("invalid signature bytes"),
            CryptoError::MissingWrapNonce => String::from_str("wrapped key missing nonce"),
            CryptoError::SignatureRejected => String::from_str("signature error"),
            CryptoError::InvalidKemCiphertext => String::from_str("invalid ML-KEM ciphertext"),
            CryptoError::BadKey => String::from_str("bad key"),
            CryptoError::EncryptionFailed => String::from_str("aead::Error"),
            CryptoError::DecryptionFailed => String::from_str("aead::Error"),
            CryptoError::KeyDerivation => String::from_str("argon2 derivation failed"),
            CryptoError::InvalidKemPrivateSeed => String::from_str("invalid ML-KEM private seed"),
            CryptoError::InvalidKemPublicKey => String::from_str("invalid ML-KEM public key"),
            CryptoError::InvalidDsaPrivateSeed => String::from_str("invalid ML-DSA private seed"),
            CryptoError::InvalidDsaPublicKey => String::from_str("invalid ML-DSA public key"),
        }
    }
}

} // verus!
