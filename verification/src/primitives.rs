//! The calls this library makes into outside crates (RustCrypto's ML-KEM,
//! ML-DSA, XChaCha20-Poly1305, Argon2 and HKDF, plus base64, rand, zeroize and
//! dirs). Every item here is trusted: Verus believes its contract without
//! reading its body, and each doc comment says what is claimed.
use base64::engine::general_purpose::STANDARD;
use base64::Engine;
use chacha20poly1305::aead::Aead;
use chacha20poly1305::KeyInit as AeadKeyInit;
use ml_dsa::{Generate, KeyExport as DsaKeyExport, Keypair, SignatureEncoding, Signer, Verifier};
use ml_kem::{Decapsulate, Kem, KeyExport, KeyInit, TryKeyInit};
use rand::RngCore;
use vstd::prelude::*;

verus! {

/// Why a call into XChaCha20-Poly1305 gave no result.
#[derive(Debug, Clone, Copy, PartialEq, Eq)]
pub enum AeadFailure {
    /// `KeyInit::new_from_slice` refused the key (it is not 32 bytes long).
    BadKey,
    /// `Aead::encrypt` or `Aead::decrypt` returned `aead::Error`.
    Rejected,
}

/// The outcome of an XChaCha20-Poly1305 call: the output bytes, or why there are none.
pub type AeadOutcome = Result<Vec<u8>, AeadFailure>;

/// Whether XChaCha20-Poly1305 encrypts a message of this many bytes: the
/// crate refuses messages of `u32::MAX` or more 64-byte blocks.
pub open spec fn aead_message_fits(len: nat) -> bool {
    len / 64 < 0xffff_ffff
}

/// What `STANDARD.encode` (base64, standard alphabet, padded) returns for these bytes.
pub uninterp spec fn base64_encoding(bytes: Seq<u8>) -> Seq<char>;

/// What `STANDARD.decode` returns for this text: `None` where it reports a `DecodeError`.
pub uninterp spec fn base64_decoding(text: Seq<char>) -> Option<Seq<u8>>;

/// The ciphertext (with its 16-byte tag) that XChaCha20-Poly1305 `encrypt`
/// produces under this key and nonce, with no associated data.
pub uninterp spec fn xchacha_seal(key: Seq<u8>, nonce: Seq<u8>, plain: Seq<u8>) -> Seq<u8>;

/// What XChaCha20-Poly1305 `decrypt` returns under this key and nonce, with no
/// associated data: `None` where it reports `aead::Error`.
pub uninterp spec fn xchacha_open(key: Seq<u8>, nonce: Seq<u8>, cipher: Seq<u8>) -> Option<Seq<u8>>;

/// The 32 bytes that `Argon2::default().hash_password_into` writes for this password and salt.
pub uninterp spec fn argon2_default_key(password: Seq<u8>, salt: Seq<u8>) -> Seq<u8>;

/// The 32 bytes that `Hkdf::<Sha256>::new(Some(salt), ikm).expand(info, ..)` writes.
pub uninterp spec fn hkdf_sha256_okm(salt: Seq<u8>, ikm: Seq<u8>, info: Seq<u8>) -> Seq<u8>;

/// The encoded ML-KEM-768 encapsulation key that belongs to the decapsulation
/// key made from this 64-byte seed (`encapsulation_key().to_bytes()`).
pub uninterp spec fn ml_kem_ek_of(seed: Seq<u8>) -> Seq<u8>;

/// Whether `EncapsulationKey::<MlKem768>::new_from_slice` accepts these bytes.
pub uninterp spec fn ml_kem_ek_accepts(bytes: Seq<u8>) -> bool;

/// The ciphertext of ML-KEM-768 `encapsulate_deterministic` for this encoded
/// encapsulation key and 32-byte randomness.
pub uninterp spec fn ml_kem_encaps_ct(ek: Seq<u8>, m: Seq<u8>) -> Seq<u8>;

/// The shared key of ML-KEM-768 `encapsulate_deterministic` for this encoded
/// encapsulation key and 32-byte randomness.
pub uninterp spec fn ml_kem_encaps_key(ek: Seq<u8>, m: Seq<u8>) -> Seq<u8>;

/// The shared key that the ML-KEM-768 decapsulation key made from this seed
/// recovers from this ciphertext (`Decapsulate::decapsulate`).
pub uninterp spec fn ml_kem_decapsulate(seed: Seq<u8>, ciphertext: Seq<u8>) -> Seq<u8>;

/// The encoded ML-DSA-65 verifying key of the signing key made from this 32-byte seed.
pub uninterp spec fn ml_dsa_vk_of(seed: Seq<u8>) -> Seq<u8>;

/// The encoded signature that the ML-DSA-65 signing key made from this seed
/// produces for this message (`Signer::sign`, the deterministic variant).
pub uninterp spec fn ml_dsa_sign(seed: Seq<u8>, message: Seq<u8>) -> Seq<u8>;

/// Whether `Signature::<MlDsa65>::try_from` accepts these bytes.
pub uninterp spec fn ml_dsa_signature_decodes(bytes: Seq<u8>) -> bool;

/// Whether `Verifier::verify` of this encoded verifying key accepts this
/// encoded signature of this message.
pub uninterp spec fn ml_dsa_verifies(vk: Seq<u8>, message: Seq<u8>, signature: Seq<u8>) -> bool;

/// The text of `Path::new(base).join(part)`, displayed, with the path rules of
/// the platform the library is built for.
pub uninterp spec fn joined_path(base: Seq<char>, part: Seq<char>) -> Seq<char>;

/// Calls `STANDARD.encode` of base64. Claims: the text is the encoding of the
/// bytes, and `STANDARD.decode` gives the bytes back (the crate's round trip).
/// The length bound keeps `encode` clear of its overflow panic.
#[verifier::external_body]
pub(crate) fn b64_encode(bytes: &[u8]) -> (text: String)
    requires
        bytes.len() <= usize::MAX / 2,
    ensures
        text@ == base64_encoding(bytes@),
        base64_decoding(text@) == Some(bytes@),
{
    STANDARD.encode(bytes)
}

/// Calls `STANDARD.decode` of base64. Claims: the result is the named decoding
/// of the text, `None` exactly where the crate reports a `DecodeError`.
#[verifier::external_body]
pub(crate) fn b64_decode(text: &str) -> (bytes: Option<Vec<u8>>)
    ensures
        match bytes {
            Some(b) => base64_decoding(text@) == Some(b@),
            None => base64_decoding(text@) is None,
        },
{
    STANDARD.decode(text).ok()
}

/// Calls `XChaCha20Poly1305::new_from_slice` and then `Aead::encrypt` with an
/// empty associated data. Claims, from the crates' source: the key is refused
/// exactly when it is not 32 bytes; encryption fails exactly when the message
/// holds `u32::MAX` or more 64-byte blocks; otherwise the ciphertext is the
/// named one, 16 bytes (the tag) longer than the message, and `decrypt` under
/// the same key and nonce gives the message back.
/// A nonce of another length than 24 makes `XNonce::from_slice` panic, hence
/// the `requires`.
#[verifier::external_body]
pub(crate) fn xchacha_encrypt(key: &[u8], nonce: &[u8], plain: &[u8]) -> (r: AeadOutcome)
    requires
        nonce.len() == 24,
    ensures
        key.len() != 32 ==> r == AeadOutcome::Err(AeadFailure::BadKey),
        key.len() == 32 && !aead_message_fits(plain.len() as nat) ==> r == AeadOutcome::Err(AeadFailure::Rejected),
        key.len() == 32 && aead_message_fits(plain.len() as nat) ==> r is Ok,
        r matches Ok(c) ==> c@ == xchacha_seal(key@, nonce@, plain@) && xchacha_open(key@, nonce@, c@) == Some(plain@)
            && c.len() == plain.len() + 16,
{
    let cipher = match chacha20poly1305::XChaCha20Poly1305::new_from_slice(key) {
        Ok(c) => c,
        Err(_) => return Err(AeadFailure::BadKey),
    };
    cipher.encrypt(chacha20poly1305::XNonce::from_slice(nonce), plain).map_err(|_| AeadFailure::Rejected)
}

/// Calls `XChaCha20Poly1305::new_from_slice` and then `Aead::decrypt` with an
/// empty associated data. Claims: the key is refused exactly when it is not 32
/// bytes; otherwise the result is the named opening, `Rejected` where the crate
/// reports `aead::Error`. A nonce of another length than 24 makes
/// `XNonce::from_slice` panic, hence the `requires`.
#[verifier::external_body]
pub(crate) fn xchacha_decrypt(key: &[u8], nonce: &[u8], cipher_text: &[u8]) -> (r: AeadOutcome)
    requires
        nonce.len() == 24,
    ensures
        key.len() != 32 ==> r == AeadOutcome::Err(AeadFailure::BadKey),
        r matches Ok(p) ==> xchacha_open(key@, nonce@, cipher_text@) == Some(p@),
        key.len() == 32 ==> (r is Err) == (xchacha_open(key@, nonce@, cipher_text@) is None),
        key.len() == 32 && r is Err ==> r == AeadOutcome::Err(AeadFailure::Rejected),
{
    let cipher = match chacha20poly1305::XChaCha20Poly1305::new_from_slice(key) {
        Ok(c) => c,
        Err(_) => return Err(AeadFailure::BadKey),
    };
    cipher.decrypt(chacha20poly1305::XNonce::from_slice(nonce), cipher_text).map_err(|_| AeadFailure::Rejected)
}

/// Calls `Argon2::hash_password_into_with_memory` of `Argon2::default()` with
/// a 32-byte output and memory blocks allocated here (`Params::block_count`
/// of them). Claims, from the crate's source: it fails exactly when the
/// password or salt is longer than `0xFFFF_FFFF` bytes or the salt is shorter
/// than 8 bytes, and otherwise writes the named key. The blocks are allocated
/// as a `Vec`, like every other buffer of this library, so the crate's own
/// `OutOfMemory` path (which only `hash_password_into` has) is not taken.
#[verifier::external_body]
pub(crate) fn argon2_hash(password: &[u8], salt: &[u8]) -> (r: Option<Vec<u8>>)
    ensures
        r is None <==> (password.len() > 0xffff_ffff || salt.len() < 8 || salt.len() > 0xffff_ffff),
        r matches Some(k) ==> k@ == argon2_default_key(password@, salt@) && k.len() == 32,
{
    let argon = argon2::Argon2::default();
    let mut blocks = vec![argon2::Block::new(); argon.params().block_count()];
    let mut out = vec![0u8; 32];
    match argon.hash_password_into_with_memory(password, salt, &mut out, &mut blocks[..]) {
        Ok(()) => Some(out),
        Err(_) => None,
    }
}

/// Calls `Hkdf::<Sha256>::new` and `expand` into 32 bytes. Claims: the output
/// is the named one; `expand` succeeds, as the crate only refuses outputs longer
/// than 255 hash lengths.
#[verifier::external_body]
pub(crate) fn hkdf_sha256_expand(salt: &[u8], ikm: &[u8], info: &[u8]) -> (r: Option<Vec<u8>>)
    ensures
        r is Some,
        r matches Some(k) ==> k@ == hkdf_sha256_okm(salt@, ikm@, info@) && k.len() == 32,
{
    let hk = hkdf::Hkdf::<sha2::Sha256>::new(Some(salt), ikm);
    let mut okm = vec![0u8; 32];
    match hk.expand(info, &mut okm) {
        Ok(()) => Some(okm),
        Err(_) => None,
    }
}

/// Calls `MlKem768::generate_keypair` (system randomness) and exports both keys.
/// Claims: the decapsulation key is exported as its 64-byte seed, the
/// encapsulation key is the one of that seed (the crate derives it from the
/// decapsulation key), is 1184 bytes long and is accepted back by `new_from_slice`.
#[verifier::external_body]
pub(crate) fn kem_generate() -> (pair: (Vec<u8>, Vec<u8>))
    ensures
        pair.0.len() == 64,
        pair.1@ == ml_kem_ek_of(pair.0@),
        pair.1.len() == 1184,
        ml_kem_ek_accepts(pair.1@),
{
    let (dk, ek) = ml_kem::MlKem768::generate_keypair();
    (dk.to_bytes().to_vec(), ek.to_bytes().to_vec())
}

/// Calls `KeyInit::new_from_slice` of the ML-KEM-768 decapsulation key. Claims:
/// it succeeds exactly on 64 bytes (a seed).
#[verifier::external_body]
pub(crate) fn kem_private_accepts(seed: &[u8]) -> (ok: bool)
    ensures
        ok == (seed.len() == 64),
{
    <ml_kem::ml_kem_768::DecapsulationKey as ml_kem::KeyInit>::new_from_slice(seed).is_ok()
}

/// Calls `TryKeyInit::new_from_slice` of the ML-KEM-768 encapsulation key.
/// Claims: the answer is the named one, and only 1184-byte slices are accepted.
#[verifier::external_body]
pub(crate) fn kem_public_accepts(bytes: &[u8]) -> (ok: bool)
    ensures
        ok == ml_kem_ek_accepts(bytes@),
        ok ==> bytes.len() == 1184,
{
    <ml_kem::ml_kem_768::EncapsulationKey as ml_kem::TryKeyInit>::new_from_slice(bytes).is_ok()
}

/// Calls `Ciphertext::<MlKem768>::try_from`. Claims: it succeeds exactly on 1088 bytes.
#[verifier::external_body]
pub(crate) fn kem_ciphertext_accepts(bytes: &[u8]) -> (ok: bool)
    ensures
        ok == (bytes.len() == 1088),
{
    ml_kem::ml_kem_768::Ciphertext::try_from(bytes).is_ok()
}

/// Calls `EncapsulationKey::<MlKem768>::encapsulate_deterministic` with the
/// 32 random bytes `m` (what `Encapsulate::encapsulate` does after drawing `m`
/// from the system's generator). Claims: the ciphertext and the shared key are
/// the named ones for this key and `m`, 1088 and 32 bytes long.
#[verifier::external_body]
pub(crate) fn kem_encapsulate_with(ek: &[u8], m: &[u8]) -> (r: (Vec<u8>, Vec<u8>))
    requires
        ml_kem_ek_accepts(ek@),
        m.len() == 32,
    ensures
        r.0@ == ml_kem_encaps_ct(ek@, m@),
        r.1@ == ml_kem_encaps_key(ek@, m@),
        r.0.len() == 1088,
        r.1.len() == 32,
{
    let ek = ml_kem::ml_kem_768::EncapsulationKey::new_from_slice(ek).unwrap();
    let m = ml_kem::B32::try_from(m).unwrap();
    let (ct, shared) = ek.encapsulate_deterministic(&m);
    (ct.to_vec(), shared.to_vec())
}

/// Calls `Decapsulate::decapsulate` of the decapsulation key made from this
/// seed. Claims: the shared key is the named one and is 32 bytes long.
#[verifier::external_body]
pub(crate) fn kem_decapsulate(seed: &[u8], ciphertext: &[u8]) -> (shared: Vec<u8>)
    requires
        seed.len() == 64,
        ciphertext.len() == 1088,
    ensures
        shared@ == ml_kem_decapsulate(seed@, ciphertext@),
        shared.len() == 32,
{
    let dk = ml_kem::ml_kem_768::DecapsulationKey::new_from_slice(seed).unwrap();
    let ct = ml_kem::ml_kem_768::Ciphertext::try_from(ciphertext).unwrap();
    dk.decapsulate(&ct).to_vec()
}

/// Calls `Generate::generate` of the ML-DSA-65 signing key (system randomness)
/// and exports it with its verifying key. Claims: the seed is 32 bytes, the
/// verifying key is the one of that seed and is 1952 bytes long.
#[verifier::external_body]
pub(crate) fn dsa_generate() -> (pair: (Vec<u8>, Vec<u8>))
    ensures
        pair.0.len() == 32,
        pair.1@ == ml_dsa_vk_of(pair.0@),
        pair.1.len() == 1952,
{
    let sk = ml_dsa::SigningKey::<ml_dsa::MlDsa65>::generate();
    let vk = sk.verifying_key();
    (sk.to_bytes().to_vec(), vk.to_bytes().to_vec())
}

/// Calls `KeyInit::new_from_slice` of the ML-DSA-65 signing key. Claims: it
/// succeeds exactly on 32 bytes (a seed).
#[verifier::external_body]
pub(crate) fn dsa_signing_accepts(seed: &[u8]) -> (ok: bool)
    ensures
        ok == (seed.len() == 32),
{
    <ml_dsa::SigningKey<ml_dsa::MlDsa65> as ml_dsa::KeyInit>::new_from_slice(seed).is_ok()
}

/// Calls `KeyInit::new_from_slice` of the ML-DSA-65 verifying key. Claims: it
/// succeeds exactly on 1952 bytes.
#[verifier::external_body]
pub(crate) fn dsa_verifying_accepts(vk: &[u8]) -> (ok: bool)
    ensures
        ok == (vk.len() == 1952),
{
    <ml_dsa::VerifyingKey<ml_dsa::MlDsa65> as ml_dsa::KeyInit>::new_from_slice(vk).is_ok()
}

/// Calls `Signer::sign` of the ML-DSA-65 signing key made from this seed and
/// encodes the signature. Claims: the signature is the named one (the crate
/// signs deterministically), it decodes again, and the verifying key of the
/// same seed accepts it for this message (ML-DSA's correctness, tested by the
/// crate's sign/verify round trip); an encoded ML-DSA-65 signature is 3309 bytes.
#[verifier::external_body]
pub(crate) fn dsa_sign(seed: &[u8], message: &[u8]) -> (sig: Vec<u8>)
    requires
        seed.len() == 32,
    ensures
        sig@ == ml_dsa_sign(seed@, message@),
        ml_dsa_signature_decodes(sig@),
        ml_dsa_verifies(ml_dsa_vk_of(seed@), message@, sig@),
        sig.len() == 3309,
{
    let sk = ml_dsa::SigningKey::<ml_dsa::MlDsa65>::new_from_slice(seed).unwrap();
    sk.sign(message).to_bytes().to_vec()
}

/// Calls `Signature::<MlDsa65>::try_from`. Claims: the answer is the named one.
#[verifier::external_body]
pub(crate) fn dsa_signature_accepts(bytes: &[u8]) -> (ok: bool)
    ensures
        ok == ml_dsa_signature_decodes(bytes@),
{
    ml_dsa::Signature::<ml_dsa::MlDsa65>::try_from(bytes).is_ok()
}

/// Calls `Verifier::verify` of the ML-DSA-65 verifying key in `vk` on the
/// signature decoded from `sig`. Claims: the answer is the named one.
#[verifier::external_body]
pub(crate) fn dsa_verify(vk: &[u8], message: &[u8], sig: &[u8]) -> (ok: bool)
    requires
        vk.len() == 1952,
        ml_dsa_signature_decodes(sig@),
    ensures
        ok == ml_dsa_verifies(vk@, message@, sig@),
{
    let vk = ml_dsa::VerifyingKey::<ml_dsa::MlDsa65>::new_from_slice(vk).unwrap();
    let sig = ml_dsa::Signature::<ml_dsa::MlDsa65>::try_from(sig).unwrap();
    vk.verify(message, &sig).is_ok()
}

/// Calls `OsRng.fill_bytes` of rand. Claims only the length: the bytes are random.
#[verifier::external_body]
pub(crate) fn os_random_bytes(len: usize) -> (bytes: Vec<u8>)
    ensures
        bytes.len() == len,
{
    let mut bytes = vec![0u8; len];
    rand::rngs::OsRng.fill_bytes(&mut bytes);
    bytes
}

/// Calls `OsRng.next_u32` of rand. Nothing is claimed of the number.
#[verifier::external_body]
pub(crate) fn os_random_u32() -> u32 {
    rand::rngs::OsRng.next_u32()
}

/// Calls `Zeroize::zeroize` on a byte vector. Claims: the vector is left
/// empty (the crate overwrites the bytes and then clears the vector).
#[verifier::external_body]
pub(crate) fn wipe(bytes: &mut Vec<u8>)
    ensures
        final(bytes)@.len() == 0,
{
    zeroize::Zeroize::zeroize(bytes)
}

/// Calls `dirs::config_dir` and displays the path. Nothing is claimed: the
/// answer depends on the environment.
#[verifier::external_body]
pub(crate) fn config_dir() -> Option<String> {
    dirs::config_dir().map(|p| p.display().to_string())
}

/// Calls `Path::join` and displays the result. Claims: the text is the named join.
#[verifier::external_body]
pub(crate) fn join_path(base: &str, part: &str) -> (joined: String)
    ensures
        joined@ == joined_path(base@, part@),
{
    std::path::Path::new(base).join(part).display().to_string()
}

} // verus!
