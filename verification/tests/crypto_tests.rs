use base64::Engine;
use pqvault::crypto::{
    decrypt_key_bundle, decrypt_vault, encrypt_key_bundle, encrypt_vault, open_vault, seal_key_bundle, seal_vault, CryptoError,
    UserKeys, KDF_CONTEXT_KEY_BUNDLE, KDF_CONTEXT_VAULT, VAULT_VERSION,
};
use pqvault::models::{KeyBundle, VaultEnvelope};

fn clone_bundle(b: &KeyBundle) -> KeyBundle {
    KeyBundle {
        username: b.username.clone(),
        kem_private_seed_b64: b.kem_private_seed_b64.clone(),
        kem_public_b64: b.kem_public_b64.clone(),
        dsa_private_seed_b64: b.dsa_private_seed_b64.clone(),
        dsa_public_b64: b.dsa_public_b64.clone(),
    }
}

fn clone_env(e: &VaultEnvelope) -> VaultEnvelope {
    VaultEnvelope {
        username: e.username.clone(),
        version: e.version,
        kem_ciphertext_b64: e.kem_ciphertext_b64.clone(),
        wrapped_key_b64: e.wrapped_key_b64.clone(),
        nonce_b64: e.nonce_b64.clone(),
        ciphertext_b64: e.ciphertext_b64.clone(),
        signature_b64: e.signature_b64.clone(),
    }
}

fn b64(bytes: &[u8]) -> String {
    base64::engine::general_purpose::STANDARD.encode(bytes)
}

fn unb64(text: &str) -> Vec<u8> {
    base64::engine::general_purpose::STANDARD.decode(text).unwrap()
}

#[test]
fn contexts_are_the_documented_strings() {
    assert_eq!(KDF_CONTEXT_KEY_BUNDLE, "pqvault-keybundle-v1");
    assert_eq!(KDF_CONTEXT_VAULT, "pqvault-vault-v1");
    assert_eq!(VAULT_VERSION, 1);
}

#[test]
fn bundle_round_trip_gives_the_keys_back() {
    let keys = UserKeys::generate();
    let bundle = keys.to_bundle("alice");
    assert_eq!(bundle.username, "alice");
    assert_eq!(unb64(&bundle.kem_private_seed_b64).len(), 64);
    assert_eq!(unb64(&bundle.kem_public_b64).len(), 1184);
    assert_eq!(unb64(&bundle.dsa_private_seed_b64).len(), 32);
    assert_eq!(unb64(&bundle.dsa_public_b64).len(), 1952);
    let again = UserKeys::from_bundle(&bundle).unwrap();
    let bundle2 = again.to_bundle("alice");
    assert_eq!(bundle.kem_private_seed_b64, bundle2.kem_private_seed_b64);
    assert_eq!(bundle.kem_public_b64, bundle2.kem_public_b64);
    assert_eq!(bundle.dsa_private_seed_b64, bundle2.dsa_private_seed_b64);
    assert_eq!(bundle.dsa_public_b64, bundle2.dsa_public_b64);
}

#[test]
fn from_bundle_reports_bad_base64() {
    let keys = UserKeys::generate();
    let mut bundle = keys.to_bundle("a");
    bundle.dsa_public_b64 = "not base64!".to_string();
    assert_eq!(UserKeys::from_bundle(&bundle).err(), Some(CryptoError::Base64));
}

#[test]
fn from_bundle_reports_each_refused_key() {
    let keys = UserKeys::generate();
    let good = keys.to_bundle("a");

    let mut b = clone_bundle(&good);
    b.kem_private_seed_b64 = b64(&[1u8; 63]);
    assert_eq!(UserKeys::from_bundle(&b).err(), Some(CryptoError::InvalidKemPrivateSeed));

    let mut b = clone_bundle(&good);
    b.kem_public_b64 = b64(&[1u8; 100]);
    assert_eq!(UserKeys::from_bundle(&b).err(), Some(CryptoError::InvalidKemPublicKey));

    let mut b = clone_bundle(&good);
    b.dsa_private_seed_b64 = b64(&[1u8; 31]);
    assert_eq!(UserKeys::from_bundle(&b).err(), Some(CryptoError::InvalidDsaPrivateSeed));

    let mut b = clone_bundle(&good);
    b.dsa_public_b64 = b64(&[1u8; 1951]);
    assert_eq!(UserKeys::from_bundle(&b).err(), Some(CryptoError::InvalidDsaPublicKey));
}

#[test]
fn key_bundle_round_trip_with_the_passphrase() {
    let plain = b"{\"username\":\"alice\"}".to_vec();
    let sealed = encrypt_key_bundle(&plain, "correct horse").unwrap();
    assert_eq!(sealed.salt.len(), 16);
    assert_eq!(sealed.nonce.len(), 24);
    assert_eq!(sealed.ciphertext.len(), plain.len() + 16);
    assert_ne!(&sealed.ciphertext[..plain.len()], &plain[..]);
    let opened = decrypt_key_bundle(&sealed.salt, &sealed.nonce, &sealed.ciphertext, "correct horse").unwrap();
    assert_eq!(opened, plain);
}

#[test]
fn key_bundle_refuses_a_wrong_passphrase() {
    let plain = b"secret".to_vec();
    let sealed = encrypt_key_bundle(&plain, "right").unwrap();
    let r = decrypt_key_bundle(&sealed.salt, &sealed.nonce, &sealed.ciphertext, "wrong");
    assert_eq!(r, Err(CryptoError::DecryptionFailed));
}

#[test]
fn key_bundle_refuses_a_short_salt() {
    let r = decrypt_key_bundle(&[0u8; 7], &[0u8; 24], &[0u8; 40], "pw");
    assert_eq!(r, Err(CryptoError::KeyDerivation));
    let r = decrypt_key_bundle(&[0u8; 7], &[0u8; 3], &[0u8; 40], "pw");
    assert_eq!(r, Err(CryptoError::KeyDerivation));
}

#[test]
fn vault_round_trip_gives_the_plaintext_back() {
    let keys = UserKeys::generate();
    let plain = b"{\"entries\":[]}".to_vec();
    let env = encrypt_vault(&plain, &keys, "alice").unwrap();
    assert_eq!(env.username, "alice");
    assert_eq!(env.version, 1);
    assert_eq!(unb64(&env.kem_ciphertext_b64).len(), 1088);
    assert_eq!(unb64(&env.wrapped_key_b64).len(), 24 + 32 + 16);
    assert_eq!(unb64(&env.nonce_b64).len(), 24);
    assert_eq!(unb64(&env.ciphertext_b64).len(), plain.len() + 16);
    assert_eq!(unb64(&env.signature_b64).len(), 3309);
    assert_eq!(decrypt_vault(&env, &keys).unwrap(), plain);
    assert_eq!(open_vault(&env, &keys), Some(Ok(plain)));
}

#[test]
fn vault_refuses_another_version() {
    let keys = UserKeys::generate();
    let mut env = encrypt_vault(b"x", &keys, "a").unwrap();
    env.version = 2;
    assert_eq!(decrypt_vault(&env, &keys), Err(CryptoError::UnsupportedVersion));
}

#[test]
fn vault_refuses_bad_base64() {
    let keys = UserKeys::generate();
    let mut env = encrypt_vault(b"x", &keys, "a").unwrap();
    env.ciphertext_b64 = "%%%".to_string();
    assert_eq!(decrypt_vault(&env, &keys), Err(CryptoError::Base64));
}

#[test]
fn vault_refuses_bad_signature_bytes() {
    let keys = UserKeys::generate();
    let mut env = encrypt_vault(b"x", &keys, "a").unwrap();
    env.signature_b64 = b64(&[0u8; 10]);
    assert_eq!(decrypt_vault(&env, &keys), Err(CryptoError::InvalidSignatureBytes));
}

#[test]
fn vault_refuses_a_wrapped_key_without_nonce() {
    let keys = UserKeys::generate();
    let mut env = encrypt_vault(b"x", &keys, "a").unwrap();
    env.wrapped_key_b64 = b64(&[7u8; 23]);
    assert_eq!(decrypt_vault(&env, &keys), Err(CryptoError::MissingWrapNonce));
}

#[test]
fn vault_refuses_tampering() {
    let keys = UserKeys::generate();
    let env = encrypt_vault(b"some entries", &keys, "alice").unwrap();
    let mut ct = unb64(&env.ciphertext_b64);
    ct[0] ^= 1;
    let mut bad = clone_env(&env);
    bad.ciphertext_b64 = b64(&ct);
    assert_eq!(decrypt_vault(&bad, &keys), Err(CryptoError::SignatureRejected));
    let mut renamed = clone_env(&env);
    renamed.username = "mallory".to_string();
    assert_eq!(decrypt_vault(&renamed, &keys), Err(CryptoError::SignatureRejected));
}

#[test]
fn vault_refuses_other_keys() {
    let keys = UserKeys::generate();
    let other = UserKeys::generate();
    let env = encrypt_vault(b"x", &keys, "a").unwrap();
    assert_eq!(decrypt_vault(&env, &other), Err(CryptoError::SignatureRejected));
}

#[test]
fn sealing_is_deterministic_in_its_inputs() {
    let keys = UserKeys::generate();
    let a = seal_vault(b"v", &keys, "u", &[1u8; 32], &[2u8; 24], &[3u8; 1088], &[4u8; 32], &[5u8; 24]).unwrap();
    let b = seal_vault(b"v", &keys, "u", &[1u8; 32], &[2u8; 24], &[3u8; 1088], &[4u8; 32], &[5u8; 24]).unwrap();
    assert_eq!(a.ciphertext_b64, b.ciphertext_b64);
    assert_eq!(a.wrapped_key_b64, b.wrapped_key_b64);
    assert_eq!(a.signature_b64, b.signature_b64);
    assert_eq!(a.nonce_b64, b64(&[2u8; 24]));
    assert_eq!(a.kem_ciphertext_b64, b64(&[3u8; 1088]));
    assert_eq!(&unb64(&a.wrapped_key_b64)[..24], &[5u8; 24][..]);
}

#[test]
fn sealing_refuses_a_short_data_key() {
    let keys = UserKeys::generate();
    let r = seal_vault(b"v", &keys, "u", &[1u8; 16], &[2u8; 24], &[3u8; 1088], &[4u8; 32], &[5u8; 24]);
    assert_eq!(r.err(), Some(CryptoError::BadKey));
}

#[test]
fn opening_refuses_a_short_kem_ciphertext() {
    let keys = UserKeys::generate();
    let env = seal_vault(b"v", &keys, "u", &[1u8; 32], &[2u8; 24], &[3u8; 10], &[4u8; 32], &[5u8; 24]).unwrap();
    assert_eq!(decrypt_vault(&env, &keys), Err(CryptoError::InvalidKemCiphertext));
}

#[test]
fn opening_refuses_a_foreign_shared_key() {
    let keys = UserKeys::generate();
    let env = seal_vault(b"v", &keys, "u", &[1u8; 32], &[2u8; 24], &[3u8; 1088], &[4u8; 32], &[5u8; 24]).unwrap();
    assert_eq!(decrypt_vault(&env, &keys), Err(CryptoError::DecryptionFailed));
}

#[test]
fn open_vault_checks_the_signature_before_the_nonce() {
    let keys = UserKeys::generate();
    let mut env = encrypt_vault(b"x", &keys, "a").unwrap();
    env.nonce_b64 = b64(&[0u8; 12]);
    assert_eq!(open_vault(&env, &keys), Some(Err(CryptoError::SignatureRejected)));
}

#[test]
fn open_vault_reports_the_version_before_the_nonce() {
    let keys = UserKeys::generate();
    let mut env = encrypt_vault(b"x", &keys, "a").unwrap();
    env.version = 2;
    env.nonce_b64 = b64(&[0u8; 12]);
    assert_eq!(open_vault(&env, &keys), Some(Err(CryptoError::UnsupportedVersion)));
}

#[test]
fn envelope_fields_decode_to_the_sealed_lengths() {
    let keys = UserKeys::generate();
    let plain = b"{\"entries\":[]}";
    let env = encrypt_vault(plain, &keys, "alice").unwrap();
    assert_eq!(env.username, "alice");
    assert_eq!(env.version, VAULT_VERSION);
    assert_eq!(unb64(&env.nonce_b64).len(), 24);
    assert_eq!(unb64(&env.wrapped_key_b64).len(), 72);
    assert_eq!(unb64(&env.kem_ciphertext_b64).len(), 1088);
    assert_eq!(unb64(&env.ciphertext_b64).len(), plain.len() + 16);
    assert_eq!(unb64(&env.signature_b64).len(), 3309);
}

#[test]
fn sealing_a_key_bundle_is_determined_by_salt_and_nonce() {
    let a = seal_key_bundle(b"bundle", "pass", &[7u8; 16], &[9u8; 24]).unwrap();
    let b = seal_key_bundle(b"bundle", "pass", &[7u8; 16], &[9u8; 24]).unwrap();
    assert_eq!(a.salt, vec![7u8; 16]);
    assert_eq!(a.nonce, vec![9u8; 24]);
    assert_eq!(a.ciphertext, b.ciphertext);
    assert_eq!(a.ciphertext.len(), b"bundle".len() + 16);
    assert_eq!(decrypt_key_bundle(&a.salt, &a.nonce, &a.ciphertext, "pass"), Ok(b"bundle".to_vec()));
    let c = seal_key_bundle(b"bundle", "other", &[7u8; 16], &[9u8; 24]).unwrap();
    assert_ne!(a.ciphertext, c.ciphertext);
}

#[test]
fn sealing_a_key_bundle_refuses_a_short_salt() {
    let r = seal_key_bundle(b"bundle", "pass", &[7u8; 4], &[9u8; 24]);
    assert_eq!(r.err(), Some(CryptoError::KeyDerivation));
}
