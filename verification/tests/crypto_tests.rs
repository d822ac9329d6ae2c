use dstack::crypto::{dh_symmetry, seal, seal_unseal_round_trip, session_nonce, unseal, Crypto};
use dstack::errors::NodeError;

use aes_gcm::aead::Aead;
use aes_gcm::KeyInit;

#[test]
fn keypair_public_half_matches_secret_half() {
    let crypto = Crypto::new();
    let (pubkey, secret) = crypto.get_keypair();
    let expected = x25519_dalek::PublicKey::from(&x25519_dalek::StaticSecret::from(secret));
    assert_eq!(pubkey, expected.to_bytes());
}

#[test]
fn dh_symmetry_holds_for_fresh_keypairs() {
    let crypto = Crypto::new();
    let (_, a) = crypto.get_keypair();
    let (_, b) = crypto.get_keypair();
    let (shared_ab, shared_ba) = dh_symmetry(&a, &b);
    assert_eq!(shared_ab, shared_ba);

    // and it is the x25519 shared secret
    let expected = x25519_dalek::StaticSecret::from(a)
        .diffie_hellman(&x25519_dalek::PublicKey::from(&x25519_dalek::StaticSecret::from(b)));
    assert_eq!(shared_ab, expected.to_bytes());
}

#[test]
fn seal_matches_aes256_gcm() {
    let crypto = Crypto::new();
    let (_, a) = crypto.get_keypair();
    let (pub_b, _) = crypto.get_keypair();
    let secret = [42u8; 32];
    let nonce = session_nonce();

    let sealed = seal(&nonce, &secret, &a, &pub_b).unwrap();

    let shared = x25519_dalek::StaticSecret::from(a)
        .diffie_hellman(&x25519_dalek::PublicKey::from(pub_b));
    let cipher = aes_gcm::Aes256Gcm::new(aes_gcm::Key::<aes_gcm::Aes256Gcm>::from_slice(
        shared.as_bytes(),
    ));
    let expected = cipher
        .encrypt(aes_gcm::Nonce::from_slice(&nonce), &secret[..])
        .unwrap();
    assert_eq!(sealed, expected);
    assert_eq!(sealed.len(), 48);
}

#[test]
fn seal_unseal_recovers_the_secret() {
    let crypto = Crypto::new();
    let (_, a) = crypto.get_keypair();
    let (_, b) = crypto.get_keypair();
    let secret = [7u8; 32];
    let nonce = session_nonce();

    let (sealed, recovered) = seal_unseal_round_trip(&nonce, &secret, &a, &b);
    assert_eq!(recovered, secret);
    assert_eq!(sealed.len(), 48);

    // the same round trip, spelled out
    let pub_a = x25519_dalek::PublicKey::from(&x25519_dalek::StaticSecret::from(a)).to_bytes();
    let pub_b = x25519_dalek::PublicKey::from(&x25519_dalek::StaticSecret::from(b)).to_bytes();
    let sealed = seal(&nonce, &secret, &a, &pub_b).unwrap();
    let recovered = unseal(&nonce, &sealed, &pub_a, &b).unwrap();
    assert_eq!(recovered, secret);
}

#[test]
fn flipping_any_bit_of_a_sealed_message_fails_unseal() {
    let crypto = Crypto::new();
    let (pub_a, a) = crypto.get_keypair();
    let (_, b) = crypto.get_keypair();
    let secret = [99u8; 32];
    let nonce = session_nonce();

    let pub_b = x25519_dalek::PublicKey::from(&x25519_dalek::StaticSecret::from(b)).to_bytes();
    let sealed = seal(&nonce, &secret, &a, &pub_b).unwrap();

    for byte in 0..sealed.len() {
        for bit in 0..8 {
            let mut tampered = sealed.clone();
            tampered[byte] ^= 1u8 << bit;
            assert_eq!(
                unseal(&nonce, &tampered, &pub_a, &b),
                Err(NodeError::UnsealFailed)
            );
        }
    }
}

#[test]
fn unseal_with_the_wrong_key_fails() {
    let crypto = Crypto::new();
    let (pub_a, a) = crypto.get_keypair();
    let (pub_b, _) = crypto.get_keypair();
    let (_, c) = crypto.get_keypair();
    let secret = [1u8; 32];
    let nonce = session_nonce();

    let sealed = seal(&nonce, &secret, &a, &pub_b).unwrap();
    // c is not b: the Diffie-Hellman key differs and the tag cannot match
    assert_eq!(
        unseal(&nonce, &sealed, &pub_a, &c),
        Err(NodeError::UnsealFailed)
    );
}

#[test]
fn encrypt_decrypt_secret_use_the_first_listed_keypair() {
    let crypto = Crypto::new();
    let (group_pub, group_secret) = crypto.get_keypair();
    let (node_pub, node_secret) = crypto.get_keypair();
    let nonce = session_nonce();

    // an admitted node seals the group secret to the candidate's key
    let sealed = crypto
        .encrypt_secret(&nonce, &group_secret, &vec![node_pub])
        .unwrap();
    // the candidate unseals against the group public key
    let recovered = crypto
        .decrypt_secret(&nonce, &sealed, &vec![group_pub], &vec![node_secret])
        .unwrap();
    assert_eq!(recovered, group_secret);
}

#[test]
fn session_nonce_is_twelve_zero_bytes() {
    assert_eq!(session_nonce(), [0u8; 12]);
}

#[test]
fn fresh_keypairs_differ() {
    let crypto = Crypto::new();
    let (pub_a, a) = crypto.get_keypair();
    let (pub_b, b) = crypto.get_keypair();
    assert_ne!(a, b);
    assert_ne!(pub_a, pub_b);
}
