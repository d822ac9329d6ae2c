//! Diffie-Hellman based sealing of the group secret.
//!
//! A secret is sealed to a recipient by AEAD-encrypting it under the shared
//! key of an x25519 exchange between the sender's secret key and the
//! recipient's public key. Unsealing with the matching counterpart keys
//! recovers the secret; an unseal failure is the protocol's only (and
//! sufficient) proof that a message was not produced by a holder of the
//! matching key, so no separate signature is used.

use vstd::prelude::*;
use crate::errors::NodeError;
use aes_gcm::KeyInit;
use aes_gcm::aead::Aead;

verus! {

/// The x25519 public key derived from 32 secret-key bytes.
pub uninterp spec fn pub_of(secret: Seq<u8>) -> Seq<u8>;

/// The x25519 shared secret of a secret key and a peer public key.
pub uninterp spec fn dh_of(secret: Seq<u8>, pubkey: Seq<u8>) -> Seq<u8>;

/// The AES-256-GCM ciphertext (tag appended) of a plaintext under a key and
/// nonce.
pub uninterp spec fn aead_enc(key: Seq<u8>, nonce: Seq<u8>, plaintext: Seq<u8>) -> Seq<u8>;

/// `message` is the sealing of `plaintext` by the holder of `sender_secret`
/// to the holder of the key behind `recipient_pub`.
pub open spec fn seals(
    message: Seq<u8>,
    nonce: Seq<u8>,
    sender_secret: Seq<u8>,
    recipient_pub: Seq<u8>,
    plaintext: Seq<u8>,
) -> bool {
    message == aead_enc(dh_of(sender_secret, recipient_pub), nonce, plaintext)
}

/// Relies on x25519_dalek::StaticSecret::random: a fresh secret key from the
/// operating system's secure random source. Nothing is known of its value.
#[verifier::external_body]
fn x25519_generate_secret() -> (r: [u8; 32]) {
    x25519_dalek::StaticSecret::random().to_bytes()
}

/// Relies on x25519_dalek::PublicKey::from(&StaticSecret): the public key is
/// a function of the secret-key bytes alone.
#[verifier::external_body]
fn x25519_public_key(secret: &[u8; 32]) -> (r: [u8; 32])
    ensures
        r@ == pub_of(secret@),
{
    x25519_dalek::PublicKey::from(&x25519_dalek::StaticSecret::from(*secret)).to_bytes()
}

/// Relies on x25519_dalek::StaticSecret::diffie_hellman: the shared secret is
/// a function of the two inputs alone, and the two sides of an exchange agree
/// on it (`dh(a, pub(b)) == dh(b, pub(a))`, the defining Diffie-Hellman
/// property of x25519).
#[verifier::external_body]
fn x25519_diffie_hellman(secret: &[u8; 32], peer_pub: &[u8; 32]) -> (r: [u8; 32])
    ensures
        r@ == dh_of(secret@, peer_pub@),
        forall|other: Seq<u8>|
            other.len() == 32 && peer_pub@ == pub_of(other) ==> r@ == dh_of(
                other,
                pub_of(secret@),
            ),
{
    let secret = x25519_dalek::StaticSecret::from(*secret);
    let peer = x25519_dalek::PublicKey::from(*peer_pub);
    secret.diffie_hellman(&peer).to_bytes()
}

/// Relies on aes_gcm::Aes256Gcm (Aead::encrypt): the ciphertext is a function
/// of key, nonce and plaintext; a 16-byte tag is appended; encryption fails
/// only for plaintexts beyond the GCM length bound, far above the bound
/// required here.
#[verifier::external_body]
fn aes256_gcm_encrypt(key: &[u8; 32], nonce: &[u8; 12], plaintext: &Vec<u8>) -> (r: Option<Vec<u8>>)
    requires
        plaintext@.len() <= 0xffff_ffff,
    ensures
        r is Some,
        r is Some ==> r->Some_0@ == aead_enc(key@, nonce@, plaintext@),
        r is Some ==> r->Some_0@.len() == plaintext@.len() + 16,
{
    let cipher = aes_gcm::Aes256Gcm::new(aes_gcm::Key::<aes_gcm::Aes256Gcm>::from_slice(key));
    match cipher.encrypt(aes_gcm::Nonce::from_slice(nonce), plaintext.as_slice()) {
        Ok(ct) => Some(ct),
        Err(_) => None,
    }
}

/// Relies on aes_gcm::Aes256Gcm (Aead::decrypt): decryption succeeds exactly
/// on ciphertexts carrying a valid tag for this key and nonce, and then
/// returns the plaintext whose encryption the ciphertext is.
#[verifier::external_body]
fn aes256_gcm_decrypt(key: &[u8; 32], nonce: &[u8; 12], ciphertext: &Vec<u8>) -> (r: Option<Vec<u8>>)
    ensures
        r is Some ==> ciphertext@ == aead_enc(key@, nonce@, r->Some_0@),
        r is Some ==> r->Some_0@.len() + 16 == ciphertext@.len(),
        forall|pt: Seq<u8>|
            pt.len() <= 0xffff_ffff && ciphertext@ == aead_enc(key@, nonce@, pt)
                ==> r is Some && r->Some_0@ == pt,
{
    let cipher = aes_gcm::Aes256Gcm::new(aes_gcm::Key::<aes_gcm::Aes256Gcm>::from_slice(key));
    match cipher.decrypt(aes_gcm::Nonce::from_slice(nonce), ciphertext.as_slice()) {
        Ok(pt) => Some(pt),
        Err(_) => None,
    }
}

/// The protocol's fixed nonce. Safe here because every keypair seals at most
/// one message in its lifetime (ephemeral, single-use keys).
pub open spec fn zero_nonce() -> Seq<u8> {
    Seq::new(12, |i: int| 0u8)
}

/// The protocol's fixed nonce, as a value.
pub fn session_nonce() -> (r: [u8; 12])
    ensures
        r@ == zero_nonce(),
{
    let r = [0u8; 12];
    proof {
        assert(r@ =~= zero_nonce());
    }
    r
}

/// Seals a 32-byte secret to a peer: AEAD-encrypts it under the shared
/// Diffie-Hellman key of `my_secret` and `peer_pub`. Always succeeds.
pub fn seal(nonce: &[u8; 12], secret_to_seal: &[u8; 32], my_secret: &[u8; 32], peer_pub: &[u8; 32])
    -> (r: Result<Vec<u8>, NodeError>)
    ensures
        r matches Ok(ct) && seals(ct@, nonce@, my_secret@, peer_pub@, secret_to_seal@)
            && ct@.len() == 48,
{
    let key = x25519_diffie_hellman(my_secret, peer_pub);
    let plaintext = vstd::slice::slice_to_vec(secret_to_seal.as_slice());
    match aes256_gcm_encrypt(&key, nonce, &plaintext) {
        Some(ct) => Ok(ct),
        None => vstd::pervasive::unreached(),
    }
}

/// Unseals a sealed message with `my_secret` against the sender's
/// `peer_pub`. Succeeds exactly on messages sealed under the matching
/// Diffie-Hellman key, and recovers the sealed secret; in particular, a
/// message sealed by the holder of the key behind `peer_pub` *to* this
/// node's public key unseals, by Diffie-Hellman symmetry.
pub fn unseal(nonce: &[u8; 12], message: &Vec<u8>, peer_pub: &[u8; 32], my_secret: &[u8; 32]) -> (r:
    Result<[u8; 32], NodeError>)
    ensures
        r matches Ok(pt) ==> seals(message@, nonce@, my_secret@, peer_pub@, pt@),
        forall|pt: Seq<u8>|
            pt.len() == 32 && seals(message@, nonce@, my_secret@, peer_pub@, pt)
                ==> (r matches Ok(v) && v@ == pt),
        forall|sender: Seq<u8>, pt: Seq<u8>|
            sender.len() == 32 && pt.len() == 32 && peer_pub@ == pub_of(sender) && seals(
                message@,
                nonce@,
                sender,
                pub_of(my_secret@),
                pt,
            ) ==> (r matches Ok(v) && v@ == pt),
        r is Err ==> r == Err::<[u8; 32], NodeError>(NodeError::UnsealFailed),
{
    let key = x25519_diffie_hellman(my_secret, peer_pub);
    match aes256_gcm_decrypt(&key, nonce, message) {
        Some(pt) => {
            if pt.len() == 32 {
                let mut out = [0u8; 32];
                let mut i: usize = 0;
                while i < 32
                    invariant
                        i <= 32,
                        pt@.len() == 32,
                        forall|k: int| 0 <= k < i ==> out@[k] == pt@[k],
                    decreases 32 - i,
                {
                    out[i] = pt[i];
                    i = i + 1;
                }
                proof {
                    assert(out@ =~= pt@);
                }
                Ok(out)
            } else {
                Err(NodeError::UnsealFailed)
            }
        },
        None => Err(NodeError::UnsealFailed),
    }
}

/// Diffie-Hellman symmetry: the two sides of an exchange between the keypairs
/// of `a` and `b` derive the same shared secret.
pub fn dh_symmetry(a: &[u8; 32], b: &[u8; 32]) -> (r: ([u8; 32], [u8; 32]))
    ensures
        r.0@ == dh_of(a@, pub_of(b@)),
        r.1@ == dh_of(b@, pub_of(a@)),
        r.0@ == r.1@,
{
    let pub_a = x25519_public_key(a);
    let pub_b = x25519_public_key(b);
    let shared_ab = x25519_diffie_hellman(a, &pub_b);
    let shared_ba = x25519_diffie_hellman(b, &pub_a);
    proof {
        assert(b@.len() == 32);
        assert(shared_ab@ == dh_of(b@, pub_of(a@)));
    }
    (shared_ab, shared_ba)
}

/// Seal/unseal round trip: a secret sealed with `a`'s secret key to `b`'s
/// public key is recovered exactly by unsealing with `b`'s secret key against
/// `a`'s public key.
pub fn seal_unseal_round_trip(nonce: &[u8; 12], secret: &[u8; 32], a: &[u8; 32], b: &[u8; 32]) -> (r:
    (Vec<u8>, [u8; 32]))
    ensures
        seals(r.0@, nonce@, a@, pub_of(b@), secret@),
        r.1@ == secret@,
{
    let pub_a = x25519_public_key(a);
    let pub_b = x25519_public_key(b);
    let sealed = match seal(nonce, secret, a, &pub_b) {
        Ok(ct) => ct,
        Err(_) => vstd::pervasive::unreached(),
    };
    let recovered = match unseal(nonce, &sealed, &pub_a, b) {
        Ok(v) => v,
        Err(_) => vstd::pervasive::unreached(),
    };
    (sealed, recovered)
}

/// Keypair generation and the Diffie-Hellman sealing scheme, in the shape the
/// node services use: the first listed public key is the exchange partner.
pub struct Crypto;

impl Crypto {
    pub fn new() -> (r: Self) {
        Crypto
    }

    /// A fresh random keypair `(pubkey, secret)`; the public half matches the
    /// secret half.
    pub fn get_keypair(&self) -> (r: ([u8; 32], [u8; 32]))
        ensures
            r.0@ == pub_of(r.1@),
    {
        let secret = x25519_generate_secret();
        let pubkey = x25519_public_key(&secret);
        (pubkey, secret)
    }

    /// Seals `secret` to `pubkeys[0]`, using `secret` itself as the sealer's
    /// Diffie-Hellman key: in this protocol the group secret doubles as the
    /// group's own exchange key.
    pub fn encrypt_secret(&self, nonce: &[u8; 12], secret: &[u8; 32], pubkeys: &Vec<[u8; 32]>) -> (r:
        Result<Vec<u8>, NodeError>)
        requires
            pubkeys@.len() >= 1,
        ensures
            r matches Ok(ct) && seals(ct@, nonce@, secret@, pubkeys@[0]@, secret@) && ct@.len()
                == 48,
    {
        seal(nonce, secret, secret, &pubkeys[0])
    }

    /// Unseals `message` with `secrets[0]` against `pubkeys[0]`, as
    /// [`unseal`] does.
    pub fn decrypt_secret(
        &self,
        nonce: &[u8; 12],
        message: &Vec<u8>,
        pubkeys: &Vec<[u8; 32]>,
        secrets: &Vec<[u8; 32]>,
    ) -> (r: Result<[u8; 32], NodeError>)
        requires
            pubkeys@.len() >= 1,
            secrets@.len() >= 1,
        ensures
            r matches Ok(pt) ==> seals(message@, nonce@, secrets@[0]@, pubkeys@[0]@, pt@),
            forall|pt: Seq<u8>|
                pt.len() == 32 && seals(message@, nonce@, secrets@[0]@, pubkeys@[0]@, pt)
                    ==> (r matches Ok(v) && v@ == pt),
            forall|sender: Seq<u8>, pt: Seq<u8>|
                sender.len() == 32 && pt.len() == 32 && pubkeys@[0]@ == pub_of(sender) && seals(
                    message@,
                    nonce@,
                    sender,
                    pub_of(secrets@[0]@),
                    pt,
                ) ==> (r matches Ok(v) && v@ == pt),
            r is Err ==> r == Err::<[u8; 32], NodeError>(NodeError::UnsealFailed),
    {
        unseal(nonce, message, &pubkeys[0], &secrets[0])
    }
}

} // verus!
