//! The trusted node's services: the replication state machine that takes a
//! joining node from no secret to holding the group secret, the admission
//! endpoint that seals the secret for verified candidates, and per-purpose
//! key derivation.
//!
//! The surrounding process performs the outside work (quote issuance and
//! verification, posting to and polling the coordinator, sleeping between
//! polls); every decision in between is made here, with a contract.

use vstd::prelude::*;
use crate::attestation::{register_digest, register_digest_of, Attestation};
use crate::crypto::{pub_of, seals, session_nonce, unseal, zero_nonce, Crypto};
use crate::digest::{sha256, sha256_of};
use crate::encoding::{hex_bytes, hex_encode};
use crate::errors::NodeError;
use crate::quotes::{appdata_of, QuoteVerificationResult};
use crate::records::OnboardedObject;

verus! {

/// The joining node's progress from no secret to holding the group secret.
#[derive(Clone, Copy, Debug)]
pub enum ReplicationState {
    /// Fresh node: no keys, no secret.
    Start,
    /// Ephemeral keypair generated; waiting for the quote binding `pubkey`.
    KeyGenerated { pubkey: [u8; 32], secret: [u8; 32] },
    /// Registration posted; polling for an admission sealed to `pubkey`.
    Registering { pubkey: [u8; 32], secret: [u8; 32], group_public: [u8; 32] },
    /// The node holds the group secret.
    Replicated { secret: [u8; 32] },
}

/// What the surrounding process must do after a replication step.
#[derive(Debug)]
pub enum ReplicationAction {
    /// Obtain a quote whose report data is `report_data`, the hash binding
    /// `pubkey`.
    ObtainQuote { pubkey: [u8; 32], report_data: [u8; 32] },
    /// Post a bootstrap record; the node is now the group's first member.
    PostBootstrap { pubkey: [u8; 32], quote: Vec<u8> },
    /// Post a registration record, then poll for an admission.
    PostRegister { pubkey: [u8; 32], quote: Vec<u8> },
    /// No admission addressed to this node yet: poll again later.
    AwaitAdmission,
    /// Replication finished.
    Complete,
}

/// The first admission record addressed to `pk`, if any.
pub open spec fn find_admission(records: Seq<OnboardedObject>, pk: Seq<u8>) -> Option<
    OnboardedObject,
>
    decreases records.len(),
{
    if records.len() == 0 {
        None
    } else if records[0].node_pubkey@ == pk {
        Some(records[0])
    } else {
        find_admission(records.skip(1), pk)
    }
}

/// Scanning past non-matching records does not change what is found.
proof fn lemma_find_admission_skip(records: Seq<OnboardedObject>, pk: Seq<u8>, i: int)
    requires
        0 <= i <= records.len(),
        forall|k: int| 0 <= k < i ==> records[k].node_pubkey@ != pk,
    ensures
        find_admission(records, pk) == find_admission(records.skip(i), pk),
    decreases i,
{
    if i == 0 {
        assert(records.skip(0) =~= records);
    } else {
        assert forall|k: int| 0 <= k < i - 1 implies records.skip(1)[k].node_pubkey@ != pk by {
            assert(records.skip(1)[k] == records[k + 1]);
        }
        lemma_find_admission_skip(records.skip(1), pk, i - 1);
        assert(records.skip(1).skip(i - 1) =~= records.skip(i));
    }
}

/// Whether a record's key field names this node's public key.
fn pubkey_matches(record_pk: &Vec<u8>, pk: &[u8; 32]) -> (r: bool)
    ensures
        r <==> record_pk@ == pk@,
{
    if record_pk.len() != 32 {
        proof {
            assert(record_pk@.len() != pk@.len());
        }
        return false;
    }
    let mut i: usize = 0;
    while i < 32
        invariant
            i <= 32,
            record_pk@.len() == 32,
            forall|k: int| 0 <= k < i ==> record_pk@[k] == pk@[k],
        decreases 32 - i,
    {
        if record_pk[i] != pk[i] {
            return false;
        }
        i = i + 1;
    }
    proof {
        assert(record_pk@ =~= pk@);
    }
    true
}

/// The derived key for a tag: `hex(H(tag ‖ hex(secret)))`.
pub open spec fn derived_key_of(tag: Seq<u8>, secret: Seq<u8>) -> Seq<u8> {
    hex_bytes(sha256_of(tag + hex_bytes(secret)))
}

/// A trusted node's guest-side services.
pub struct GuestServices {
    pub cluster_contract: [u8; 32],
    pub shared_public: Option<[u8; 32]>,
    pub shared_secret: Option<[u8; 32]>,
    pub attestation: Attestation,
    pub crypto: Crypto,
}

impl GuestServices {
    /// A node configured for `cluster_contract`, with no keys and no secret.
    pub fn new(cluster_contract: [u8; 32]) -> (r: Self)
        ensures
            r.cluster_contract == cluster_contract,
            r.shared_public is None,
            r.shared_secret is None,
    {
        GuestServices {
            cluster_contract,
            shared_public: None,
            shared_secret: None,
            attestation: Attestation::new(),
            crypto: Crypto::new(),
        }
    }

    /// Configures the group public key this node expects (the register path).
    pub fn set_expected_public(&mut self, public: [u8; 32])
        ensures
            final(self).shared_public == Some(public),
            final(self).shared_secret == old(self).shared_secret,
            final(self).cluster_contract == old(self).cluster_contract,
    {
        self.shared_public = Some(public)
    }

    /// Stores the recovered group secret.
    pub fn set_secret(&mut self, secret: [u8; 32])
        ensures
            final(self).shared_secret == Some(secret),
            final(self).shared_public == old(self).shared_public,
            final(self).cluster_contract == old(self).cluster_contract,
    {
        self.shared_secret = Some(secret)
    }

    /// The group secret, or `NotReady` before replication finishes.
    pub fn get_secret(&self) -> (r: Result<[u8; 32], NodeError>)
        ensures
            self.shared_secret matches Some(s) ==> r == Ok::<[u8; 32], NodeError>(s),
            self.shared_secret is None ==> r == Err::<[u8; 32], NodeError>(NodeError::NotReady),
    {
        match self.shared_secret {
            Some(shared) => Ok(shared),
            None => Err(NodeError::NotReady),
        }
    }

    /// Enters the replication protocol: generates the ephemeral keypair and
    /// asks the surrounding process for a quote binding its public key.
    pub fn replicate_start(&self) -> (r: (ReplicationState, ReplicationAction))
        ensures
            r.0 matches ReplicationState::KeyGenerated { pubkey, secret } ==> pubkey@ == pub_of(
                secret@,
            ),
            r.0 is KeyGenerated,
            r.0 matches ReplicationState::KeyGenerated { pubkey, secret }
                ==> (r.1 matches ReplicationAction::ObtainQuote { pubkey: p, report_data }
                && p == pubkey && report_data@ == register_digest_of(pubkey@)),
    {
        let (pubkey, secret) = self.crypto.get_keypair();
        let appdata = vstd::slice::slice_to_vec(pubkey.as_slice());
        let report_data = register_digest(&appdata);
        (
            ReplicationState::KeyGenerated { pubkey, secret },
            ReplicationAction::ObtainQuote { pubkey, report_data },
        )
    }

    /// With the quote in hand, picks the path: with no expected group key the
    /// node bootstraps — its own ephemeral secret key becomes the group
    /// secret — and is immediately replicated; otherwise it registers and
    /// starts polling for an admission.
    pub fn replicate_on_quote(&self, state: ReplicationState, quote: Vec<u8>) -> (r: (
        ReplicationState,
        ReplicationAction,
    ))
        requires
            state is KeyGenerated,
        ensures
            state matches ReplicationState::KeyGenerated { pubkey, secret } ==> match self
                .shared_public {
                None => r.0 == (ReplicationState::Replicated { secret })
                    && (r.1 matches ReplicationAction::PostBootstrap { pubkey: p, quote: q }
                    && p == pubkey && q@ == quote@),
                Some(g) => r.0 == (ReplicationState::Registering {
                    pubkey,
                    secret,
                    group_public: g,
                }) && (r.1 matches ReplicationAction::PostRegister { pubkey: p, quote: q }
                    && p == pubkey && q@ == quote@),
            },
    {
        let (pubkey, secret) = match state {
            ReplicationState::KeyGenerated { pubkey, secret } => (pubkey, secret),
            _ => vstd::pervasive::unreached(),
        };
        match self.shared_public {
            None => (
                ReplicationState::Replicated { secret },
                ReplicationAction::PostBootstrap { pubkey, quote },
            ),
            Some(g) => (
                ReplicationState::Registering { pubkey, secret, group_public: g },
                ReplicationAction::PostRegister { pubkey, quote },
            ),
        }
    }

    /// One admission poll while registering. A record not addressed to this
    /// node is "not yet": poll again. A record addressed to this node either
    /// unseals — proving, by Diffie-Hellman symmetry, that its sealer held
    /// the key behind the expected group public key — and completes
    /// replication with the recovered secret, or fails to unseal, which is a
    /// hard protocol violation and is surfaced, never retried silently.
    pub fn replicate_on_admissions(
        &self,
        state: ReplicationState,
        records: &Vec<OnboardedObject>,
    ) -> (r: Result<(ReplicationState, ReplicationAction), NodeError>)
        requires
            state is Registering,
        ensures
            state matches ReplicationState::Registering { pubkey, secret, group_public }
                ==> match find_admission(records@, pubkey@) {
                None => r matches Ok((st, act)) && st == state && act is AwaitAdmission,
                Some(rec) => {
                    &&& (r matches Ok((st, act)) ==> (st matches ReplicationState::Replicated {
                        secret: got,
                    } && act is Complete && seals(
                        rec.shared_secret@,
                        zero_nonce(),
                        secret@,
                        group_public@,
                        got@,
                    )))
                    &&& (forall|pt: Seq<u8>|
                        pt.len() == 32 && seals(
                            rec.shared_secret@,
                            zero_nonce(),
                            secret@,
                            group_public@,
                            pt,
                        ) ==> (r matches Ok((st, act))
                            && (st matches ReplicationState::Replicated { secret: got } && got@
                            == pt)))
                    &&& (forall|sender: Seq<u8>, pt: Seq<u8>|
                        sender.len() == 32 && pt.len() == 32 && group_public@ == pub_of(sender)
                            && seals(
                            rec.shared_secret@,
                            zero_nonce(),
                            sender,
                            pub_of(secret@),
                            pt,
                        ) ==> (r matches Ok((st, act))
                            && (st matches ReplicationState::Replicated { secret: got } && got@
                            == pt)))
                    &&& (r is Err ==> r == Err::<(ReplicationState, ReplicationAction), NodeError>(
                        NodeError::UnsealFailed,
                    ))
                },
            },
    {
        let (pubkey, secret, group_public) = match state {
            ReplicationState::Registering { pubkey, secret, group_public } => (
                pubkey,
                secret,
                group_public,
            ),
            _ => vstd::pervasive::unreached(),
        };
        let n = records.len();
        let mut i: usize = 0;
        while i < n
            invariant
                n == records@.len(),
                i <= n,
                state == (ReplicationState::Registering { pubkey, secret, group_public }),
                forall|k: int| 0 <= k < i ==> records@[k].node_pubkey@ != pubkey@,
            decreases n - i,
        {
            if pubkey_matches(&records[i].node_pubkey, &pubkey) {
                proof {
                    lemma_find_admission_skip(records@, pubkey@, i as int);
                    assert(records@.skip(i as int)[0] == records@[i as int]);
                    assert(find_admission(records@.skip(i as int), pubkey@) == Some(
                        records@[i as int],
                    ));
                }
                let nonce = session_nonce();
                match unseal(&nonce, &records[i].shared_secret, &group_public, &secret) {
                    Ok(got) => {
                        return Ok(
                            (
                                ReplicationState::Replicated { secret: got },
                                ReplicationAction::Complete,
                            ),
                        );
                    },
                    Err(_) => {
                        return Err(NodeError::UnsealFailed);
                    },
                }
            }
            i = i + 1;
        }
        proof {
            lemma_find_admission_skip(records@, pubkey@, n as int);
            assert(records@.skip(n as int) =~= Seq::<OnboardedObject>::empty());
        }
        Ok((state, ReplicationAction::AwaitAdmission))
    }

    /// The admission endpoint: checks that the verified quote binds
    /// `pubkeys[0]` — the one security-critical comparison — and seals the
    /// group secret to that key. Serves `NotReady` before replication
    /// finishes, `AppdataMismatch` when the candidate key was not the one
    /// attested, `MalformedQuote` when the report data cannot be decoded.
    pub fn onboard_new_node(
        &self,
        verification: &QuoteVerificationResult,
        pubkeys: &Vec<[u8; 32]>,
    ) -> (r: Result<Vec<u8>, NodeError>)
        requires
            pubkeys@.len() >= 1,
        ensures
            match appdata_of(verification) {
                None => r == Err::<Vec<u8>, NodeError>(NodeError::MalformedQuote),
                Some(got) => if got != register_digest_of(pubkeys@[0]@) {
                    r == Err::<Vec<u8>, NodeError>(NodeError::AppdataMismatch)
                } else {
                    match self.shared_secret {
                        None => r == Err::<Vec<u8>, NodeError>(NodeError::NotReady),
                        Some(s) => r matches Ok(ct) && seals(
                            ct@,
                            zero_nonce(),
                            s@,
                            pubkeys@[0]@,
                            s@,
                        ) && ct@.len() == 48,
                    }
                },
            },
    {
        let got = match verification.get_appdata() {
            Some(a) => a,
            None => {
                return Err(NodeError::MalformedQuote);
            },
        };
        let candidate = vstd::slice::slice_to_vec(pubkeys[0].as_slice());
        if !self.attestation.check_binding(&got, &candidate) {
            return Err(NodeError::AppdataMismatch);
        }
        let secret = match self.shared_secret {
            Some(s) => s,
            None => {
                return Err(NodeError::NotReady);
            },
        };
        let nonce = session_nonce();
        self.crypto.encrypt_secret(&nonce, &secret, pubkeys)
    }

    /// Deterministic per-purpose key derivation from the group secret:
    /// `hex(H(tag ‖ hex(secret)))`.
    pub fn get_derived_key(&self, tag: &Vec<u8>) -> (r: Result<Vec<u8>, NodeError>)
        ensures
            self.shared_secret is None ==> r == Err::<Vec<u8>, NodeError>(NodeError::NotReady),
            self.shared_secret matches Some(s) ==> (r matches Ok(k) && k@ == derived_key_of(
                tag@,
                s@,
            )),
    {
        let secret = match self.shared_secret {
            Some(s) => s,
            None => {
                return Err(NodeError::NotReady);
            },
        };
        let mut preimage = vstd::slice::slice_to_vec(tag.as_slice());
        let secret_vec = vstd::slice::slice_to_vec(secret.as_slice());
        let mut secret_hex = hex_encode(&secret_vec);
        preimage.append(&mut secret_hex);
        let digest = sha256(&preimage);
        let digest_vec = vstd::slice::slice_to_vec(digest.as_slice());
        Ok(hex_encode(&digest_vec))
    }
}

} // verus!
