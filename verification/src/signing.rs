//! Signature combination: partial shares and their threshold-sized sets.
//!
//! Once the offline stage has produced presignature material, each signer
//! binds a message digest to its material ([`create_partial`]), hands its
//! partial share to the other signers, and combines its own state with
//! exactly `t` peer shares ([`complete_signature`]).  The harness-level
//! hazards live here: selecting every peer's share but one's own
//! ([`peer_shares`]), refusing share sets of the wrong size, and consuming
//! presignature material at most once ([`PresignatureSet`]).

use vstd::prelude::*;
use curv::BigInt;
use multi_party_ecdsa::protocols::multi_party_ecdsa::gg_2020::party_i::SignatureRecid;
use multi_party_ecdsa::protocols::multi_party_ecdsa::gg_2020::state_machine::sign::{
    CompletedOfflineStage, PartialSignature, SignManual,
};
use crate::engine::{
    bigint_clone, bigint_from_bytes, bigint_of, completed_offline_clone,
    partial_signature_clone, sha256_bytes, sha256_of, sign_manual_complete, sign_manual_new,
};
use crate::errors::SessionError;

verus! {

/// The presignature material of one signing session: one completed offline
/// stage per signer, in signer order.  The material is intended for a
/// single message; a set is consumed by its first signing run and every
/// later run is refused.
pub struct PresignatureSet {
    outputs: Vec<CompletedOfflineStage>,
    used: bool,
}

impl PresignatureSet {
    /// How many signers contributed presignature material.
    pub closed spec fn spec_count(&self) -> nat {
        self.outputs@.len()
    }

    /// Whether the material has already been consumed by a signing run.
    pub closed spec fn spec_used(&self) -> bool {
        self.used
    }

    /// Bundles freshly produced per-signer material into an unused set.
    pub fn new(outputs: Vec<CompletedOfflineStage>) -> (r: Self)
        ensures
            !r.spec_used(),
            r.spec_count() == outputs@.len(),
    {
        PresignatureSet { outputs, used: false }
    }

    /// How many signers contributed to this set.
    pub fn count(&self) -> (r: usize)
        ensures
            r == self.spec_count(),
    {
        self.outputs.len()
    }

    /// Whether the set has already been consumed.
    pub fn is_used(&self) -> (r: bool)
        ensures
            r == self.spec_used(),
    {
        self.used
    }
}

/// The SHA-256 digest of a message, the 32 bytes that a signing run binds
/// to the presignature material.
pub fn digest_bytes(msg: &Vec<u8>) -> (r: Vec<u8>)
    ensures
        r@ == sha256_of(msg@),
        r@.len() == 32,
{
    sha256_bytes(msg)
}

/// The message digest as the protocol engine consumes it: the SHA-256
/// hash of the message bytes, read as a big-endian integer.
pub fn digest_message(msg: &Vec<u8>) -> (r: BigInt)
    ensures
        r == bigint_of(sha256_of(msg@)),
{
    let hash = digest_bytes(msg);
    bigint_from_bytes(&hash)
}

/// Binds a message digest to one signer's presignature material, yielding
/// the signer's combination state and its partial signature share.  The
/// engine's local signing step cannot fail, so this always succeeds.
pub fn create_partial(digest: &BigInt, stage: &CompletedOfflineStage) -> (r: Result<
    (SignManual, PartialSignature),
    SessionError,
>)
    ensures
        r is Ok,
{
    let own_digest = bigint_clone(digest);
    let own_stage = completed_offline_clone(stage);
    match sign_manual_new(own_digest, own_stage) {
        Ok(pair) => Ok(pair),
        Err(_) => Err(SessionError::ProtocolError),
    }
}

/// The shares a signer combines with: every produced share except its own.
pub fn peer_shares(shares: &Vec<PartialSignature>, own_index: usize) -> (peers: Vec<
    PartialSignature,
>)
    requires
        own_index < shares@.len(),
    ensures
        peers@ == shares@.remove(own_index as int),
{
    let mut peers: Vec<PartialSignature> = Vec::new();
    let mut i: usize = 0;
    while i < own_index
        invariant
            own_index < shares@.len(),
            i <= own_index,
            peers@ == shares@.subrange(0, i as int),
        decreases own_index - i,
    {
        peers.push(partial_signature_clone(&shares[i]));
        proof {
            assert(peers@ =~= shares@.subrange(0, i as int + 1));
        }
        i = i + 1;
    }
    let total = shares.len();
    let mut j: usize = own_index + 1;
    while j < total
        invariant
            own_index < shares@.len(),
            total == shares@.len(),
            own_index + 1 <= j <= shares@.len(),
            peers@ == shares@.subrange(0, own_index as int) + shares@.subrange(
                own_index as int + 1,
                j as int,
            ),
        decreases shares@.len() - j,
    {
        peers.push(partial_signature_clone(&shares[j]));
        proof {
            assert(peers@ =~= shares@.subrange(0, own_index as int) + shares@.subrange(
                own_index as int + 1,
                j as int + 1,
            ));
        }
        j = j + 1;
    }
    proof {
        assert(peers@ =~= shares@.remove(own_index as int));
    }
    peers
}

/// Whichever signer combines, the same full share set is in play: a
/// signer's own share together with its selected peer shares is, as a
/// multiset, exactly the set of all produced shares.
pub proof fn lemma_share_selection_agrees(shares: Seq<PartialSignature>, j: int, k: int)
    requires
        0 <= j < shares.len(),
        0 <= k < shares.len(),
    ensures
        shares.remove(j).to_multiset().insert(shares[j]) == shares.to_multiset(),
        shares.remove(j).to_multiset().insert(shares[j]) == shares.remove(k).to_multiset().insert(
            shares[k],
        ),
{
    broadcast use vstd::seq_lib::group_to_multiset_ensures;
    broadcast use vstd::multiset::group_multiset_axioms;
    broadcast use vstd::multiset::lemma_update_same;
    broadcast use vstd::multiset::lemma_update_different;

    let m = shares.to_multiset();
    assert(shares.contains(shares[j]));
    assert(shares.contains(shares[k]));
    assert forall|idx: int| 0 <= idx < shares.len() implies #[trigger] m.remove(shares[idx]).insert(
        shares[idx],
    ) =~= m by {
        let x = shares[idx];
        assert(m.count(x) > 0);
        assert forall|y: PartialSignature| #[trigger] m.remove(x).insert(x).count(y) == m.count(
            y,
        ) by {
            if y == x {
                assert(m.remove(x).count(x) == m.count(x) - 1);
                assert(m.remove(x).insert(x).count(x) == m.remove(x).count(x) + 1);
            } else {
                assert(m.remove(x).count(y) == m.count(y));
                assert(m.remove(x).insert(x).count(y) == m.remove(x).count(y));
            }
        }
    }
}

/// Combines one signer's state with its peers' shares.  A signing
/// threshold of `t` owes exactly `t` peer shares: any other count is
/// refused with `CombinationError` and no signature is returned; an
/// inconsistent share set is likewise a `CombinationError`.
pub fn complete_signature(
    own_state: SignManual,
    peers: &Vec<PartialSignature>,
    threshold: u16,
) -> (r: Result<SignatureRecid, SessionError>)
    ensures
        peers@.len() != threshold as nat ==> r == Err::<SignatureRecid, SessionError>(
            SessionError::CombinationError,
        ),
        r is Err ==> r == Err::<SignatureRecid, SessionError>(SessionError::CombinationError),
        r is Ok ==> peers@.len() == threshold as nat,
{
    if peers.len() != threshold as usize {
        return Err(SessionError::CombinationError);
    }
    match sign_manual_complete(own_state, peers) {
        Ok(sig) => Ok(sig),
        Err(_) => Err(SessionError::CombinationError),
    }
}

/// One full signing run over a presignature set: every signer binds the
/// digest to its material, then each signer combines its own state with
/// all the other signers' shares.  The set must be unused and must hold
/// material for exactly `threshold + 1` signers; it is consumed by the
/// run, so a second run over the same set is refused with
/// `CombinationError` and leaves the set untouched.
pub fn sign_message(digest: &BigInt, presigs: &mut PresignatureSet, threshold: u16) -> (r: Result<
    Vec<SignatureRecid>,
    SessionError,
>)
    ensures
        old(presigs).spec_used() ==> r == Err::<Vec<SignatureRecid>, SessionError>(
            SessionError::CombinationError,
        ) && *final(presigs) == *old(presigs),
        !old(presigs).spec_used() ==> final(presigs).spec_used() && final(presigs).spec_count()
            == old(presigs).spec_count(),
        !old(presigs).spec_used() && old(presigs).spec_count() != threshold as nat + 1 ==> r
            == Err::<Vec<SignatureRecid>, SessionError>(SessionError::CombinationError),
        r matches Ok(sigs) ==> !old(presigs).spec_used() && old(presigs).spec_count()
            == threshold as nat + 1 && sigs@.len() == threshold as nat + 1,
        r is Err ==> r == Err::<Vec<SignatureRecid>, SessionError>(
            SessionError::CombinationError,
        ),
{
    if presigs.is_used() {
        return Err(SessionError::CombinationError);
    }
    presigs.used = true;
    let ghost snapshot = *presigs;

    let n_signers = presigs.outputs.len();
    if n_signers != threshold as usize + 1 {
        return Err(SessionError::CombinationError);
    }

    let mut manuals: Vec<SignManual> = Vec::new();
    let mut partials: Vec<PartialSignature> = Vec::new();
    let mut i: usize = 0;
    while i < n_signers
        invariant
            *presigs == snapshot,
            presigs.spec_used(),
            !old(presigs).spec_used(),
            n_signers == presigs.spec_count(),
            n_signers == old(presigs).spec_count(),
            n_signers == threshold as nat + 1,
            i <= n_signers,
            manuals@.len() == i,
            partials@.len() == i,
        decreases n_signers - i,
    {
        match create_partial(digest, &presigs.outputs[i]) {
            Ok((manual, share)) => {
                manuals.push(manual);
                partials.push(share);
            },
            Err(e) => {
                return Err(e);
            },
        }
        i = i + 1;
    }

    let mut sigs: Vec<SignatureRecid> = Vec::new();
    let mut j: usize = 0;
    while j < n_signers
        invariant
            *presigs == snapshot,
            presigs.spec_used(),
            !old(presigs).spec_used(),
            n_signers == presigs.spec_count(),
            n_signers == old(presigs).spec_count(),
            n_signers == threshold as nat + 1,
            j <= n_signers,
            manuals@.len() == n_signers - j,
            partials@.len() == n_signers,
            sigs@.len() == j,
        decreases n_signers - j,
    {
        let own_state = manuals.remove(0);
        let peers = peer_shares(&partials, j);
        match complete_signature(own_state, &peers, threshold) {
            Ok(sig) => {
                sigs.push(sig);
            },
            Err(e) => {
                return Err(e);
            },
        }
        j = j + 1;
    }
    Ok(sigs)
}

} // verus!
