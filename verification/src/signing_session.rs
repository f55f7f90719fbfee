//! The signing flow: offline presignature generation over the signer
//! subset, then one signing run per message.
//!
//! The offline stage is driven like key generation — collect every
//! signer's round output, deliver it, then advance every signer — over the
//! offline phase's six-round table.  Each completed offline stage set is
//! bundled into a [`crate::signing::PresignatureSet`], which a signing run
//! consumes; a fresh set is generated for every message, so presignature
//! material is never silently reused.

use vstd::prelude::*;
use multi_party_ecdsa::protocols::multi_party_ecdsa::gg_2020::party_i::SignatureRecid;
use multi_party_ecdsa::protocols::multi_party_ecdsa::gg_2020::state_machine::sign::{
    OfflineProtocolMessage, OfflineStage,
};
use round_based::Msg;
use crate::engine::{
    offline_handle_incoming, offline_message_queue, offline_msg_clone, offline_msg_receiver,
    offline_new, offline_pick_output, offline_proceed, KeyShare,
};
use crate::errors::SessionError;
use crate::keygen_session::{spec_valid_params, valid_params};
use crate::rounds::{offline_round_table, queue_offset};
use crate::router::{broadcast_recipients, p2p_positions};
use crate::signing::{digest_message, sign_message, PresignatureSet};

verus! {

/// The signer subset used for signing: the first `t + 1` party ids,
/// `1..=t+1`, in ascending order.
pub fn signer_subset(total_threshold: u16) -> (r: Vec<u16>)
    requires
        total_threshold < u16::MAX,
    ensures
        r@.len() == total_threshold as nat + 1,
        forall|i: int| 0 <= i < r@.len() ==> #[trigger] r@[i] == i + 1,
{
    let count = total_threshold as usize + 1;
    let mut s_l: Vec<u16> = Vec::new();
    let mut idx: usize = 0;
    while idx < count
        invariant
            count <= u16::MAX,
            idx <= count,
            s_l@.len() == idx,
            forall|i: int| 0 <= i < s_l@.len() ==> #[trigger] s_l@[i] == i + 1,
        decreases count - idx,
    {
        s_l.push((idx + 1) as u16);
        idx = idx + 1;
    }
    s_l
}

/// Advances every signer by one engine step.
fn proceed_all_sign(offline_stage_vec: &mut Vec<OfflineStage>) -> (r: Result<(), SessionError>)
    ensures
        final(offline_stage_vec)@.len() == old(offline_stage_vec)@.len(),
        r is Err ==> r == Err::<(), SessionError>(SessionError::ProtocolError),
{
    let n = offline_stage_vec.len();
    let mut k: usize = 0;
    while k < n
        invariant
            offline_stage_vec@.len() == n,
            n == old(offline_stage_vec)@.len(),
            k <= n,
        decreases n - k,
    {
        let mut engine = offline_stage_vec.remove(k);
        let res = offline_proceed(&mut engine);
        offline_stage_vec.insert(k, engine);
        match res {
            Ok(_) => {},
            Err(_) => {
                return Err(SessionError::ProtocolError);
            },
        }
        k = k + 1;
    }
    Ok(())
}

/// Collects the one message every signer emitted at queue position
/// `offset`, in signer order.
fn collect_round_sign(offline_stage_vec: &mut Vec<OfflineStage>, offset: usize) -> (r: Result<
    Vec<Msg<OfflineProtocolMessage>>,
    SessionError,
>)
    ensures
        final(offline_stage_vec)@.len() == old(offline_stage_vec)@.len(),
        r matches Ok(msgs) ==> msgs@.len() == old(offline_stage_vec)@.len(),
        r is Err ==> r == Err::<Vec<Msg<OfflineProtocolMessage>>, SessionError>(
            SessionError::ProtocolError,
        ),
{
    let n = offline_stage_vec.len();
    let mut msgs: Vec<Msg<OfflineProtocolMessage>> = Vec::new();
    let mut k: usize = 0;
    while k < n
        invariant
            offline_stage_vec@.len() == n,
            n == old(offline_stage_vec)@.len(),
            msgs@.len() == k,
            k <= n,
        decreases n - k,
    {
        let mut engine = offline_stage_vec.remove(k);
        let queue = offline_message_queue(&mut engine);
        offline_stage_vec.insert(k, engine);
        if offset >= queue.len() {
            return Err(SessionError::ProtocolError);
        }
        msgs.push(offline_msg_clone(&queue[offset]));
        k = k + 1;
    }
    Ok(msgs)
}

/// Collects each signer's block of `count` point-to-point messages
/// starting at queue position `offset`, one block per signer.
fn collect_p2p_sign(offline_stage_vec: &mut Vec<OfflineStage>, offset: usize, count: usize) -> (r:
    Result<Vec<Vec<Msg<OfflineProtocolMessage>>>, SessionError>)
    ensures
        final(offline_stage_vec)@.len() == old(offline_stage_vec)@.len(),
        r matches Ok(blocks) ==> blocks@.len() == old(offline_stage_vec)@.len(),
        r is Err ==> r == Err::<Vec<Vec<Msg<OfflineProtocolMessage>>>, SessionError>(
            SessionError::ProtocolError,
        ),
{
    let n = offline_stage_vec.len();
    let mut blocks: Vec<Vec<Msg<OfflineProtocolMessage>>> = Vec::new();
    let mut k: usize = 0;
    while k < n
        invariant
            offline_stage_vec@.len() == n,
            n == old(offline_stage_vec)@.len(),
            blocks@.len() == k,
            k <= n,
        decreases n - k,
    {
        let mut engine = offline_stage_vec.remove(k);
        let queue = offline_message_queue(&mut engine);
        offline_stage_vec.insert(k, engine);
        if queue.len() < offset || queue.len() - offset < count {
            return Err(SessionError::ProtocolError);
        }
        let mut block: Vec<Msg<OfflineProtocolMessage>> = Vec::new();
        let mut idx: usize = 0;
        while idx < count
            invariant
                block@.len() == idx,
                idx <= count,
                offset + count <= queue@.len(),
                queue@.len() <= usize::MAX,
            decreases count - idx,
        {
            block.push(offline_msg_clone(&queue[offset + idx]));
            idx = idx + 1;
        }
        blocks.push(block);
        k = k + 1;
    }
    Ok(blocks)
}

/// Delivers one round of broadcast messages among the signers: the
/// message of the signer at position `k` goes to every other signer
/// exactly once, never back to its sender.
pub fn broadcast_msg_sign(
    msgs_vec: &Vec<Msg<OfflineProtocolMessage>>,
    offline_stage_vec: &mut Vec<OfflineStage>,
) -> (r: Result<(), SessionError>)
    requires
        msgs_vec@.len() == old(offline_stage_vec)@.len(),
    ensures
        final(offline_stage_vec)@.len() == old(offline_stage_vec)@.len(),
        r is Err ==> r == Err::<(), SessionError>(SessionError::ProtocolError),
{
    let n = offline_stage_vec.len();
    let mut k: usize = 0;
    while k < n
        invariant
            offline_stage_vec@.len() == n,
            n == old(offline_stage_vec)@.len(),
            msgs_vec@.len() == n,
            k <= n,
        decreases n - k,
    {
        let recipients = broadcast_recipients(n, k);
        let mut r_i: usize = 0;
        while r_i < recipients.len()
            invariant
                offline_stage_vec@.len() == n,
                n == old(offline_stage_vec)@.len(),
                msgs_vec@.len() == n,
                k < n,
                r_i <= recipients@.len(),
                forall|x: int| 0 <= x < recipients@.len() ==> #[trigger] recipients@[x] < n,
            decreases recipients@.len() - r_i,
        {
            let pos = recipients[r_i];
            let msg = offline_msg_clone(&msgs_vec[k]);
            let mut engine = offline_stage_vec.remove(pos);
            let res = offline_handle_incoming(&mut engine, msg);
            offline_stage_vec.insert(pos, engine);
            match res {
                Ok(_) => {},
                Err(_) => {
                    return Err(SessionError::ProtocolError);
                },
            }
            r_i = r_i + 1;
        }
        k = k + 1;
    }
    Ok(())
}

/// Delivers one round of point-to-point messages among the signers,
/// translating each explicit recipient id through the router.
pub fn p2p_msg_sign(
    p2p_msgs: &Vec<Vec<Msg<OfflineProtocolMessage>>>,
    offline_stage_vec: &mut Vec<OfflineStage>,
) -> (r: Result<(), SessionError>)
    requires
        old(offline_stage_vec)@.len() <= u16::MAX,
    ensures
        final(offline_stage_vec)@.len() == old(offline_stage_vec)@.len(),
        r is Err ==> r == Err::<(), SessionError>(SessionError::ConfigurationError) || r
            == Err::<(), SessionError>(SessionError::ProtocolError),
{
    let n_usize = offline_stage_vec.len();
    let n = n_usize as u16;
    let mut s: usize = 0;
    while s < p2p_msgs.len()
        invariant
            offline_stage_vec@.len() == n_usize,
            n_usize == old(offline_stage_vec)@.len(),
            n_usize == n,
            s <= p2p_msgs@.len(),
        decreases p2p_msgs@.len() - s,
    {
        let sender_msgs = &p2p_msgs[s];
        let mut targets: Vec<Option<u16>> = Vec::new();
        let mut i: usize = 0;
        while i < sender_msgs.len()
            invariant
                targets@.len() == i,
                i <= sender_msgs@.len(),
            decreases sender_msgs@.len() - i,
        {
            targets.push(offline_msg_receiver(&sender_msgs[i]));
            i = i + 1;
        }
        let positions = match p2p_positions(&targets, n) {
            Ok(positions) => positions,
            Err(e) => {
                return Err(e);
            },
        };
        let mut d: usize = 0;
        while d < positions.len()
            invariant
                offline_stage_vec@.len() == n_usize,
                n_usize == old(offline_stage_vec)@.len(),
                n_usize == n,
                d <= positions@.len(),
                positions@.len() == sender_msgs@.len(),
                forall|x: int| 0 <= x < positions@.len() ==> #[trigger] positions@[x] < n,
            decreases positions@.len() - d,
        {
            let pos = positions[d];
            let msg = offline_msg_clone(&sender_msgs[d]);
            let mut engine = offline_stage_vec.remove(pos);
            let res = offline_handle_incoming(&mut engine, msg);
            offline_stage_vec.insert(pos, engine);
            match res {
                Ok(_) => {},
                Err(_) => {
                    return Err(SessionError::ProtocolError);
                },
            }
            d = d + 1;
        }
        s = s + 1;
    }
    Ok(())
}

/// Runs the offline signing stage over the signer subset `1..=t+1`:
/// creates one offline engine per signer from that party's key share and
/// drives the six rounds of the offline round table (broadcast,
/// point-to-point, then four broadcasts).  Requires one key share per
/// party, in party order; on success there is exactly one engine per
/// signer, each ready to finalize.
pub fn compute_offline_signing(
    local_key_vec: &Vec<KeyShare>,
    total_parties: u16,
    total_threshold: u16,
) -> (r: Result<Vec<OfflineStage>, SessionError>)
    ensures
        !(spec_valid_params(total_parties, total_threshold) && local_key_vec@.len()
            == total_parties as nat) ==> r == Err::<Vec<OfflineStage>, SessionError>(
            SessionError::ConfigurationError,
        ),
        r matches Ok(stages) ==> stages@.len() == total_threshold as nat + 1,
{
    if !valid_params(total_parties, total_threshold) {
        return Err(SessionError::ConfigurationError);
    }
    if local_key_vec.len() != total_parties as usize {
        return Err(SessionError::ConfigurationError);
    }
    let table = offline_round_table(total_threshold);
    let signer_count = total_threshold as usize + 1;

    // Parties 1..=t+1 are the signers; each gets an offline engine seeded
    // with its key share and computes its first-round output at once.
    let mut offline_stage_vec: Vec<OfflineStage> = Vec::new();
    let mut idx: usize = 0;
    while idx < signer_count
        invariant
            spec_valid_params(total_parties, total_threshold),
            local_key_vec@.len() == total_parties,
            signer_count == total_threshold as nat + 1,
            signer_count <= local_key_vec@.len(),
            idx <= signer_count,
            offline_stage_vec@.len() == idx,
        decreases signer_count - idx,
    {
        let s_l = signer_subset(total_threshold);
        let mut engine = match offline_new((idx + 1) as u16, s_l, &local_key_vec[idx]) {
            Ok(engine) => engine,
            Err(_) => {
                return Err(SessionError::ConfigurationError);
            },
        };
        match offline_proceed(&mut engine) {
            Ok(_) => {},
            Err(_) => {
                return Err(SessionError::ProtocolError);
            },
        }
        offline_stage_vec.push(engine);
        idx = idx + 1;
    }

    // Round 1: broadcast every signer's first-round message.
    let offset1 = queue_offset(&table, 0);
    let msgs1 = match collect_round_sign(&mut offline_stage_vec, offset1) {
        Ok(msgs) => msgs,
        Err(e) => {
            return Err(e);
        },
    };
    match broadcast_msg_sign(&msgs1, &mut offline_stage_vec) {
        Ok(_) => {},
        Err(e) => {
            return Err(e);
        },
    }
    match proceed_all_sign(&mut offline_stage_vec) {
        Ok(_) => {},
        Err(e) => {
            return Err(e);
        },
    }

    // Round 2: each signer addresses every other signer point-to-point.
    let offset2 = queue_offset(&table, 1);
    let count2 = total_threshold as usize;
    let blocks = match collect_p2p_sign(&mut offline_stage_vec, offset2, count2) {
        Ok(blocks) => blocks,
        Err(e) => {
            return Err(e);
        },
    };
    match p2p_msg_sign(&blocks, &mut offline_stage_vec) {
        Ok(_) => {},
        Err(e) => {
            return Err(e);
        },
    }
    match proceed_all_sign(&mut offline_stage_vec) {
        Ok(_) => {},
        Err(e) => {
            return Err(e);
        },
    }

    // Rounds 3 to 6: four broadcast rounds, each followed by an advance.
    let mut round: usize = 2;
    while round < 6
        invariant
            spec_valid_params(total_parties, total_threshold),
            local_key_vec@.len() == total_parties,
            offline_stage_vec@.len() == total_threshold as nat + 1,
            table@.len() == 6,
            crate::rounds::counts_bounded(table@, u16::MAX as int),
            2 <= round <= 6,
        decreases 6 - round,
    {
        let offset = queue_offset(&table, round);
        let msgs = match collect_round_sign(&mut offline_stage_vec, offset) {
            Ok(msgs) => msgs,
            Err(e) => {
                return Err(e);
            },
        };
        match broadcast_msg_sign(&msgs, &mut offline_stage_vec) {
            Ok(_) => {},
            Err(e) => {
                return Err(e);
            },
        }
        match proceed_all_sign(&mut offline_stage_vec) {
            Ok(_) => {},
            Err(e) => {
                return Err(e);
            },
        }
        round = round + 1;
    }
    Ok(offline_stage_vec)
}

/// Extracts every signer's completed offline output into a fresh, unused
/// presignature set.  A signer without an output means the stage was
/// finalized too early: `SessionIncomplete`.
pub fn collect_presignatures(offline_stage_vec: &mut Vec<OfflineStage>) -> (r: Result<
    PresignatureSet,
    SessionError,
>)
    ensures
        final(offline_stage_vec)@.len() == old(offline_stage_vec)@.len(),
        r matches Ok(set) ==> !set.spec_used() && set.spec_count() == old(
            offline_stage_vec,
        )@.len(),
{
    let n = offline_stage_vec.len();
    let mut outputs = Vec::new();
    let mut k: usize = 0;
    while k < n
        invariant
            offline_stage_vec@.len() == n,
            n == old(offline_stage_vec)@.len(),
            outputs@.len() == k,
            k <= n,
        decreases n - k,
    {
        let mut engine = offline_stage_vec.remove(k);
        let out = offline_pick_output(&mut engine);
        offline_stage_vec.insert(k, engine);
        match out {
            Some(res) => match res {
                Ok(stage) => {
                    outputs.push(stage);
                },
                Err(_) => {
                    return Err(SessionError::ProtocolError);
                },
            },
            None => {
                return Err(SessionError::SessionIncomplete);
            },
        }
        k = k + 1;
    }
    Ok(PresignatureSet::new(outputs))
}

/// Signs every message in `messages` under the key shares of a completed
/// key generation: for each message, a fresh offline stage is driven over
/// the signer subset, its presignature set is consumed by exactly one
/// signing run, and every signer's combined signature is returned.  On
/// success there is one row of `t + 1` signatures per message.  No
/// presignature set outlives its message.
pub fn run_signing(
    local_key_vec: &Vec<KeyShare>,
    total_parties: u16,
    total_threshold: u16,
    messages: &Vec<Vec<u8>>,
) -> (r: Result<Vec<Vec<SignatureRecid>>, SessionError>)
    ensures
        !(spec_valid_params(total_parties, total_threshold) && local_key_vec@.len()
            == total_parties as nat) ==> r == Err::<Vec<Vec<SignatureRecid>>, SessionError>(
            SessionError::ConfigurationError,
        ),
        r matches Ok(rows) ==> rows@.len() == messages@.len() && (forall|i: int|
            0 <= i < rows@.len() ==> #[trigger] rows@[i]@.len() == total_threshold as nat + 1),
{
    if !valid_params(total_parties, total_threshold) {
        return Err(SessionError::ConfigurationError);
    }
    if local_key_vec.len() != total_parties as usize {
        return Err(SessionError::ConfigurationError);
    }
    let mut rows: Vec<Vec<SignatureRecid>> = Vec::new();
    let mut m: usize = 0;
    while m < messages.len()
        invariant
            spec_valid_params(total_parties, total_threshold),
            local_key_vec@.len() == total_parties,
            m <= messages@.len(),
            rows@.len() == m,
            forall|i: int|
                0 <= i < rows@.len() ==> #[trigger] rows@[i]@.len() == total_threshold as nat + 1,
        decreases messages@.len() - m,
    {
        let mut offline_stage_vec = match compute_offline_signing(
            local_key_vec,
            total_parties,
            total_threshold,
        ) {
            Ok(stages) => stages,
            Err(e) => {
                return Err(e);
            },
        };
        let mut presigs = match collect_presignatures(&mut offline_stage_vec) {
            Ok(set) => set,
            Err(e) => {
                return Err(e);
            },
        };
        let digest = digest_message(&messages[m]);
        let sigs = match sign_message(&digest, &mut presigs, total_threshold) {
            Ok(sigs) => sigs,
            Err(e) => {
                return Err(e);
            },
        };
        rows.push(sigs);
        m = m + 1;
    }
    Ok(rows)
}

} // verus!
