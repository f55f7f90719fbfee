//! The key-generation phase: round driving and message routing for `n`
//! parties.
//!
//! One control flow advances all parties.  For every round, first all
//! parties' outgoing messages are collected, then all of them are
//! delivered, and only then does any party advance — the ordering that the
//! protocol requires.  The engines themselves are opaque; what is verified
//! is that every delivery goes to a correct recipient position, that the
//! round table's queue offsets are used consistently, and that the party
//! collection keeps its size throughout.

use vstd::prelude::*;
use multi_party_ecdsa::protocols::multi_party_ecdsa::gg_2020::state_machine::keygen::{
    Keygen, ProtocolMessage,
};
use round_based::Msg;
use crate::engine::{
    keygen_handle_incoming, keygen_message_queue, keygen_msg_clone, keygen_msg_receiver,
    keygen_new, keygen_pick_output, keygen_proceed, KeyShare,
};
use crate::errors::SessionError;
use crate::rounds::{keygen_round_table, queue_offset};
use crate::router::{broadcast_recipients, p2p_positions};

verus! {

/// Valid session parameters: a threshold of at least one, and enough
/// parties for a signer subset of `t + 1`, i.e. `n >= t + 1 >= 2`.
pub open spec fn spec_valid_params(n: u16, t: u16) -> bool {
    n >= 2 && 1 <= t && t < n
}

/// Checks the session parameters: `n >= t + 1 >= 2`.
pub fn valid_params(n: u16, t: u16) -> (r: bool)
    ensures
        r == spec_valid_params(n, t),
{
    n >= 2 && 1 <= t && t < n
}

/// Advances every party by one engine step.  A step failure in any party
/// is fatal to the session.
fn proceed_all(keygen_vec: &mut Vec<Keygen>) -> (r: Result<(), SessionError>)
    ensures
        final(keygen_vec)@.len() == old(keygen_vec)@.len(),
        r is Err ==> r == Err::<(), SessionError>(SessionError::ProtocolError),
{
    let n = keygen_vec.len();
    let mut k: usize = 0;
    while k < n
        invariant
            keygen_vec@.len() == n,
            n == old(keygen_vec)@.len(),
            k <= n,
        decreases n - k,
    {
        let mut engine = keygen_vec.remove(k);
        let res = keygen_proceed(&mut engine);
        keygen_vec.insert(k, engine);
        match res {
            Ok(_) => {},
            Err(_) => {
                return Err(SessionError::ProtocolError);
            },
        }
        k = k + 1;
    }
    Ok(())
}

/// Collects the one message every party emitted at queue position
/// `offset`, in party order.  A party whose queue is shorter has not
/// produced its round output: that is a `ProtocolError`.
fn collect_round(keygen_vec: &mut Vec<Keygen>, offset: usize) -> (r: Result<
    Vec<Msg<ProtocolMessage>>,
    SessionError,
>)
    ensures
        final(keygen_vec)@.len() == old(keygen_vec)@.len(),
        r matches Ok(msgs) ==> msgs@.len() == old(keygen_vec)@.len(),
        r is Err ==> r == Err::<Vec<Msg<ProtocolMessage>>, SessionError>(
            SessionError::ProtocolError,
        ),
{
    let n = keygen_vec.len();
    let mut msgs: Vec<Msg<ProtocolMessage>> = Vec::new();
    let mut k: usize = 0;
    while k < n
        invariant
            keygen_vec@.len() == n,
            n == old(keygen_vec)@.len(),
            msgs@.len() == k,
            k <= n,
        decreases n - k,
    {
        let mut engine = keygen_vec.remove(k);
        let queue = keygen_message_queue(&mut engine);
        keygen_vec.insert(k, engine);
        if offset >= queue.len() {
            return Err(SessionError::ProtocolError);
        }
        msgs.push(keygen_msg_clone(&queue[offset]));
        k = k + 1;
    }
    Ok(msgs)
}

/// Collects each party's block of `count` point-to-point messages starting
/// at queue position `offset`, one block per party, in party order.
fn collect_p2p(keygen_vec: &mut Vec<Keygen>, offset: usize, count: usize) -> (r: Result<
    Vec<Vec<Msg<ProtocolMessage>>>,
    SessionError,
>)
    ensures
        final(keygen_vec)@.len() == old(keygen_vec)@.len(),
        r matches Ok(blocks) ==> blocks@.len() == old(keygen_vec)@.len(),
        r is Err ==> r == Err::<Vec<Vec<Msg<ProtocolMessage>>>, SessionError>(
            SessionError::ProtocolError,
        ),
{
    let n = keygen_vec.len();
    let mut blocks: Vec<Vec<Msg<ProtocolMessage>>> = Vec::new();
    let mut k: usize = 0;
    while k < n
        invariant
            keygen_vec@.len() == n,
            n == old(keygen_vec)@.len(),
            blocks@.len() == k,
            k <= n,
        decreases n - k,
    {
        let mut engine = keygen_vec.remove(k);
        let queue = keygen_message_queue(&mut engine);
        keygen_vec.insert(k, engine);
        if queue.len() < offset || queue.len() - offset < count {
            return Err(SessionError::ProtocolError);
        }
        let mut block: Vec<Msg<ProtocolMessage>> = Vec::new();
        let mut idx: usize = 0;
        while idx < count
            invariant
                block@.len() == idx,
                idx <= count,
                offset + count <= queue@.len(),
                queue@.len() <= usize::MAX,
            decreases count - idx,
        {
            block.push(keygen_msg_clone(&queue[offset + idx]));
            idx = idx + 1;
        }
        blocks.push(block);
        k = k + 1;
    }
    Ok(blocks)
}

/// Delivers one round of broadcast messages: the message of the party at
/// position `k` goes to every other party exactly once, never back to its
/// sender, in ascending position order.
pub fn broadcast_msg(msgs_vec: &Vec<Msg<ProtocolMessage>>, keygen_vec: &mut Vec<Keygen>) -> (r:
    Result<(), SessionError>)
    requires
        msgs_vec@.len() == old(keygen_vec)@.len(),
    ensures
        final(keygen_vec)@.len() == old(keygen_vec)@.len(),
        r is Err ==> r == Err::<(), SessionError>(SessionError::ProtocolError),
{
    let n = keygen_vec.len();
    let mut k: usize = 0;
    while k < n
        invariant
            keygen_vec@.len() == n,
            n == old(keygen_vec)@.len(),
            msgs_vec@.len() == n,
            k <= n,
        decreases n - k,
    {
        let recipients = broadcast_recipients(n, k);
        let mut r_i: usize = 0;
        while r_i < recipients.len()
            invariant
                keygen_vec@.len() == n,
                n == old(keygen_vec)@.len(),
                msgs_vec@.len() == n,
                k < n,
                r_i <= recipients@.len(),
                forall|x: int| 0 <= x < recipients@.len() ==> #[trigger] recipients@[x] < n,
            decreases recipients@.len() - r_i,
        {
            let pos = recipients[r_i];
            let msg = keygen_msg_clone(&msgs_vec[k]);
            let mut engine = keygen_vec.remove(pos);
            let res = keygen_handle_incoming(&mut engine, msg);
            keygen_vec.insert(pos, engine);
            match res {
                Ok(_) => {},
                Err(_) => {
                    return Err(SessionError::ProtocolError);
                },
            }
            r_i = r_i + 1;
        }
        k = k + 1;
    }
    Ok(())
}

/// Delivers one round of point-to-point messages: each message goes to the
/// storage position of its explicit recipient id, translated through the
/// router.  A target that names no active party is a `ConfigurationError`.
pub fn p2p_msg(p2p_msgs: &Vec<Vec<Msg<ProtocolMessage>>>, keygen_vec: &mut Vec<Keygen>) -> (r:
    Result<(), SessionError>)
    requires
        old(keygen_vec)@.len() <= u16::MAX,
    ensures
        final(keygen_vec)@.len() == old(keygen_vec)@.len(),
        r is Err ==> r == Err::<(), SessionError>(SessionError::ConfigurationError) || r
            == Err::<(), SessionError>(SessionError::ProtocolError),
{
    let n_usize = keygen_vec.len();
    let n = n_usize as u16;
    let mut s: usize = 0;
    while s < p2p_msgs.len()
        invariant
            keygen_vec@.len() == n_usize,
            n_usize == old(keygen_vec)@.len(),
            n_usize == n,
            s <= p2p_msgs@.len(),
        decreases p2p_msgs@.len() - s,
    {
        let sender_msgs = &p2p_msgs[s];
        let mut targets: Vec<Option<u16>> = Vec::new();
        let mut i: usize = 0;
        while i < sender_msgs.len()
            invariant
                targets@.len() == i,
                i <= sender_msgs@.len(),
            decreases sender_msgs@.len() - i,
        {
            targets.push(keygen_msg_receiver(&sender_msgs[i]));
            i = i + 1;
        }
        let positions = match p2p_positions(&targets, n) {
            Ok(positions) => positions,
            Err(e) => {
                return Err(e);
            },
        };
        let mut d: usize = 0;
        while d < positions.len()
            invariant
                keygen_vec@.len() == n_usize,
                n_usize == old(keygen_vec)@.len(),
                n_usize == n,
                d <= positions@.len(),
                positions@.len() == sender_msgs@.len(),
                forall|x: int| 0 <= x < positions@.len() ==> #[trigger] positions@[x] < n,
            decreases positions@.len() - d,
        {
            let pos = positions[d];
            let msg = keygen_msg_clone(&sender_msgs[d]);
            let mut engine = keygen_vec.remove(pos);
            let res = keygen_handle_incoming(&mut engine, msg);
            keygen_vec.insert(pos, engine);
            match res {
                Ok(_) => {},
                Err(_) => {
                    return Err(SessionError::ProtocolError);
                },
            }
            d = d + 1;
        }
        s = s + 1;
    }
    Ok(())
}

/// Runs the whole key-generation phase for `total_parties` parties with
/// threshold `total_threshold`: creates one engine per party, drives the
/// four rounds of the phase's round table (broadcast, broadcast,
/// point-to-point, broadcast), and extracts every party's key share.
/// Invalid parameters are refused with `ConfigurationError`; on success
/// there is exactly one key share per party, in party order.
pub fn run_keygen(total_parties: u16, total_threshold: u16) -> (r: Result<
    Vec<KeyShare>,
    SessionError,
>)
    ensures
        !spec_valid_params(total_parties, total_threshold) ==> r == Err::<
            Vec<KeyShare>,
            SessionError,
        >(SessionError::ConfigurationError),
        r matches Ok(shares) ==> spec_valid_params(total_parties, total_threshold)
            && shares@.len() == total_parties as nat,
{
    if !valid_params(total_parties, total_threshold) {
        return Err(SessionError::ConfigurationError);
    }
    let table = keygen_round_table(total_parties);

    let mut keygen_vec: Vec<Keygen> = Vec::new();
    let mut idx: usize = 0;
    while idx < total_parties as usize
        invariant
            spec_valid_params(total_parties, total_threshold),
            idx <= total_parties,
            keygen_vec@.len() == idx,
        decreases total_parties - idx,
    {
        match keygen_new((idx + 1) as u16, total_threshold, total_parties) {
            Ok(engine) => {
                keygen_vec.push(engine);
            },
            Err(_) => {
                return Err(SessionError::ConfigurationError);
            },
        }
        idx = idx + 1;
    }

    // Round 1: every engine computes its first-round output, then the
    // collected messages are broadcast.
    match proceed_all(&mut keygen_vec) {
        Ok(_) => {},
        Err(e) => {
            return Err(e);
        },
    }
    let offset1 = queue_offset(&table, 0);
    let msgs1 = match collect_round(&mut keygen_vec, offset1) {
        Ok(msgs) => msgs,
        Err(e) => {
            return Err(e);
        },
    };
    match broadcast_msg(&msgs1, &mut keygen_vec) {
        Ok(_) => {},
        Err(e) => {
            return Err(e);
        },
    }

    // Round 2: the engines queued their second-round output while handling
    // round 1; broadcast it, then advance.
    let offset2 = queue_offset(&table, 1);
    let msgs2 = match collect_round(&mut keygen_vec, offset2) {
        Ok(msgs) => msgs,
        Err(e) => {
            return Err(e);
        },
    };
    match broadcast_msg(&msgs2, &mut keygen_vec) {
        Ok(_) => {},
        Err(e) => {
            return Err(e);
        },
    }
    match proceed_all(&mut keygen_vec) {
        Ok(_) => {},
        Err(e) => {
            return Err(e);
        },
    }

    // Round 3: each party addresses every other party point-to-point.
    let offset3 = queue_offset(&table, 2);
    let count3 = (total_parties - 1) as usize;
    let blocks = match collect_p2p(&mut keygen_vec, offset3, count3) {
        Ok(blocks) => blocks,
        Err(e) => {
            return Err(e);
        },
    };
    match p2p_msg(&blocks, &mut keygen_vec) {
        Ok(_) => {},
        Err(e) => {
            return Err(e);
        },
    }
    match proceed_all(&mut keygen_vec) {
        Ok(_) => {},
        Err(e) => {
            return Err(e);
        },
    }

    // Round 4: final broadcast, then the last advance to completion.
    let offset4 = queue_offset(&table, 3);
    let msgs4 = match collect_round(&mut keygen_vec, offset4) {
        Ok(msgs) => msgs,
        Err(e) => {
            return Err(e);
        },
    };
    match broadcast_msg(&msgs4, &mut keygen_vec) {
        Ok(_) => {},
        Err(e) => {
            return Err(e);
        },
    }
    match proceed_all(&mut keygen_vec) {
        Ok(_) => {},
        Err(e) => {
            return Err(e);
        },
    }

    // Finalization: every party must have reached its output.
    let n = keygen_vec.len();
    let mut shares: Vec<KeyShare> = Vec::new();
    let mut k: usize = 0;
    while k < n
        invariant
            spec_valid_params(total_parties, total_threshold),
            keygen_vec@.len() == n,
            shares@.len() == k,
            k <= n,
        decreases n - k,
    {
        let mut engine = keygen_vec.remove(k);
        let out = keygen_pick_output(&mut engine);
        keygen_vec.insert(k, engine);
        match out {
            Some(res) => match res {
                Ok(share) => {
                    shares.push(share);
                },
                Err(_) => {
                    return Err(SessionError::ProtocolError);
                },
            },
            None => {
                return Err(SessionError::SessionIncomplete);
            },
        }
        k = k + 1;
    }
    Ok(shares)
}

} // verus!
