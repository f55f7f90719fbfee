//! Message routing: who receives what.
//!
//! Parties are stored in a vector; the party with id `i` (ids are 1-based)
//! sits at storage position `i - 1`.  That translation happens in exactly
//! one place, [`position_of_id`].  Broadcast fan-out is computed by
//! [`broadcast_recipients`]; point-to-point targets are translated by
//! [`p2p_positions`].  The delivery laws — a broadcast never returns to its
//! sender, and a full mesh of targeted messages reaches every other party
//! exactly once — are proved below over these functions' results.

use vstd::prelude::*;
use crate::errors::SessionError;

verus! {

/// The storage positions that receive a broadcast sent by the party at
/// position `k`, in ascending order: every position below `n` except `k`.
pub open spec fn spec_broadcast_recipients(n: int, k: int) -> Seq<int> {
    Seq::new((n - 1) as nat, |i: int| if i < k { i } else { i + 1 })
}

/// The recipient positions for a broadcast from the party at position `k`,
/// among `n` parties: all positions except the sender's, ascending.
pub fn broadcast_recipients(n: usize, k: usize) -> (recipients: Vec<usize>)
    requires
        k < n,
    ensures
        recipients@.len() == n - 1,
        forall|i: int|
            0 <= i < recipients@.len() ==> recipients@[i] == spec_broadcast_recipients(
                n as int,
                k as int,
            )[i],
        forall|i: int| 0 <= i < recipients@.len() ==> recipients@[i] < n,
{
    let mut recipients: Vec<usize> = Vec::new();
    let mut p: usize = 0;
    while p < n
        invariant
            p <= n,
            k < n,
            recipients@.len() == if p <= k {
                p as int
            } else {
                p - 1
            },
            forall|i: int|
                0 <= i < recipients@.len() ==> recipients@[i] == spec_broadcast_recipients(
                    n as int,
                    k as int,
                )[i],
            forall|i: int| 0 <= i < recipients@.len() ==> recipients@[i] < n,
        decreases n - p,
    {
        if p != k {
            recipients.push(p);
        }
        p = p + 1;
    }
    recipients
}

/// A broadcast never returns to its sender, and it reaches every other
/// party exactly once: position `p` occurs in the fan-out of sender `k`
/// at exactly one index when `p != k`, and at none when `p == k`.
pub proof fn lemma_broadcast_delivery(n: int, k: int, p: int)
    requires
        0 <= k < n,
        0 <= p < n,
    ensures
        p != k ==> exists|i: int|
            0 <= i < n - 1 && #[trigger] spec_broadcast_recipients(n, k)[i] == p,
        forall|i: int| 0 <= i < n - 1 ==> #[trigger] spec_broadcast_recipients(n, k)[i] != k,
        forall|i: int, j: int|
            0 <= i < n - 1 && 0 <= j < n - 1 && #[trigger] spec_broadcast_recipients(n, k)[i]
                == #[trigger] spec_broadcast_recipients(n, k)[j] ==> i == j,
{
    if p != k {
        let w: int = if p < k {
            p
        } else {
            p - 1
        };
        assert(spec_broadcast_recipients(n, k)[w] == p);
    }
}

/// The one place where a 1-based party id is translated to its storage
/// position.  Ids outside `1..=n` name no active party.
pub fn position_of_id(id: u16, n: u16) -> (r: Result<usize, SessionError>)
    ensures
        1 <= id <= n ==> r == Ok::<usize, SessionError>((id - 1) as usize),
        !(1 <= id <= n) ==> r == Err::<usize, SessionError>(SessionError::ConfigurationError),
{
    if 1 <= id && id <= n {
        Ok((id - 1) as usize)
    } else {
        Err(SessionError::ConfigurationError)
    }
}

/// A targeted message's addressing is valid when it names an explicit
/// recipient id among the `n` active parties.
pub open spec fn valid_target(target: Option<u16>, n: int) -> bool {
    match target {
        Some(id) => 1 <= id <= n,
        None => false,
    }
}

/// The storage position a valid target translates to.
pub open spec fn spec_target_position(target: Option<u16>, n: int) -> int {
    match target {
        Some(id) => id - 1,
        None => -1,
    }
}

/// Translates a round's targeted recipient ids to storage positions.
/// Succeeds exactly when every message names an existing recipient; the
/// translation is position = id - 1, applied through [`position_of_id`].
pub fn p2p_positions(targets: &Vec<Option<u16>>, n: u16) -> (r: Result<Vec<usize>, SessionError>)
    ensures
        r is Ok <==> (forall|i: int|
            0 <= i < targets@.len() ==> valid_target(#[trigger] targets@[i], n as int)),
        r matches Ok(positions) ==> positions@.len() == targets@.len() && (forall|i: int|
            0 <= i < targets@.len() ==> #[trigger] positions@[i] == spec_target_position(
                targets@[i],
                n as int,
            ) && positions@[i] < n),
        r is Err ==> r == Err::<Vec<usize>, SessionError>(SessionError::ConfigurationError),
{
    let mut positions: Vec<usize> = Vec::new();
    let mut i: usize = 0;
    while i < targets.len()
        invariant
            i <= targets@.len(),
            positions@.len() == i as int,
            forall|j: int| 0 <= j < i ==> valid_target(#[trigger] targets@[j], n as int),
            forall|j: int|
                0 <= j < i ==> #[trigger] positions@[j] == spec_target_position(
                    targets@[j],
                    n as int,
                ) && positions@[j] < n,
        decreases targets@.len() - i,
    {
        match targets[i] {
            Some(id) => {
                match position_of_id(id, n) {
                    Ok(pos) => {
                        positions.push(pos);
                    },
                    Err(e) => {
                        return Err(e);
                    },
                }
            },
            None => {
                return Err(SessionError::ConfigurationError);
            },
        }
        i = i + 1;
    }
    Ok(positions)
}

/// The targeted ids of a sender at position `s` that addresses every other
/// party once, in ascending id order: all ids in `1..=n` except `s + 1`.
pub open spec fn spec_mesh_targets(n: int, s: int) -> Seq<Option<u16>> {
    Seq::new((n - 1) as nat, |i: int| if i < s {
        Some((i + 1) as u16)
    } else {
        Some((i + 2) as u16)
    })
}

/// Point-to-point delivery of a full mesh: when the sender at position `s`
/// targets every other party's id exactly once, the translated positions
/// are exactly the broadcast fan-out of `s` — every position except `s`,
/// each exactly once (by [`lemma_broadcast_delivery`]).
pub proof fn lemma_p2p_full_mesh(n: int, s: int)
    requires
        0 <= s < n <= u16::MAX,
    ensures
        forall|i: int|
            0 <= i < n - 1 ==> valid_target(#[trigger] spec_mesh_targets(n, s)[i], n),
        forall|i: int|
            0 <= i < n - 1 ==> #[trigger] spec_target_position(spec_mesh_targets(n, s)[i], n)
                == spec_broadcast_recipients(n, s)[i],
{
}

} // verus!
