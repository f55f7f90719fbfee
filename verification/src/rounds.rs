//! Fixed per-phase round tables.
//!
//! Each protocol phase has a fixed number of rounds; a round is described by
//! its addressing mode and by how many messages every active party emits in
//! it.  A party's outgoing queue grows monotonically, so the messages of
//! round `r` sit at a fixed block of queue positions: the block starts at
//! the sum of the message counts of all earlier rounds.  Computing that
//! offset from the table (rather than from per-round magic numbers) is what
//! this module verifies.

use vstd::prelude::*;

verus! {

/// How the messages of one round are addressed.
#[derive(Clone, Copy, Debug, PartialEq, Eq, Structural)]
pub enum AddressingMode {
    /// One message per party, delivered to every other party.
    Broadcast,
    /// Messages that each carry an explicit recipient id.
    PointToPoint,
}

/// One round of a protocol phase: its addressing mode and the number of
/// messages each party emits in it.
#[derive(Clone, Copy, Debug, PartialEq, Eq, Structural)]
pub struct RoundSpec {
    pub mode: AddressingMode,
    pub msgs_per_party: usize,
}

/// The queue position at which round `r` (0-based) of a phase starts: the
/// total number of messages emitted in all earlier rounds.
pub open spec fn spec_queue_offset(table: Seq<RoundSpec>, r: int) -> int
    decreases r,
{
    if r <= 0 {
        0
    } else {
        spec_queue_offset(table, r - 1) + table[r - 1].msgs_per_party
    }
}

/// Every per-round message count in `table` is at most `bound`.
pub open spec fn counts_bounded(table: Seq<RoundSpec>, bound: int) -> bool {
    forall|j: int| 0 <= j < table.len() ==> #[trigger] table[j].msgs_per_party <= bound
}

proof fn lemma_queue_offset_bounded(table: Seq<RoundSpec>, r: int, bound: int)
    requires
        0 <= r <= table.len(),
        0 <= bound,
        counts_bounded(table, bound),
    ensures
        0 <= spec_queue_offset(table, r) <= r * bound,
    decreases r,
{
    if r > 0 {
        lemma_queue_offset_bounded(table, r - 1, bound);
        assert((r - 1) * bound == r * bound - bound) by (nonlinear_arith);
    }
}

/// The round table of the key-generation phase for `n` parties: three
/// broadcast rounds of one message each, with a point-to-point round of
/// `n - 1` messages per party in third position.
pub fn keygen_round_table(n: u16) -> (table: Vec<RoundSpec>)
    requires
        n >= 2,
    ensures
        table@.len() == 4,
        table@[0] == (RoundSpec { mode: AddressingMode::Broadcast, msgs_per_party: 1 }),
        table@[1] == (RoundSpec { mode: AddressingMode::Broadcast, msgs_per_party: 1 }),
        table@[2] == (RoundSpec {
            mode: AddressingMode::PointToPoint,
            msgs_per_party: (n - 1) as usize,
        }),
        table@[3] == (RoundSpec { mode: AddressingMode::Broadcast, msgs_per_party: 1 }),
        counts_bounded(table@, u16::MAX as int),
{
    let mut table: Vec<RoundSpec> = Vec::new();
    table.push(RoundSpec { mode: AddressingMode::Broadcast, msgs_per_party: 1 });
    table.push(RoundSpec { mode: AddressingMode::Broadcast, msgs_per_party: 1 });
    table.push(RoundSpec { mode: AddressingMode::PointToPoint, msgs_per_party: (n - 1) as usize });
    table.push(RoundSpec { mode: AddressingMode::Broadcast, msgs_per_party: 1 });
    table
}

/// The round table of the offline signing phase for a signer subset of
/// `t + 1` parties: a broadcast round, a point-to-point round of `t`
/// messages per signer, then four more broadcast rounds.
pub fn offline_round_table(t: u16) -> (table: Vec<RoundSpec>)
    requires
        t >= 1,
    ensures
        table@.len() == 6,
        table@[0] == (RoundSpec { mode: AddressingMode::Broadcast, msgs_per_party: 1 }),
        table@[1] == (RoundSpec { mode: AddressingMode::PointToPoint, msgs_per_party: t as usize }),
        table@[2] == (RoundSpec { mode: AddressingMode::Broadcast, msgs_per_party: 1 }),
        table@[3] == (RoundSpec { mode: AddressingMode::Broadcast, msgs_per_party: 1 }),
        table@[4] == (RoundSpec { mode: AddressingMode::Broadcast, msgs_per_party: 1 }),
        table@[5] == (RoundSpec { mode: AddressingMode::Broadcast, msgs_per_party: 1 }),
        counts_bounded(table@, u16::MAX as int),
{
    let mut table: Vec<RoundSpec> = Vec::new();
    table.push(RoundSpec { mode: AddressingMode::Broadcast, msgs_per_party: 1 });
    table.push(RoundSpec { mode: AddressingMode::PointToPoint, msgs_per_party: t as usize });
    table.push(RoundSpec { mode: AddressingMode::Broadcast, msgs_per_party: 1 });
    table.push(RoundSpec { mode: AddressingMode::Broadcast, msgs_per_party: 1 });
    table.push(RoundSpec { mode: AddressingMode::Broadcast, msgs_per_party: 1 });
    table.push(RoundSpec { mode: AddressingMode::Broadcast, msgs_per_party: 1 });
    table
}

/// The queue position at which round `r` (0-based) starts, computed by
/// summing the earlier rounds' message counts.
pub fn queue_offset(table: &Vec<RoundSpec>, r: usize) -> (offset: usize)
    requires
        r <= table@.len(),
        table@.len() <= 8,
        counts_bounded(table@, u16::MAX as int),
    ensures
        offset == spec_queue_offset(table@, r as int),
{
    proof {
        lemma_queue_offset_bounded(table@, r as int, u16::MAX as int);
    }
    let mut offset: usize = 0;
    let mut j: usize = 0;
    while j < r
        invariant
            j <= r <= table@.len(),
            table@.len() <= 8,
            counts_bounded(table@, u16::MAX as int),
            offset == spec_queue_offset(table@, j as int),
            offset <= j * (u16::MAX as int),
        decreases r - j,
    {
        proof {
            lemma_queue_offset_bounded(table@, j as int + 1, u16::MAX as int);
        }
        offset = offset + table[j].msgs_per_party;
        j = j + 1;
    }
    offset
}

} // verus!
