//! Unit tests for the phase round tables and their queue offsets.

use mpc_session::rounds::{
    keygen_round_table, offline_round_table, queue_offset, AddressingMode,
};

#[test]
fn keygen_table_shape_for_four_parties() {
    let table = keygen_round_table(4);
    assert_eq!(table.len(), 4);
    assert_eq!(table[0].mode, AddressingMode::Broadcast);
    assert_eq!(table[0].msgs_per_party, 1);
    assert_eq!(table[1].mode, AddressingMode::Broadcast);
    assert_eq!(table[1].msgs_per_party, 1);
    assert_eq!(table[2].mode, AddressingMode::PointToPoint);
    assert_eq!(table[2].msgs_per_party, 3);
    assert_eq!(table[3].mode, AddressingMode::Broadcast);
    assert_eq!(table[3].msgs_per_party, 1);
}

#[test]
fn keygen_queue_offsets_for_four_parties() {
    // Rounds 1 and 2 sit at queue positions 0 and 1; round 3 occupies the
    // n - 1 positions starting at 2; round 4 sits at position n + 1.
    let table = keygen_round_table(4);
    assert_eq!(queue_offset(&table, 0), 0);
    assert_eq!(queue_offset(&table, 1), 1);
    assert_eq!(queue_offset(&table, 2), 2);
    assert_eq!(queue_offset(&table, 3), 5);
    assert_eq!(queue_offset(&table, 4), 6);
}

#[test]
fn offline_table_shape_for_threshold_two() {
    let table = offline_round_table(2);
    assert_eq!(table.len(), 6);
    assert_eq!(table[0].mode, AddressingMode::Broadcast);
    assert_eq!(table[1].mode, AddressingMode::PointToPoint);
    assert_eq!(table[1].msgs_per_party, 2);
    assert_eq!(table[2].mode, AddressingMode::Broadcast);
    assert_eq!(table[3].mode, AddressingMode::Broadcast);
    assert_eq!(table[4].mode, AddressingMode::Broadcast);
    assert_eq!(table[5].mode, AddressingMode::Broadcast);
}

#[test]
fn offline_queue_offsets_for_threshold_two() {
    // Round 1 at position 0, the point-to-point block at 1..=t, then the
    // four broadcast rounds at t + 1 through t + 4.
    let table = offline_round_table(2);
    assert_eq!(queue_offset(&table, 0), 0);
    assert_eq!(queue_offset(&table, 1), 1);
    assert_eq!(queue_offset(&table, 2), 3);
    assert_eq!(queue_offset(&table, 3), 4);
    assert_eq!(queue_offset(&table, 4), 5);
    assert_eq!(queue_offset(&table, 5), 6);
}
