//! Unit tests for the router: id-to-position translation, broadcast
//! fan-out, and point-to-point target translation.

use mpc_session::errors::SessionError;
use mpc_session::router::{broadcast_recipients, p2p_positions, position_of_id};

#[test]
fn position_of_id_translates_one_based_ids() {
    assert_eq!(position_of_id(1, 4), Ok(0));
    assert_eq!(position_of_id(2, 4), Ok(1));
    assert_eq!(position_of_id(4, 4), Ok(3));
}

#[test]
fn position_of_id_rejects_zero() {
    assert_eq!(position_of_id(0, 4), Err(SessionError::ConfigurationError));
}

#[test]
fn position_of_id_rejects_out_of_range() {
    assert_eq!(position_of_id(5, 4), Err(SessionError::ConfigurationError));
    assert_eq!(position_of_id(1, 0), Err(SessionError::ConfigurationError));
}

#[test]
fn broadcast_skips_sender() {
    assert_eq!(broadcast_recipients(4, 0), vec![1, 2, 3]);
    assert_eq!(broadcast_recipients(4, 1), vec![0, 2, 3]);
    assert_eq!(broadcast_recipients(4, 2), vec![0, 1, 3]);
    assert_eq!(broadcast_recipients(4, 3), vec![0, 1, 2]);
}

#[test]
fn broadcast_of_two_parties() {
    assert_eq!(broadcast_recipients(2, 0), vec![1]);
    assert_eq!(broadcast_recipients(2, 1), vec![0]);
}

#[test]
fn every_party_receives_n_minus_one_broadcasts() {
    // With 4 parties each broadcasting once, every party occurs in exactly
    // the other three senders' fan-outs: 3 deliveries each, none from
    // itself.
    let n: usize = 4;
    let mut received = vec![0usize; n];
    for sender in 0..n {
        for pos in broadcast_recipients(n, sender) {
            assert_ne!(pos, sender);
            received[pos] += 1;
        }
    }
    assert_eq!(received, vec![3, 3, 3, 3]);
}

#[test]
fn p2p_translates_targets() {
    let targets = vec![Some(2), Some(3), Some(4)];
    assert_eq!(p2p_positions(&targets, 4), Ok(vec![1, 2, 3]));
}

#[test]
fn p2p_rejects_unknown_recipient() {
    let targets = vec![Some(2), Some(5)];
    assert_eq!(p2p_positions(&targets, 4), Err(SessionError::ConfigurationError));
}

#[test]
fn p2p_rejects_missing_target() {
    let targets = vec![Some(2), None];
    assert_eq!(p2p_positions(&targets, 4), Err(SessionError::ConfigurationError));
}

#[test]
fn full_mesh_reaches_every_other_party_once() {
    // Each of 4 senders targets every other party's id once; after
    // translation, every party receives exactly one message from each
    // other sender.
    let n: usize = 4;
    let mut received = vec![0usize; n];
    for sender in 0..n {
        let targets: Vec<Option<u16>> = (1..=n as u16)
            .filter(|&id| id != (sender as u16) + 1)
            .map(Some)
            .collect();
        let positions = p2p_positions(&targets, n as u16).expect("valid mesh targets");
        assert_eq!(positions, broadcast_recipients(n, sender));
        for pos in positions {
            assert_ne!(pos, sender);
            received[pos] += 1;
        }
    }
    assert_eq!(received, vec![3, 3, 3, 3]);
}
