//! End-to-end protocol runs with the real cryptographic engines: key
//! generation, offline signing, and signature combination.

use curv::elliptic::curves::{Point, Secp256k1};
use mpc_session::errors::SessionError;
use mpc_session::keygen_session::run_keygen;
use mpc_session::signing::{
    complete_signature, create_partial, digest_message, sign_message,
};
use mpc_session::signing_session::{collect_presignatures, compute_offline_signing, run_signing};
use multi_party_ecdsa::protocols::multi_party_ecdsa::gg_2020::party_i::{verify, SignatureRecid};
use round_based::StateMachine;

fn sig_eq(a: &SignatureRecid, b: &SignatureRecid) -> bool {
    a.r == b.r && a.s == b.s && a.recid == b.recid
}

#[test]
fn concrete_session_four_parties() {
    // Key generation over n = 4, t = 2: one key share per party, all
    // sharing one identical public key.
    let shares = run_keygen(4, 2).expect("keygen should complete");
    assert_eq!(shares.len(), 4);
    let pk = shares[0].public_key_bytes();
    for share in &shares {
        assert_eq!(share.public_key_bytes(), pk);
    }

    // Signing the hash of "hello" over the signer subset {1, 2, 3}: each
    // of the three signers combines independently and all three
    // signatures are byte-identical.
    let rows = run_signing(&shares, 4, 2, &vec![b"hello".to_vec()]).expect(
        "signing should complete",
    );
    assert_eq!(rows.len(), 1);
    let sigs = &rows[0];
    assert_eq!(sigs.len(), 3);
    assert!(sig_eq(&sigs[0], &sigs[1]));
    assert!(sig_eq(&sigs[0], &sigs[2]));

    // The combined signature verifies under the shared public key.
    let point = Point::<Secp256k1>::from_bytes(&pk).expect("public key bytes decode");
    let digest = digest_message(&b"hello".to_vec());
    assert!(verify(&sigs[0], &point, &digest).is_ok());
}

#[test]
fn too_few_peer_shares_and_presignature_reuse_are_refused() {
    let shares = run_keygen(2, 1).expect("keygen should complete");

    // Drive one offline stage and take the completed outputs directly.
    let mut stages = compute_offline_signing(&shares, 2, 1).expect("offline stage");
    let mut outputs = Vec::new();
    for stage in &mut stages {
        outputs.push(stage.pick_output().expect("output ready").expect("no engine error"));
    }
    let digest = digest_message(&b"hello".to_vec());

    // The outputs were already taken out of the engines above, so
    // finalizing through the library now hits an engine error.
    let double_pick = collect_presignatures(&mut stages);
    assert!(matches!(double_pick, Err(SessionError::ProtocolError)));

    // Combination with t - 1 peer shares fails and never yields a
    // signature.
    let (own_state, own_share) = create_partial(&digest, &outputs[0]).expect("partial share");
    let short = complete_signature(own_state, &Vec::new(), 1);
    assert!(matches!(short, Err(SessionError::CombinationError)));

    // With exactly t peer shares the same signer succeeds.
    let (peer_state, _peer_share) = create_partial(&digest, &outputs[1]).expect("partial share");
    let full = complete_signature(peer_state, &vec![own_share], 1);
    assert!(full.is_ok());

    // A presignature set is consumed by its first signing run; a second
    // run over the same set is refused, even for a fresh message.
    let mut stages2 = compute_offline_signing(&shares, 2, 1).expect("offline stage");
    let mut set = collect_presignatures(&mut stages2).expect("presignatures");
    assert!(!set.is_used());
    assert_eq!(set.count(), 2);
    let first = sign_message(&digest, &mut set, 1);
    assert!(first.is_ok());
    assert_eq!(first.unwrap().len(), 2);
    assert!(set.is_used());
    let digest2 = digest_message(&b"there".to_vec());
    let second = sign_message(&digest2, &mut set, 1);
    assert!(matches!(second, Err(SessionError::CombinationError)));
}
