//! Fast tests for the signing-side logic that needs no protocol run:
//! digests, parameter validation, the signer subset, and the single-use
//! discipline of presignature sets.

use curv::arithmetic::Converter;
use curv::BigInt;
use mpc_session::errors::SessionError;
use mpc_session::keygen_session::{run_keygen, valid_params};
use mpc_session::signing::{digest_bytes, digest_message, sign_message, PresignatureSet};
use mpc_session::signing_session::{run_signing, signer_subset};

#[test]
fn digest_is_sha256_of_message() {
    let d = digest_bytes(&b"hello".to_vec());
    let expected = <sha2::Sha256 as sha2::Digest>::digest(b"hello");
    assert_eq!(d.len(), 32);
    assert_eq!(d.as_slice(), expected.as_slice());
}

#[test]
fn digest_message_reads_digest_as_big_endian_integer() {
    let d = digest_message(&b"hello".to_vec());
    let hash = <sha2::Sha256 as sha2::Digest>::digest(b"hello");
    let expected = BigInt::from_bytes(hash.as_slice());
    assert_eq!(d, expected);
}

#[test]
fn parameter_validation() {
    assert!(valid_params(4, 2));
    assert!(valid_params(2, 1));
    assert!(!valid_params(1, 1));
    assert!(!valid_params(4, 0));
    assert!(!valid_params(4, 4));
    assert!(!valid_params(0, 0));
}

#[test]
fn invalid_parameters_are_a_configuration_error() {
    assert!(matches!(run_keygen(1, 1), Err(SessionError::ConfigurationError)));
    assert!(matches!(run_keygen(4, 0), Err(SessionError::ConfigurationError)));
    assert!(matches!(run_keygen(4, 4), Err(SessionError::ConfigurationError)));
}

#[test]
fn signing_without_key_shares_is_a_configuration_error() {
    let r = run_signing(&Vec::new(), 4, 2, &vec![b"hello".to_vec()]);
    assert!(matches!(r, Err(SessionError::ConfigurationError)));
}

#[test]
fn signer_subset_is_first_threshold_plus_one_ids() {
    assert_eq!(signer_subset(1), vec![1, 2]);
    assert_eq!(signer_subset(2), vec![1, 2, 3]);
    assert_eq!(signer_subset(5), vec![1, 2, 3, 4, 5, 6]);
}

#[test]
fn presignature_set_is_consumed_by_its_first_run() {
    // A set of the wrong size is refused, but the refusal still consumes
    // the set: reuse is an explicit error, never silent.
    let mut set = PresignatureSet::new(Vec::new());
    let digest = digest_message(&b"hello".to_vec());
    assert!(!set.is_used());
    assert_eq!(set.count(), 0);
    let first = sign_message(&digest, &mut set, 2);
    assert!(matches!(first, Err(SessionError::CombinationError)));
    assert!(set.is_used());
    let second = sign_message(&digest, &mut set, 2);
    assert!(matches!(second, Err(SessionError::CombinationError)));
    assert!(set.is_used());
    assert_eq!(set.count(), 0);
}
