//! The trusted boundary around the protocol engines.
//!
//! The cryptographic state machines of `multi_party_ecdsa` (key generation,
//! offline signing, manual signature completion) and their message types
//! are opaque to the verifier.  Every call into them goes through one of
//! the wrappers below; each wrapper's contract states only what the crate's
//! source plainly shows.  Everything around these calls — routing, round
//! sequencing, share selection — is verified against these contracts.

use vstd::prelude::*;
use curv::elliptic::curves::Secp256k1;
use curv::BigInt;
use multi_party_ecdsa::protocols::multi_party_ecdsa::gg_2020::party_i::SignatureRecid;
use multi_party_ecdsa::protocols::multi_party_ecdsa::gg_2020::state_machine::keygen::{
    Keygen, LocalKey, ProtocolMessage,
};
use multi_party_ecdsa::protocols::multi_party_ecdsa::gg_2020::state_machine::keygen::Error as KeygenError;
use multi_party_ecdsa::protocols::multi_party_ecdsa::gg_2020::state_machine::sign::{
    CompletedOfflineStage, OfflineProtocolMessage, OfflineStage, PartialSignature, SignManual,
};
use multi_party_ecdsa::protocols::multi_party_ecdsa::gg_2020::state_machine::sign::Error as OfflineError;
use multi_party_ecdsa::protocols::multi_party_ecdsa::gg_2020::state_machine::sign::SignError;
use round_based::{Msg, StateMachine};

verus! {

#[verifier::external_type_specification]
#[verifier::external_body]
#[verifier::reject_recursive_types(B)]
pub struct ExMsg<B>(Msg<B>);

#[verifier::external_type_specification]
#[verifier::external_body]
pub struct ExKeygen(Keygen);

#[verifier::external_type_specification]
#[verifier::external_body]
pub struct ExProtocolMessage(ProtocolMessage);

#[verifier::external_type_specification]
#[verifier::external_body]
pub struct ExKeygenError(KeygenError);

/// One party's local key share, produced at key-generation completion: the
/// shared public verification key together with this party's private
/// shard.  The shard never leaves the engine; the whole value is opaque to
/// the verifier and only flows back into the offline signing stage.
#[verifier::external_body]
pub struct KeyShare {
    inner: LocalKey<Secp256k1>,
}

impl KeyShare {
    /// Relies on `LocalKey::public_key` and `Point::to_bytes`: the shared
    /// public verification key, in compressed encoding.
    #[verifier::external_body]
    pub fn public_key_bytes(&self) -> (r: Vec<u8>) {
        self.inner.public_key().to_bytes(true).to_vec()
    }
}

#[verifier::external_type_specification]
#[verifier::external_body]
pub struct ExOfflineStage(OfflineStage);

#[verifier::external_type_specification]
#[verifier::external_body]
pub struct ExOfflineProtocolMessage(OfflineProtocolMessage);

#[verifier::external_type_specification]
#[verifier::external_body]
pub struct ExOfflineError(OfflineError);

#[verifier::external_type_specification]
#[verifier::external_body]
pub struct ExCompletedOfflineStage(CompletedOfflineStage);

#[verifier::external_type_specification]
#[verifier::external_body]
pub struct ExSignManual(SignManual);

#[verifier::external_type_specification]
#[verifier::external_body]
pub struct ExPartialSignature(PartialSignature);

#[verifier::external_type_specification]
#[verifier::external_body]
pub struct ExSignError(SignError);

#[verifier::external_type_specification]
#[verifier::external_body]
pub struct ExSignatureRecid(SignatureRecid);

#[verifier::external_type_specification]
#[verifier::external_body]
pub struct ExBigInt(BigInt);

/// Relies on `Keygen::new`: it returns an error exactly when `n < 2`, when
/// `t` is not in `1..n`, or when `i` is not in `1..=n`; the first round's
/// computation is deferred, so nothing else can fail.
#[verifier::external_body]
pub(crate) fn keygen_new(i: u16, t: u16, n: u16) -> (r: Result<Keygen, KeygenError>)
    ensures
        r is Ok <==> (n >= 2 && 1 <= t && t < n && 1 <= i && i <= n),
{
    Keygen::new(i, t, n)
}

/// Relies on `Keygen::proceed` (`round_based::StateMachine`): one local
/// computation step; whether it succeeds depends on the engine's state.
#[verifier::external_body]
pub(crate) fn keygen_proceed(engine: &mut Keygen) -> (r: Result<(), KeygenError>) {
    engine.proceed()
}

/// Relies on `Keygen::message_queue` (`round_based::StateMachine`): the
/// engine's outgoing messages in emission order; the queue only grows, and
/// reading it removes nothing.
#[verifier::external_body]
pub(crate) fn keygen_message_queue(engine: &mut Keygen) -> (r: Vec<Msg<ProtocolMessage>>) {
    engine.message_queue().clone()
}

/// Relies on `Keygen::handle_incoming` (`round_based::StateMachine`): feeds
/// one delivered message to the engine, which rejects unexpected rounds or
/// senders.
#[verifier::external_body]
pub(crate) fn keygen_handle_incoming(engine: &mut Keygen, msg: Msg<ProtocolMessage>) -> (r: Result<
    (),
    KeygenError,
>) {
    engine.handle_incoming(msg)
}

/// Relies on `Keygen::pick_output` (`round_based::StateMachine`): `None`
/// until the engine reaches its final state, then the produced key share.
#[verifier::external_body]
pub(crate) fn keygen_pick_output(engine: &mut Keygen) -> (r: Option<
    Result<KeyShare, KeygenError>,
>) {
    engine.pick_output().map(|out| out.map(|key| KeyShare { inner: key }))
}

/// Relies on the public `receiver` field of `round_based::Msg`: `None`
/// marks a broadcast, `Some(id)` a message for the party with that 1-based
/// id.
#[verifier::external_body]
pub(crate) fn keygen_msg_receiver(msg: &Msg<ProtocolMessage>) -> (r: Option<u16>) {
    msg.receiver
}

/// Relies on the derived `Clone` of `round_based::Msg` and of
/// `ProtocolMessage`, which copy every field; the clone is the same
/// message.
#[verifier::external_body]
pub(crate) fn keygen_msg_clone(msg: &Msg<ProtocolMessage>) -> (r: Msg<ProtocolMessage>)
    ensures
        r == *msg,
{
    msg.clone()
}

/// Relies on `OfflineStage::new` and the derived `Clone` of `LocalKey`:
/// among other checks, `new` returns an error whenever the signer list has
/// fewer than two entries or `i` is not a 1-based index into it.
#[verifier::external_body]
pub(crate) fn offline_new(i: u16, s_l: Vec<u16>, local_key: &KeyShare) -> (r: Result<
    OfflineStage,
    OfflineError,
>)
    ensures
        (s_l@.len() < 2 || i == 0 || i as int > s_l@.len()) ==> r is Err,
{
    OfflineStage::new(i, s_l, local_key.inner.clone())
}

/// Relies on `OfflineStage::proceed` (`round_based::StateMachine`).
#[verifier::external_body]
pub(crate) fn offline_proceed(engine: &mut OfflineStage) -> (r: Result<(), OfflineError>) {
    engine.proceed()
}

/// Relies on `OfflineStage::message_queue` (`round_based::StateMachine`):
/// the outgoing messages in emission order; the queue only grows.
#[verifier::external_body]
pub(crate) fn offline_message_queue(engine: &mut OfflineStage) -> (r: Vec<
    Msg<OfflineProtocolMessage>,
>) {
    engine.message_queue().clone()
}

/// Relies on `OfflineStage::handle_incoming` (`round_based::StateMachine`).
#[verifier::external_body]
pub(crate) fn offline_handle_incoming(
    engine: &mut OfflineStage,
    msg: Msg<OfflineProtocolMessage>,
) -> (r: Result<(), OfflineError>) {
    engine.handle_incoming(msg)
}

/// Relies on `OfflineStage::pick_output` (`round_based::StateMachine`):
/// `None` until the offline stage completes, then the presignature
/// material.
#[verifier::external_body]
pub(crate) fn offline_pick_output(engine: &mut OfflineStage) -> (r: Option<
    Result<CompletedOfflineStage, OfflineError>,
>) {
    engine.pick_output()
}

/// Relies on the public `receiver` field of `round_based::Msg`.
#[verifier::external_body]
pub(crate) fn offline_msg_receiver(msg: &Msg<OfflineProtocolMessage>) -> (r: Option<u16>) {
    msg.receiver
}

/// Relies on the derived `Clone` of `round_based::Msg` and of
/// `OfflineProtocolMessage`, which copy every field; the clone is the
/// same message.
#[verifier::external_body]
pub(crate) fn offline_msg_clone(msg: &Msg<OfflineProtocolMessage>) -> (r: Msg<
    OfflineProtocolMessage,
>)
    ensures
        r == *msg,
{
    msg.clone()
}

/// Relies on the derived `Clone` of `CompletedOfflineStage`; the clone is
/// the same presignature material.
#[verifier::external_body]
pub(crate) fn completed_offline_clone(stage: &CompletedOfflineStage) -> (r: CompletedOfflineStage)
    ensures
        r == *stage,
{
    stage.clone()
}

/// Relies on the derived `Clone` of `PartialSignature`; the clone is the
/// same share.
#[verifier::external_body]
pub(crate) fn partial_signature_clone(share: &PartialSignature) -> (r: PartialSignature)
    ensures
        r == *share,
{
    share.clone()
}

/// Relies on the derived `Clone` of `curv::BigInt`; the clone is the same
/// integer.
#[verifier::external_body]
pub(crate) fn bigint_clone(v: &BigInt) -> (r: BigInt)
    ensures
        r == *v,
{
    v.clone()
}

/// Relies on `SignManual::new`: binds a message digest to one signer's
/// presignature material, yielding the signer's local state and its
/// partial signature share.  The local signing step has no failure path
/// (and the one point it reads a coordinate from is a protocol-produced
/// curve point, never the identity), so the call always succeeds.
#[verifier::external_body]
pub(crate) fn sign_manual_new(digest: BigInt, stage: CompletedOfflineStage) -> (r: Result<
    (SignManual, PartialSignature),
    SignError,
>)
    ensures
        r is Ok,
{
    SignManual::new(digest, stage)
}

/// Relies on `SignManual::complete`: combines this signer's state with the
/// peers' partial shares (the signer's own share must not be among them)
/// into a full signature, verifying it before returning.
#[verifier::external_body]
pub(crate) fn sign_manual_complete(state: SignManual, peers: &Vec<PartialSignature>) -> (r: Result<
    SignatureRecid,
    SignError,
>) {
    state.complete(peers)
}

/// The SHA-256 digest of a byte string, as a function of the bytes alone.
pub uninterp spec fn sha256_of(bytes: Seq<u8>) -> Seq<u8>;

/// Relies on `sha2::Sha256::digest`: a 32-byte digest that depends on the
/// input bytes alone.
#[verifier::external_body]
pub(crate) fn sha256_bytes(msg: &Vec<u8>) -> (r: Vec<u8>)
    ensures
        r@ == sha256_of(msg@),
        r@.len() == 32,
{
    let digest = <sha2::Sha256 as sha2::Digest>::digest(msg.as_slice());
    digest.to_vec()
}

/// The big-endian integer a byte string encodes, as a function of the
/// bytes alone.
pub uninterp spec fn bigint_of(bytes: Seq<u8>) -> BigInt;

/// Relies on `curv::BigInt::from_bytes`: the big-endian integer the bytes
/// encode, depending on the bytes alone.
#[verifier::external_body]
pub(crate) fn bigint_from_bytes(bytes: &Vec<u8>) -> (r: BigInt)
    ensures
        r == bigint_of(bytes@),
{
    <BigInt as curv::arithmetic::Converter>::from_bytes(bytes.as_slice())
}

} // verus!
