//! A single-process simulation harness for a round-based threshold-ECDSA
//! protocol: distributed key generation followed by a two-stage signing flow
//! (offline presignature generation, then online partial-signature
//! combination).
//!
//! The cryptographic state machines come from the `multi_party_ecdsa` crate
//! and are treated as opaque engines.  What this library verifies is the
//! harness around them: the per-round message routing (broadcast fan-out and
//! point-to-point addressing), the fixed round tables with their queue
//! offsets, the selection of peer shares during combination, and the
//! single-use discipline on presignature sets.

pub mod errors;
pub mod rounds;
pub mod router;
pub mod engine;
pub mod keygen_session;
pub mod signing;
pub mod signing_session;
