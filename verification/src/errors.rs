//! Error taxonomy of the session harness.

use vstd::prelude::*;

verus! {

/// Every failure the harness reports falls in one of these classes.
///
/// `ConfigurationError` and `SessionIncomplete` abort a session; a
/// `ProtocolError` inside any one party is fatal to the session as well,
/// since the protocol requires full participation.  `CombinationError` is
/// locally recoverable: a signer may retry combination with a corrected
/// share set.
#[derive(Clone, Copy, Debug, PartialEq, Eq, Structural)]
pub enum SessionError {
    /// Invalid party or threshold parameters, or a targeted recipient id
    /// that does not exist among the active parties.
    ConfigurationError,
    /// A party's engine rejected a message or failed a computation step.
    ProtocolError,
    /// Finalization was requested before every party reached its output.
    SessionIncomplete,
    /// A wrong or inconsistent set of partial signature shares, or an
    /// attempt to reuse a presignature set.
    CombinationError,
}

} // verus!
