use vstd::prelude::*;

verus! {

/// The failure kinds of the session protocol.
///
/// The first four are the recognized protocol errors; the last two cover
/// conditions the protocol must also reject but that the four do not name:
/// a referenced record that is absent or fails its derivation checks, and a
/// reveal attempted before any randomness request was issued.
#[derive(Clone, Copy, Debug, PartialEq, Eq, Structural)]
pub enum ErrorCode {
    /// The caller is not the registered initiator or acceptor of the session,
    /// or lacks authority over the referenced resource.
    Unauthorized,
    /// The operation was attempted on a record that already exists or on a
    /// session that is already resolved.
    AlreadyCompleted,
    /// A randomness request is already outstanding; only one may be in
    /// flight at a time.
    InflightRequest,
    /// The oracle referenced in the call is not the one the session's
    /// requester resource was bound to.
    WrongOracle,
    /// A referenced record is absent, holds data of another kind, or does
    /// not match its re-derived address and factor.
    MissingRecord,
    /// A reveal was attempted on a session that never issued a randomness
    /// request.
    NotYetFlipping,
}

/// Failure of a reveal: either the retryable not-ready condition, or one of
/// the fatal kinds. The not-ready case is kept apart from the fatal errors
/// so a caller can poll until the oracle has fulfilled the request.
#[derive(Clone, Copy, Debug, PartialEq, Eq, Structural)]
pub enum RevealError {
    /// The randomness request is outstanding but not yet fulfilled; the
    /// caller should retry.
    NotReady,
    /// A terminal failure; retrying cannot succeed.
    Fatal(ErrorCode),
}

} // verus!
