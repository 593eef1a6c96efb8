//! The error kinds that the ledger's operations report.

use vstd::prelude::*;

verus! {

/// Why an operation on the platform was refused.
///
/// Every operation returns an explicit outcome; on failure the caller
/// receives the specific kind below and no mutation is left visible.
#[derive(Clone, Copy, Debug, PartialEq, Eq, Structural)]
pub enum Error {
    /// `initialize` was called on an already-initialized platform.
    AlreadyInitialized,
    /// The caller registered as an artist once before.
    ArtistAlreadyRegistered,
    /// Only registered artists may upload songs.
    ArtistNotRegistered,
    /// The song id is zero or beyond the allocated range.
    SongNotFound,
    /// The song exists but has been deactivated.
    SongInactive,
    /// The paid amount does not match the song's price exactly.
    IncorrectPayment,
    /// A withdrawal or transfer of zero was requested.
    InvalidAmount,
    /// The requested debit exceeds the pending balance.
    InsufficientBalance,
    /// Only the platform owner may perform this operation.
    Unauthorized,
    /// The external value-transfer capability reported failure.
    TransferFailed,
}

} // verus!
