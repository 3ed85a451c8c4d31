use vstd::prelude::*;

verus! {

/// The failure conditions of the escrow contract's entry points.
#[derive(Clone, Copy, Debug, PartialEq, Eq, Structural)]
pub enum Error {
    /// `set_admin` ran while an admin identity was already stored.
    AdminAlreadySet,
    /// An admin-gated operation ran before any admin identity was stored.
    AdminNotSet,
    /// The puzzle was read before any puzzle was stored.
    PuzzleNotSet,
    /// The authorization proof required of the acting identity was absent.
    NotAuthorized,
    /// The guesser could not pay the attempt fee.
    FeeTransferFailed,
    /// The verifier accepted, but the prize pool was empty at payout time.
    NoBalanceToTransfer,
    /// The verifier accepted, but paying the pool out to the guesser failed.
    PayoutTransferFailed,
}

} // verus!
