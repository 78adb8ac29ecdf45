//! The ways in which a call on the auction fails.

use vstd::prelude::*;

verus! {

/// Why a call on the auction failed. A call that fails changes nothing.
#[derive(Clone, Copy, Debug, PartialEq, Eq, Structural)]
pub enum AuctionError {
    /// `initialize` was called on an instance that is already configured.
    AlreadyInitialized,
    /// A part of the configuration that must exist is absent: the instance
    /// was never initialized.
    Uninitialized,
    /// The token service declined the payment or the release of the prize.
    TransferRejected,
}

} // verus!
