//! Why a donation is turned away.

use vstd::prelude::*;

verus! {

/// Every failure is found before anything is changed.
#[derive(Clone, Copy, Debug, PartialEq, Eq, Structural)]
pub enum DonationError {
    /// Nothing was sent.
    ZeroAmount,
    /// A batch of no donations, or of more than a hundred.
    InvalidBatchSize,
    /// The payment leaves nothing for each donation of the batch.
    PaymentTooSmall,
    /// No valid badge collection has been set.
    CollectionNotConfigured,
    /// The payment is to be passed on to the address of all zeros.
    InvalidRecipient,
}

} // verus!
