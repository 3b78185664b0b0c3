//! Failures reported by this library.

use vstd::prelude::*;

verus! {

/// Reasons for which an operation of this library is refused.
#[derive(Clone, Copy, Debug, PartialEq, Eq, Structural)]
pub enum Error {
    /// A candidate was proposed without a single pseudo range observation.
    NeedsAtLeastOnePseudoRange,
    /// The signal would have been received at or before the instant of its transmission.
    PhysicalNonSenseRxPriorTx,
    /// The signal would have travelled for one second or longer.
    PhysicalNonSenseRxTooLate,
    /// The transmission instant lies before the earliest instant an [`Epoch`](crate::time::Epoch)
    /// can express.
    EpochOutOfRange,
}

impl Error {
    /// Text that describes this failure.
    pub fn message(&self) -> (text: &'static str)
        ensures
            text@ == self.spec_message()@,
    {
        match self {
            Error::NeedsAtLeastOnePseudoRange => "need at least one pseudo range observation",
            Error::PhysicalNonSenseRxPriorTx => "resolved t_tx is physically impossible",
            Error::PhysicalNonSenseRxTooLate => "|t - t_tx| < 1 sec is physically impossible",
            Error::EpochOutOfRange => "resolved t_tx cannot be expressed",
        }
    }

    /// The text of [`Error::message`].
    pub open spec fn spec_message(&self) -> &'static str {
        match self {
            Error::NeedsAtLeastOnePseudoRange => "need at least one pseudo range observation",
            Error::PhysicalNonSenseRxPriorTx => "resolved t_tx is physically impossible",
            Error::PhysicalNonSenseRxTooLate => "|t - t_tx| < 1 sec is physically impossible",
            Error::EpochOutOfRange => "resolved t_tx cannot be expressed",
        }
    }
}

} // verus!
