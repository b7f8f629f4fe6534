//! The discrete core of the sequential test on a relay's delivery record.
//!
//! The test keeps a running log-likelihood ratio and two bounds derived from
//! the tolerated error rates. Those are real-valued and live with the caller.
//! What is decided here is which batches are admitted as evidence, how many
//! failures and successes a batch counts, and which verdict follows from where
//! the ratio stands against its bounds.

use vstd::prelude::*;
use crate::error::AeonError;

verus! {

/// One evaluation window of a peer's deliveries.
#[derive(Debug, Clone, Copy)]
pub struct BatchStats {
    pub sent: u32,
    pub received: u32,
}

/// What the test concludes after a batch.
#[derive(Debug, Clone, Copy, PartialEq, Eq, Structural)]
pub enum SlashVerdict {
    /// The evidence for an elevated failure rate has reached the upper bound.
    Slash,
    /// The evidence has fallen to the lower bound.
    Trust,
    /// More observations are needed.
    Continue,
}

impl BatchStats {
    /// No more was received than was sent.
    pub open spec fn wf(self) -> bool {
        self.received <= self.sent
    }

    /// The deliveries that failed.
    pub fn failures(&self) -> (n: u32)
        requires
            self.wf(),
        ensures
            n == self.sent - self.received,
    {
        self.sent - self.received
    }

    /// The deliveries that succeeded.
    pub fn successes(&self) -> (n: u32)
        ensures
            n == self.received,
    {
        self.received
    }
}

/// The verdict for a ratio that stands as the two flags say. The upper bound
/// is looked at first.
pub open spec fn verdict_of(at_or_above_upper: bool, at_or_below_lower: bool) -> SlashVerdict {
    if at_or_above_upper {
        SlashVerdict::Slash
    } else if at_or_below_lower {
        SlashVerdict::Trust
    } else {
        SlashVerdict::Continue
    }
}

/// What `RelayReputation::evaluate` returns, as a function of what it is
/// given.
pub open spec fn evaluate_outcome(
    batch: BatchStats,
    at_or_above_upper: bool,
    at_or_below_lower: bool,
) -> Result<SlashVerdict, AeonError> {
    if batch.sent == 0 {
        Err(AeonError::InvalidInput)
    } else {
        Ok(verdict_of(at_or_above_upper, at_or_below_lower))
    }
}

/// The judge of one peer. The running ratio is the caller's; the judge keeps
/// nothing between calls, so a verdict neither freezes nor resets the test.
#[derive(Debug, Clone, Copy)]
pub struct RelayReputation {}

impl RelayReputation {
    /// A judge for one peer.
    pub fn new() -> (judge: Self) {
        RelayReputation {}
    }

    /// Judges one batch.
    ///
    /// `at_or_above_upper` and `at_or_below_lower` say where the ratio stands
    /// once the batch is counted in. A batch with nothing sent is no evidence
    /// and is refused as `InvalidInput`, wherever the ratio stands; the caller
    /// then keeps the ratio it had.
    pub fn evaluate(
        &self,
        batch: BatchStats,
        at_or_above_upper: bool,
        at_or_below_lower: bool,
    ) -> (result: Result<SlashVerdict, AeonError>)
        ensures
            result == evaluate_outcome(batch, at_or_above_upper, at_or_below_lower),
            batch.sent == 0 ==> result == Err::<SlashVerdict, AeonError>(AeonError::InvalidInput),
    {
        if batch.sent == 0 {
            return Err(AeonError::InvalidInput);
        }
        if at_or_above_upper {
            Ok(SlashVerdict::Slash)
        } else if at_or_below_lower {
            Ok(SlashVerdict::Trust)
        } else {
            Ok(SlashVerdict::Continue)
        }
    }
}

/// A batch with nothing sent is refused whatever else holds.
pub proof fn lemma_empty_batch_refused(
    batch: BatchStats,
    at_or_above_upper: bool,
    at_or_below_lower: bool,
)
    requires
        batch.sent == 0,
    ensures
        evaluate_outcome(batch, at_or_above_upper, at_or_below_lower) == Err::<
            SlashVerdict,
            AeonError,
        >(AeonError::InvalidInput),
{
}

} // verus!
