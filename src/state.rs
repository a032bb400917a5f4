//! The step counter of non-granular (cached-scalings) mode.
use vstd::prelude::*;

verus! {

/// How many single-token decode steps have run since the session started,
/// and after how many of them the scalings are frozen.
///
/// Callers that share one session hold it behind a lock; every mutation here
/// takes `&mut self`, so the increment and the comparison that follows it run
/// under the same exclusive access.
pub struct NonGranularState {
    pub non_granular_index: usize,
    pub tgt_non_granular_index: usize,
}

impl NonGranularState {
    /// The state after one more decode step.
    pub open spec fn advanced(self) -> NonGranularState {
        NonGranularState {
            non_granular_index: (self.non_granular_index + 1) as usize,
            tgt_non_granular_index: self.tgt_non_granular_index,
        }
    }

    /// True when the warm-up is exactly complete.
    pub open spec fn reached(self) -> bool {
        self.non_granular_index == self.tgt_non_granular_index
    }

    /// A fresh session state with the given threshold.
    pub fn new(tgt_non_granular_index: usize) -> (r: NonGranularState)
        ensures
            r.non_granular_index == 0,
            r.tgt_non_granular_index == tgt_non_granular_index,
    {
        NonGranularState { non_granular_index: 0, tgt_non_granular_index }
    }

    /// Counts one decode step.
    pub fn advance(&mut self)
        requires
            old(self).non_granular_index < usize::MAX,
        ensures
            *final(self) == old(self).advanced(),
    {
        self.non_granular_index = self.non_granular_index + 1;
    }

    /// Whether the counter equals the threshold.
    pub fn at_threshold(&self) -> (r: bool)
        ensures
            r == self.reached(),
    {
        self.non_granular_index == self.tgt_non_granular_index
    }
}

} // verus!
