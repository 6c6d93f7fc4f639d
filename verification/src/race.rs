//! Waiting for the first of several workers that reports a result.
//!
//! The workers are started elsewhere, each on one unit of work. Each tells
//! when it is done, and those that found something hand it in first. What this
//! module holds is the decision of the one who waits: after each look at the
//! results, whether to take what is there, to wait for one more worker, or to
//! give up because all of them are done.

use vstd::prelude::*;

verus! {

/// What the one who waits does next.
#[derive(Clone, Copy, Debug, PartialEq, Eq, Structural)]
pub enum Step {
    /// A result is there: take it and stop waiting.
    Take,
    /// No result is there yet: wait until one more worker is done, then look again.
    Await,
    /// No result is there and every worker is done: there will be none.
    GiveUp,
}

/// How many workers were started, and how many of them the one who waits
/// has waited for.
#[derive(Clone, Copy, Debug, PartialEq, Eq, Structural)]
pub struct Race {
    pub dispatched: u64,
    pub completed: u64,
}

impl Race {
    /// The counts are in order: no more workers waited for than started.
    pub open spec fn well_formed(&self) -> bool {
        self.completed <= self.dispatched
    }

    /// A race of `dispatched` workers, none of them waited for yet.
    pub fn new(dispatched: u64) -> (race: Race)
        ensures
            race == (Race { dispatched, completed: 0 }),
            race.well_formed(),
    {
        Race { dispatched, completed: 0 }
    }

    /// A race for a table whose chains have `chain_length` reductions: one
    /// worker for each position of a digest in a chain, `chain_length + 1`.
    pub fn for_chain(chain_length: u32) -> (race: Race)
        ensures
            race.dispatched == chain_length + 1,
            race.completed == 0,
            race.well_formed(),
    {
        Race { dispatched: chain_length as u64 + 1, completed: 0 }
    }

    /// Decides after a look at the results, where `result_ready` tells
    /// whether one was there. A result is taken whenever there is one. Without
    /// one, the race goes on as long as a worker has not been waited for, and
    /// that wait is counted; it is given up once all have been.
    pub fn look(&mut self, result_ready: bool) -> (step: Step)
        ensures
            old(self).well_formed() ==> final(self).well_formed(),
            final(self).dispatched == old(self).dispatched,
            step == (if result_ready {
                Step::Take
            } else if old(self).completed < old(self).dispatched {
                Step::Await
            } else {
                Step::GiveUp
            }),
            final(self).completed == (if step == Step::Await {
                old(self).completed + 1
            } else {
                old(self).completed as int
            }),
    {
        if result_ready {
            Step::Take
        } else if self.completed < self.dispatched {
            self.completed = self.completed + 1;
            Step::Await
        } else {
            Step::GiveUp
        }
    }
}

} // verus!
