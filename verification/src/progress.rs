//! Progress of a run: rows written against an estimate made beforehand.

use vstd::prelude::*;

verus! {

/// How far a run has come. The estimate is a denominator for display only:
/// fewer or more rows than it says may be written.
#[derive(Clone, Copy, Debug, PartialEq, Eq, Structural)]
pub struct ProgressState {
    pub estimated_total: u64,
    pub completed: u64,
}

impl ProgressState {
    /// The state after `rows` more rows: the estimate as it was, the count
    /// of written rows that much higher, held at the largest count a `u64`
    /// can take.
    pub open spec fn after_rows(self, rows: nat) -> ProgressState {
        ProgressState {
            estimated_total: self.estimated_total,
            completed: if self.completed + rows <= u64::MAX {
                (self.completed + rows) as u64
            } else {
                u64::MAX
            },
        }
    }

    /// The position a bounded display shows: the rows written, held at the
    /// estimate once they pass it.
    pub open spec fn shown(self) -> u64 {
        if self.completed <= self.estimated_total {
            self.completed
        } else {
            self.estimated_total
        }
    }

    /// The state before any row, with the estimate fixed.
    pub fn new(estimated_total: u64) -> (state: ProgressState)
        ensures
            state == (ProgressState { estimated_total, completed: 0 }),
    {
        ProgressState { estimated_total, completed: 0 }
    }

    /// Counts one written row. The estimate is not touched, and a count at
    /// or past the estimate is counted on like any other.
    pub fn advance(&mut self)
        ensures
            *final(self) == old(self).after_rows(1),
    {
        if self.completed < u64::MAX {
            self.completed = self.completed + 1;
        }
    }

    /// The position to show on a display that ends at the estimate.
    pub fn position(&self) -> (p: u64)
        ensures
            p == self.shown(),
            p <= self.estimated_total,
    {
        if self.completed <= self.estimated_total {
            self.completed
        } else {
            self.estimated_total
        }
    }

    /// Whether more rows were written than were expected.
    pub fn is_past_estimate(&self) -> (past: bool)
        ensures
            past == (self.completed > self.estimated_total),
    {
        self.completed > self.estimated_total
    }
}

/// The estimate does not depend on the rows that are written: after any
/// number of rows it is what it was, the count never falls, and counting
/// rows one by one comes to the same as counting them at once, also past the
/// estimate.
pub proof fn lemma_estimate_outlasts_rows(start: ProgressState, rows: nat, more: nat)
    ensures
        start.after_rows(rows).estimated_total == start.estimated_total,
        start.after_rows(rows).completed >= start.completed,
        start.after_rows(rows).after_rows(more) == start.after_rows(rows + more),
        start.after_rows(rows).shown() <= start.estimated_total,
{
}

} // verus!
