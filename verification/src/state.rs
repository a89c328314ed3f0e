//! The persisted record and its model.

use vstd::prelude::*;

verus! {

/// The state of one counter account: a single unsigned 64-bit count.
///
/// The host creates the record with `count == 0`; afterwards only
/// [`increment`](crate::handler::increment) changes it.
#[derive(Clone, Copy, Debug, PartialEq, Eq, Structural)]
pub struct Counter {
    pub count: u64,
}

impl View for Counter {
    type V = nat;

    /// The count as a natural number.
    open spec fn view(&self) -> nat {
        self.count as nat
    }
}

impl Counter {
    /// Whether the count can still grow by one.
    pub open spec fn has_room(self) -> bool {
        self@ < u64::MAX
    }

    /// The record as one increment leaves it: the count one higher where
    /// there is room, the record as it was where there is none.
    pub open spec fn after_increment(self) -> Counter {
        if self.has_room() {
            Counter { count: (self.count + 1) as u64 }
        } else {
            self
        }
    }

    /// The record as `n` increments in sequence leave it.
    pub open spec fn after_increments(self, n: nat) -> Counter
        decreases n,
    {
        if n == 0 {
            self
        } else {
            self.after_increment().after_increments((n - 1) as nat)
        }
    }
}

} // verus!
