//! The failure that the handler can report.

use vstd::prelude::*;

verus! {

/// Why an operation on a counter was refused.
#[derive(Clone, Copy, Debug, PartialEq, Eq, Structural)]
pub enum Error {
    /// One more step would leave the range of `u64`.
    Overflow,
}

} // verus!
