//! The program's own errors.

use vstd::prelude::*;

verus! {

#[derive(Clone, Copy, Debug, PartialEq, Eq, Structural)]
pub enum ErrorCode {
    /// The confidential computation did not complete.
    AbortedComputation,
    /// The market has no outcome yet, or cannot be resolved yet.
    MarketNotResolved,
}

} // verus!
