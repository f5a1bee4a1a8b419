//! The ways in which an accounting step can be refused.

use vstd::prelude::*;

verus! {

/// Why an operation on the aggregate state was refused.
///
/// A refused operation may already have written part of its effect; the
/// caller is expected to discard the state it was applied to.
#[derive(Clone, Copy, Debug, PartialEq, Eq, Structural)]
pub enum ErrorCode {
    /// A step of checked arithmetic left the range of its type: an epoch
    /// older than the last settled one, a value that does not fit a signed
    /// 64-bit integer, or a sum or difference that does not.
    GenericOverflow,
    /// The locked balance, settled or projected, would drop below zero.
    NegativeBalance,
}

} // verus!
