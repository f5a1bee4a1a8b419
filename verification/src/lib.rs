//! Epoch-based accounting of the balance locked in one staking product.
//!
//! Locks and unlocks are not applied to the aggregate balance when they are
//! requested. They are netted into a pending delta, and the delta is folded
//! into the balance the first time a later epoch is observed.

pub mod error;
pub mod state;
