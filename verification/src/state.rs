//! The accounts whose transitions this crate defines.

pub mod product;
