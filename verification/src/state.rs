//! The records a pool is made of.

pub mod bidding;
pub mod holding;
pub mod member;
pub mod pool;
pub mod protocol;
pub mod pubkey;
