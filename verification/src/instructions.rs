//! The operations on a pool. Each one checks every condition first and
//! changes the records it is given only when all of them hold.

pub mod bidding;
pub mod collateral;
pub mod contribution;
pub mod cycle_management;
pub mod payout;
pub mod pool;
pub mod protocol;
