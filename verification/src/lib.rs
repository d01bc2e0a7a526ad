//! The transactional core of a rotating savings pool.
//!
//! A fixed group of participants takes turns receiving a lump sum assembled
//! from periodic contributions. Each cycle an auction decides who is paid;
//! collateral and a slashing penalty cover the risk that a paid participant
//! stops contributing. Every operation validates first and changes state only
//! when every check has passed.

pub mod constants;
pub mod errors;
pub mod state;
pub mod instructions;
pub mod lifecycle;
