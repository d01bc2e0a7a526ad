//! Holding areas for value, and the movements between them that the host
//! carries out.

use vstd::prelude::*;
use crate::state::pubkey::Pubkey;

verus! {

/// A holding area for the native asset.
#[derive(Clone, Copy, Debug, PartialEq, Eq)]
pub struct Holding {
    pub key: Pubkey,
    /// The balance, in the smallest unit of the native asset.
    pub lamports: u64,
}

/// A holding area for one kind of token.
#[derive(Clone, Copy, Debug, PartialEq, Eq)]
pub struct TokenHolding {
    pub key: Pubkey,
    /// Who may move the tokens.
    pub owner: Pubkey,
    /// The kind of token held.
    pub mint: Pubkey,
    /// The token balance.
    pub amount: u64,
    /// The native-asset balance of the holding area itself.
    pub lamports: u64,
    /// The program that keeps the holding area.
    pub program: Pubkey,
}

/// A movement of value that the host must carry out, in full or not at all,
/// for the operation that returned it to take effect.
#[derive(Clone, Copy, Debug, PartialEq, Eq)]
pub struct Transfer {
    pub from: Pubkey,
    pub to: Pubkey,
    /// On whose authority the value leaves `from`.
    pub authority: Pubkey,
    pub amount: u64,
}

} // verus!
