//! A participant's standing in one pool.

use vstd::prelude::*;
use crate::state::pubkey::Pubkey;

verus! {

/// Where a participant stands with its obligations.
#[derive(Clone, Copy, Debug, PartialEq, Eq, Structural)]
pub enum MemberStatus {
    /// In good standing.
    Active,
    /// Behind on a contribution.
    Late,
    /// Stopped contributing after having been paid.
    Defaulted,
    /// Has taken its payout or its collateral out of the pool.
    Withdrawed,
}

impl Default for MemberStatus {
    fn default() -> (status: Self)
        ensures
            status == MemberStatus::Active,
    {
        MemberStatus::Active
    }
}

/// The record a pool keeps of one participant.
#[derive(Clone, Copy, Debug, PartialEq, Eq)]
pub struct MemberAccount {
    /// The participant.
    pub owner: Pubkey,
    /// The pool this record belongs to.
    pub pool: Pubkey,
    /// How many cycles the participant has paid for.
    pub contributions_made: u8,
    /// Whether the participant has bid in the current cycle.
    pub has_bid: bool,
    pub has_contributed: bool,
    pub status: MemberStatus,
    /// Set once the participant has been paid; blocks a second payout.
    pub has_received_payout: bool,
    /// Set for the winner of the current cycle only.
    pub eligible_for_payout: bool,
    /// Collateral currently posted.
    pub collateral_staked: u64,
    pub reputation_points: u64,
    /// When the participant last contributed.
    pub last_contribution_timestamp: i64,
    pub total_contributions: u64,
    /// Whether collateral was ever posted.
    pub has_deposited_collateral: bool,
    pub payout_amount: u64,
}

impl MemberAccount {
    /// The record of a participant that has just joined `pool`.
    pub open spec fn fresh(owner: Pubkey, pool: Pubkey) -> MemberAccount {
        MemberAccount {
            owner,
            pool,
            contributions_made: 0,
            has_bid: false,
            has_contributed: false,
            status: MemberStatus::Active,
            has_received_payout: false,
            eligible_for_payout: false,
            collateral_staked: 0,
            reputation_points: 0,
            last_contribution_timestamp: 0,
            total_contributions: 0,
            has_deposited_collateral: false,
            payout_amount: 0,
        }
    }

    /// The record of a participant that has just joined `pool`.
    pub fn new(owner: Pubkey, pool: Pubkey) -> (member: MemberAccount)
        ensures
            member == MemberAccount::fresh(owner, pool),
    {
        MemberAccount {
            owner,
            pool,
            contributions_made: 0,
            has_bid: false,
            has_contributed: false,
            status: MemberStatus::Active,
            has_received_payout: false,
            eligible_for_payout: false,
            collateral_staked: 0,
            reputation_points: 0,
            last_contribution_timestamp: 0,
            total_contributions: 0,
            has_deposited_collateral: false,
            payout_amount: 0,
        }
    }
}

} // verus!
