//! A pool: its configuration, its members and where it stands in its cycles.

use vstd::prelude::*;
use crate::constants::{
    DEFAULT_COLLATERAL_REQUIREMENT_BPS, DEFAULT_EARLY_WITHDRAWAL_FEE_BPS, MAX_CONTRIBUTION_AMOUNT,
    MAX_CYCLE_DURATION, MAX_EARLY_WITHDRAWAL_FEE_BPS, MAX_PARTICIPANTS, MAX_PAYOUT_DELAY,
    MIN_COLLATERAL_REQUIREMENT_BPS, MIN_CONTRIBUTION_AMOUNT, MIN_CYCLE_DURATION, MIN_PARTICIPANTS,
    MIN_PAYOUT_DELAY,
};
use crate::state::member::MemberAccount;
use crate::state::pubkey::{has_no_duplicates, Pubkey};

verus! {

/// The step of a cycle a running pool is in.
#[derive(Clone, Copy, Debug, PartialEq, Eq, Structural)]
pub enum CyclePhase {
    /// Members submit bids.
    Bidding,
    /// Members pay their contributions.
    Contributing,
    /// The winner can claim the pooled contributions.
    ReadyForPayout,
}

/// The life of a pool.
#[derive(Clone, Copy, Debug, PartialEq, Eq, Structural)]
pub enum PoolStatus {
    /// Being set up; accepts members.
    Initializing,
    /// Running its cycles.
    Active { phase: CyclePhase },
    /// Every cycle has been paid out.
    Completed,
    /// Reserved for a pool that is given up; no operation leads here.
    Defaulted,
}

impl Default for PoolStatus {
    fn default() -> (status: Self)
        ensures
            status == PoolStatus::Initializing,
    {
        PoolStatus::Initializing
    }
}

/// How idle value is put to work. Informational only.
#[derive(Clone, Copy, Debug, PartialEq, Eq, Structural)]
pub enum YieldPlatform {
    /// Idle value is left where it is.
    NoYield,
    JitoSol,
    Kamino,
}

impl Default for YieldPlatform {
    fn default() -> (platform: Self)
        ensures
            platform == YieldPlatform::NoYield,
    {
        YieldPlatform::NoYield
    }
}

/// What the creator of a pool chooses. Fixed once the pool exists.
#[derive(Clone, Copy, Debug, PartialEq, Eq)]
pub struct PoolConfig {
    /// Number of participants, and so of cycles.
    pub max_participants: u8,
    /// What each member pays per cycle.
    pub contribution_amount: u64,
    pub cycle_duration_seconds: u64,
    /// Wait between the end of contributions and the payout.
    pub payout_delay_seconds: u64,
    /// Fee on every payout but the last, in basis points.
    pub early_withdrawal_fee_bps: u16,
    /// Collateral asked of a winner, in basis points of its exposure.
    pub collateral_requirement_bps: u16,
    pub yield_strategy: YieldPlatform,
    pub is_private: bool,
    /// Whether the pool settles in the native asset rather than in a token.
    pub is_native_sol: bool,
    /// The price feed the pool follows.
    pub feed_id: [u8; 32],
}

impl PoolConfig {
    /// Every value lies in its admissible range.
    pub open spec fn is_valid(self) -> bool {
        &&& MIN_PARTICIPANTS <= self.max_participants <= MAX_PARTICIPANTS
        &&& MIN_CONTRIBUTION_AMOUNT <= self.contribution_amount <= MAX_CONTRIBUTION_AMOUNT
        &&& MIN_CYCLE_DURATION <= self.cycle_duration_seconds <= MAX_CYCLE_DURATION
        &&& MIN_PAYOUT_DELAY <= self.payout_delay_seconds <= MAX_PAYOUT_DELAY
        &&& self.early_withdrawal_fee_bps <= MAX_EARLY_WITHDRAWAL_FEE_BPS
        &&& self.collateral_requirement_bps >= MIN_COLLATERAL_REQUIREMENT_BPS
    }
}

impl PoolConfig {
    /// Whether every value lies in its admissible range.
    pub fn is_in_range(&self) -> (valid: bool)
        ensures
            valid == self.is_valid(),
    {
        MIN_PARTICIPANTS <= self.max_participants && self.max_participants <= MAX_PARTICIPANTS
            && MIN_CONTRIBUTION_AMOUNT <= self.contribution_amount && self.contribution_amount
            <= MAX_CONTRIBUTION_AMOUNT && MIN_CYCLE_DURATION <= self.cycle_duration_seconds
            && self.cycle_duration_seconds <= MAX_CYCLE_DURATION && MIN_PAYOUT_DELAY
            <= self.payout_delay_seconds && self.payout_delay_seconds <= MAX_PAYOUT_DELAY
            && self.early_withdrawal_fee_bps <= MAX_EARLY_WITHDRAWAL_FEE_BPS
            && self.collateral_requirement_bps >= MIN_COLLATERAL_REQUIREMENT_BPS
    }
}

impl Default for PoolConfig {
    fn default() -> (config: Self)
        ensures
            config.is_valid(),
            config.max_participants == 3,
            config.contribution_amount == 100,
            config.cycle_duration_seconds == MIN_CYCLE_DURATION,
            config.payout_delay_seconds == MIN_PAYOUT_DELAY,
            config.early_withdrawal_fee_bps == DEFAULT_EARLY_WITHDRAWAL_FEE_BPS,
            config.collateral_requirement_bps == DEFAULT_COLLATERAL_REQUIREMENT_BPS,
            config.yield_strategy == YieldPlatform::NoYield,
            !config.is_private,
            !config.is_native_sol,
            forall|i: int| 0 <= i < 32 ==> config.feed_id[i] == 0,
    {
        Self {
            max_participants: 3,
            contribution_amount: 100,
            cycle_duration_seconds: 3 * 24 * 60 * 60,
            payout_delay_seconds: 1 * 24 * 60 * 60,
            early_withdrawal_fee_bps: 200,
            collateral_requirement_bps: 20000,
            yield_strategy: YieldPlatform::NoYield,
            is_private: false,
            is_native_sol: false,
            feed_id: [0; 32],
        }
    }
}

/// A pool.
#[derive(Clone, Debug, PartialEq, Eq)]
pub struct GroupAccount {
    /// The identity under which members and holding areas refer to the pool.
    pub key: Pubkey,
    /// The short tag callers name the pool by.
    pub uuid: [u8; 6],
    /// Who may join; empty when anyone may.
    pub whitelist: Vec<Pubkey>,
    pub creator: Pubkey,
    /// The asset the pool settles in.
    pub token_mint: Pubkey,
    /// Where contributions are held.
    pub vault: Pubkey,
    pub config: PoolConfig,
    /// The members, in the order they joined.
    pub member_addresses: Vec<Pubkey>,
    pub payout_order: Vec<Pubkey>,
    /// The running cycle, counted from zero.
    pub current_cycle: u8,
    /// Number of cycles: one per participant.
    pub total_cycles: u8,
    pub status: PoolStatus,
    /// Contributions received so far.
    pub total_contributions: u64,
    pub unclaimed_payout: u64,
    pub last_cycle_timestamp: i64,
    /// From when the winner can be paid.
    pub next_payout_timestamp: i64,
    pub price_feed_id: [u8; 32],
    /// The winner of the running cycle, once its auction is resolved.
    pub current_winner: Option<Pubkey>,
    /// What the winner bid.
    pub current_bid_amount: Option<u64>,
    pub final_contribution_amount: Option<u64>,
}

/// A pool as a mathematical value.
pub struct GroupAccountView {
    pub key: Pubkey,
    pub uuid: [u8; 6],
    pub whitelist: Seq<Pubkey>,
    pub creator: Pubkey,
    pub token_mint: Pubkey,
    pub vault: Pubkey,
    pub config: PoolConfig,
    pub member_addresses: Seq<Pubkey>,
    pub payout_order: Seq<Pubkey>,
    pub current_cycle: u8,
    pub total_cycles: u8,
    pub status: PoolStatus,
    pub total_contributions: u64,
    pub unclaimed_payout: u64,
    pub last_cycle_timestamp: i64,
    pub next_payout_timestamp: i64,
    pub price_feed_id: [u8; 32],
    pub current_winner: Option<Pubkey>,
    pub current_bid_amount: Option<u64>,
    pub final_contribution_amount: Option<u64>,
}

impl View for GroupAccount {
    type V = GroupAccountView;

    open spec fn view(&self) -> GroupAccountView {
        GroupAccountView {
            key: self.key,
            uuid: self.uuid,
            whitelist: self.whitelist@,
            creator: self.creator,
            token_mint: self.token_mint,
            vault: self.vault,
            config: self.config,
            member_addresses: self.member_addresses@,
            payout_order: self.payout_order@,
            current_cycle: self.current_cycle,
            total_cycles: self.total_cycles,
            status: self.status,
            total_contributions: self.total_contributions,
            unclaimed_payout: self.unclaimed_payout,
            last_cycle_timestamp: self.last_cycle_timestamp,
            next_payout_timestamp: self.next_payout_timestamp,
            price_feed_id: self.price_feed_id,
            current_winner: self.current_winner,
            current_bid_amount: self.current_bid_amount,
            final_contribution_amount: self.final_contribution_amount,
        }
    }
}

impl GroupAccountView {
    /// What holds of every pool: its configuration is admissible, it runs one
    /// cycle per participant, no member is listed twice, and its cycle
    /// counter fits its status.
    pub open spec fn wf(self) -> bool {
        &&& self.config.is_valid()
        &&& self.total_cycles == self.config.max_participants
        &&& self.member_addresses.len() <= self.total_cycles
        &&& self.member_addresses.no_duplicates()
        &&& self.status is Initializing ==> self.current_cycle == 0
        &&& self.status is Active ==> self.current_cycle < self.total_cycles
        &&& self.status is Completed ==> self.current_cycle + 1 == self.total_cycles
    }

    /// Whether the running cycle is the last one.
    pub open spec fn in_final_cycle(self) -> bool {
        self.current_cycle + 1 >= self.total_cycles
    }

    /// The step of the cycle, when the pool is running.
    pub open spec fn phase(self) -> Option<CyclePhase> {
        match self.status {
            PoolStatus::Active { phase } => Some(phase),
            _ => None,
        }
    }

    /// `members` holds the record of every member of this pool, in the
    /// order in which the members joined.
    pub open spec fn is_roster(self, members: Seq<MemberAccount>) -> bool {
        &&& members.len() == self.member_addresses.len()
        &&& forall|i: int|
            0 <= i < members.len() ==> (#[trigger] members[i]).owner == self.member_addresses[i]
                && members[i].pool == self.key
    }

    /// Every record in `members` shows a contribution for the running cycle.
    pub open spec fn all_paid(self, members: Seq<MemberAccount>) -> bool {
        forall|i: int|
            0 <= i < members.len() ==> (#[trigger] members[i]).contributions_made
                > self.current_cycle
    }
}

impl GroupAccount {
    /// Puts the pool into the bidding step of a running cycle.
    pub fn initialize_active_status(&mut self)
        ensures
            final(self)@ == (GroupAccountView {
                status: PoolStatus::Active { phase: CyclePhase::Bidding },
                ..old(self)@
            }),
    {
        self.status = PoolStatus::Active { phase: CyclePhase::Bidding };
    }

    /// The step of the cycle, when the pool is running.
    pub fn get_current_phase(&self) -> (phase: Option<CyclePhase>)
        ensures
            phase == self@.phase(),
    {
        match self.status {
            PoolStatus::Active { phase } => Some(phase),
            _ => None,
        }
    }

    /// Whether the pool has reached its last cycle.
    pub fn is_completed(&self) -> (last: bool)
        ensures
            last == self@.in_final_cycle(),
    {
        self.current_cycle as u16 + 1 >= self.total_cycles as u16
    }

    /// Whether `members` is the roster of this pool and every member has
    /// contributed for the running cycle.
    pub fn all_members_contributed(&self, members: &Vec<MemberAccount>) -> (all: bool)
        ensures
            all == (self@.is_roster(members@) && self@.all_paid(members@)),
    {
        if members.len() != self.member_addresses.len() {
            return false;
        }
        let mut i: usize = 0;
        while i < members.len()
            invariant
                i <= members.len(),
                members.len() == self.member_addresses.len(),
                forall|j: int|
                    0 <= j < i ==> (#[trigger] members@[j]).owner == self.member_addresses@[j]
                        && members@[j].pool == self.key && members@[j].contributions_made
                        > self.current_cycle,
            decreases members.len() - i,
        {
            let member = &members[i];
            if member.owner != self.member_addresses[i] || member.pool != self.key
                || member.contributions_made <= self.current_cycle {
                return false;
            }
            i += 1;
        }
        true
    }

    /// Whether the pool keeps the rules that hold of every pool.
    pub fn is_well_formed(&self) -> (sound: bool)
        ensures
            sound == self@.wf(),
    {
        if !self.config.is_in_range() || self.total_cycles != self.config.max_participants {
            return false;
        }
        if self.member_addresses.len() > self.total_cycles as usize || !has_no_duplicates(
            &self.member_addresses,
        ) {
            return false;
        }
        match self.status {
            PoolStatus::Initializing => self.current_cycle == 0,
            PoolStatus::Active { .. } => self.current_cycle < self.total_cycles,
            PoolStatus::Completed => self.current_cycle as u16 + 1 == self.total_cycles as u16,
            PoolStatus::Defaulted => true,
        }
    }

    /// Whether `members` is the roster of this pool.
    pub fn is_roster(&self, members: &Vec<MemberAccount>) -> (whole: bool)
        ensures
            whole == self@.is_roster(members@),
    {
        if members.len() != self.member_addresses.len() {
            return false;
        }
        let mut i: usize = 0;
        while i < members.len()
            invariant
                i <= members.len(),
                members.len() == self.member_addresses.len(),
                forall|j: int|
                    0 <= j < i ==> (#[trigger] members@[j]).owner == self.member_addresses@[j]
                        && members@[j].pool == self.key,
            decreases members.len() - i,
        {
            let member = &members[i];
            if member.owner != self.member_addresses[i] || member.pool != self.key {
                return false;
            }
            i += 1;
        }
        true
    }
}

} // verus!
