//! Moving a pool from one step of its life to the next.
//!
//! A pool starts in `Initializing`, then runs its cycles: bidding, then
//! contributing, then ready for payout. After the payout step of the last
//! cycle it is `Completed`; after that of any other cycle the next cycle
//! starts with bidding.

use vstd::prelude::*;
use crate::errors::HuiFiError;
use crate::instructions::collateral::{calculate_required_collateral, required_collateral};
use crate::state::holding::Holding;
use crate::state::bidding::{
    find_winning_index, is_stable_descending, lemma_stable_descending_head, sort_bids_descending,
    winning_bid, BidEntry, BidState, BidStateView,
};
use crate::state::member::MemberAccount;
use crate::state::pool::{CyclePhase, GroupAccount, GroupAccountView, PoolStatus};
use crate::state::pubkey::{first_position, position_of, Pubkey};

verus! {

/// What the creator hands over to move its pool on, once the step the pool
/// is in has been completed.
#[derive(Clone, Debug, PartialEq, Eq)]
pub struct AdvanceCycle {
    /// Who asks.
    pub authority: Pubkey,
    pub group_account: GroupAccount,
    /// The auction of the running cycle.
    pub bid_state: BidState,
    /// The record of every member, in the order in which the members joined.
    pub member_accounts: Vec<MemberAccount>,
}

/// What the creator hands over to move its pool on whether or not the step
/// the pool is in has been completed.
#[derive(Clone, Debug, PartialEq, Eq)]
pub struct ForceAdvanceCycle {
    /// Who asks.
    pub authority: Pubkey,
    pub group_account: GroupAccount,
    /// The auction of the running cycle.
    pub bid_state: BidState,
    /// The record of every member, in the order in which the members joined.
    pub member_accounts: Vec<MemberAccount>,
}

/// What a pool's status is read from.
#[derive(Clone, Debug, PartialEq, Eq)]
pub struct CheckCycleStatus {
    pub group_account: GroupAccount,
    pub bid_state: BidState,
}

/// What a completed pool is closed with.
#[derive(Clone, Debug, PartialEq, Eq)]
pub struct ClosePool {
    /// Who asks, and where what is left goes.
    pub signer: Holding,
    pub group_account: GroupAccount,
    pub bid_state: BidState,
    /// Where the pool holds its contributions.
    pub vault_sol: Holding,
}

/// Where a pool stands in its cycles.
#[derive(Clone, Copy, Debug, PartialEq, Eq)]
pub struct CycleStatus {
    /// The running cycle, counted from one.
    pub cycle_number: u16,
    pub total_cycles: u8,
    /// How many bids the running cycle has.
    pub total_bids: usize,
    /// The winner of the running cycle, once chosen.
    pub current_winner: Option<Pubkey>,
    /// What the winner bid; `None` while there is no winner.
    pub winning_bid_amount: Option<u64>,
}

/// The records a step of the cycle reads and changes, as mathematical values.
pub struct CycleRecords {
    pub pool: GroupAccountView,
    pub auction: BidStateView,
    pub members: Seq<MemberAccount>,
}

impl GroupAccountView {
    /// The pool with the winner of its auction set, collecting contributions.
    pub open spec fn with_winner(self, winner: Pubkey, amount: u64) -> GroupAccountView {
        GroupAccountView {
            current_winner: Some(winner),
            current_bid_amount: Some(amount),
            status: PoolStatus::Active { phase: CyclePhase::Contributing },
            ..self
        }
    }

    /// The pool with its contributions in, waiting to pay out from `from` on.
    pub open spec fn awaiting_payout(self, from: i64) -> GroupAccountView {
        GroupAccountView {
            status: PoolStatus::Active { phase: CyclePhase::ReadyForPayout },
            next_payout_timestamp: from,
            ..self
        }
    }

    /// The pool after its last cycle.
    pub open spec fn completed(self) -> GroupAccountView {
        GroupAccountView { status: PoolStatus::Completed, ..self }
    }

    /// The pool at the start of its next cycle: nobody has won yet and
    /// bidding is open.
    pub open spec fn in_next_cycle(self, now: i64) -> GroupAccountView {
        GroupAccountView {
            current_cycle: (self.current_cycle + 1) as u8,
            current_winner: None,
            current_bid_amount: None,
            last_cycle_timestamp: now,
            status: PoolStatus::Active { phase: CyclePhase::Bidding },
            ..self
        }
    }

    /// The pool at the start of its first cycle.
    pub open spec fn started(self, now: i64) -> GroupAccountView {
        GroupAccountView {
            current_cycle: 0,
            last_cycle_timestamp: now,
            status: PoolStatus::Active { phase: CyclePhase::Bidding },
            ..self
        }
    }
}

impl BidStateView {
    /// The auction of cycle `cycle` with no bid and no winner.
    pub open spec fn emptied(self, cycle: u8) -> BidStateView {
        BidStateView { cycle, bids: Seq::empty(), winner: None, ..self }
    }
}

/// The roster with the member at `seat` entitled to the payout.
pub open spec fn with_winner_eligible(members: Seq<MemberAccount>, seat: int) -> Seq<
    MemberAccount,
> {
    members.update(seat, MemberAccount { eligible_for_payout: true, ..members[seat] })
}

/// The roster at the start of a cycle: nobody has bid.
pub open spec fn with_bids_cleared(members: Seq<MemberAccount>) -> Seq<MemberAccount> {
    Seq::new(members.len(), |i: int| MemberAccount { has_bid: false, ..members[i] })
}

/// The highest bidder, and of equal bidders the earliest, has won: the bids
/// stand from the highest down, the winner and its bid are recorded in the
/// auction and in the pool, the winner's record, if the roster has one, is
/// entitled to the payout, and the pool collects contributions.
pub open spec fn winner_chosen(before: CycleRecords, after: CycleRecords) -> bool {
    let winner = winning_bid(before.auction.bids);
    &&& is_stable_descending(after.auction.bids, before.auction.bids)
    &&& after.auction.bids[0] == winner
    &&& after.auction == (BidStateView {
        bids: after.auction.bids,
        winner: Some(winner.bidder),
        ..before.auction
    })
    &&& after.pool == before.pool.with_winner(winner.bidder, winner.amount)
    &&& after.members == if before.pool.member_addresses.contains(winner.bidder) {
        with_winner_eligible(
            before.members,
            first_position(before.pool.member_addresses, winner.bidder),
        )
    } else {
        before.members
    }
}

/// Nobody bid, so the creator has won with a bid of nothing, and the pool
/// collects contributions. No record is entitled to the payout by this.
pub open spec fn creator_chosen(before: CycleRecords, after: CycleRecords) -> bool {
    &&& after.auction == (BidStateView { winner: Some(before.pool.creator), ..before.auction })
    &&& after.pool == before.pool.with_winner(before.pool.creator, 0)
    &&& after.members == before.members
}

/// The pool waits to pay out from `from` on; nothing else has changed.
pub open spec fn payout_opened(before: CycleRecords, after: CycleRecords, from: i64) -> bool {
    after == (CycleRecords { pool: before.pool.awaiting_payout(from), ..before })
}

/// The cycle is over: after the last one the pool is completed and nothing
/// else has changed; after any other the next cycle has started at `now` with
/// an empty auction of its own, no winner, and no member marked as having
/// bid.
pub open spec fn cycle_closed(before: CycleRecords, after: CycleRecords, now: i64) -> bool {
    if before.pool.in_final_cycle() {
        after == (CycleRecords { pool: before.pool.completed(), ..before })
    } else {
        after == (CycleRecords {
            pool: before.pool.in_next_cycle(now),
            auction: before.auction.emptied((before.pool.current_cycle + 1) as u8),
            members: with_bids_cleared(before.members),
        })
    }
}

/// Why a pool in a cycle that is not its last cannot leave the payout step:
/// its winner is unknown, or has not posted the collateral it owes.
pub open spec fn collateral_shortfall(pool: GroupAccountView, members: Seq<MemberAccount>) -> Option<
    HuiFiError,
> {
    match pool.current_winner {
        None => Some(HuiFiError::InvalidWinnerAccount),
        Some(winner) => if !pool.member_addresses.contains(winner) {
            Some(HuiFiError::InvalidWinnerAccount)
        } else {
            let record = members[first_position(pool.member_addresses, winner)];
            if !record.has_deposited_collateral {
                Some(HuiFiError::CollateralNotDeposited)
            } else if record.collateral_staked < required_collateral(pool, record) {
                Some(HuiFiError::InsufficientCollateral)
            } else {
                None
            }
        },
    }
}

impl AdvanceCycle {
    /// The records this request carries.
    pub open spec fn records(&self) -> CycleRecords {
        CycleRecords {
            pool: self.group_account@,
            auction: self.bid_state@,
            members: self.member_accounts@,
        }
    }

    /// Why the request is refused at time `now`, if it is: the first of the
    /// conditions below that fails.
    pub open spec fn rejection(&self, now: i64) -> Option<HuiFiError> {
        let pool = self.group_account@;
        let members = self.member_accounts@;
        let bids = self.bid_state@.bids;
        if pool.creator != self.authority {
            Some(HuiFiError::Unauthorized)
        } else if !(pool.status is Active) {
            Some(HuiFiError::InvalidPoolStatus)
        } else if !pool.is_roster(members) {
            Some(HuiFiError::MemberNotFound)
        } else {
            match pool.status->phase {
                CyclePhase::Bidding => if bids.len() == 0 {
                    Some(HuiFiError::NoBids)
                } else if !pool.member_addresses.contains(winning_bid(bids).bidder) {
                    Some(HuiFiError::InvalidWinnerAccount)
                } else {
                    None
                },
                CyclePhase::Contributing => if !pool.all_paid(members) {
                    Some(HuiFiError::PendingContributions)
                } else if now + pool.config.payout_delay_seconds > i64::MAX {
                    Some(HuiFiError::Overflow)
                } else {
                    None
                },
                CyclePhase::ReadyForPayout => if pool.in_final_cycle() {
                    None
                } else {
                    collateral_shortfall(pool, members)
                },
            }
        }
    }
}

impl ForceAdvanceCycle {
    /// The records this request carries.
    pub open spec fn records(&self) -> CycleRecords {
        CycleRecords {
            pool: self.group_account@,
            auction: self.bid_state@,
            members: self.member_accounts@,
        }
    }

    /// Why the request is refused, if it is: the first of the conditions
    /// below that fails.
    pub open spec fn rejection(&self) -> Option<HuiFiError> {
        let pool = self.group_account@;
        if pool.creator != self.authority {
            Some(HuiFiError::Unauthorized)
        } else if pool.status is Completed || pool.status is Defaulted {
            Some(HuiFiError::InvalidPoolStatus)
        } else if !pool.is_roster(self.member_accounts@) {
            Some(HuiFiError::MemberNotFound)
        } else {
            None
        }
    }
}

/// The step a pool takes when its creator moves it on and the step it is in
/// is complete.
pub open spec fn gated_step(before: CycleRecords, after: CycleRecords, now: i64) -> bool {
    match before.pool.status {
        PoolStatus::Active { phase: CyclePhase::Bidding } => winner_chosen(before, after),
        PoolStatus::Active { phase: CyclePhase::Contributing } => payout_opened(
            before,
            after,
            (now + before.pool.config.payout_delay_seconds) as i64,
        ),
        PoolStatus::Active { phase: CyclePhase::ReadyForPayout } => cycle_closed(
            before,
            after,
            now,
        ),
        _ => after == before,
    }
}

/// The step a pool takes when its creator forces it on. A pool that is being
/// set up starts its first cycle. An auction without bids goes to the
/// creator; one with bids is resolved as usual. Contributions are no longer
/// waited for, and the payout is due at once.
pub open spec fn forced_step(before: CycleRecords, after: CycleRecords, now: i64) -> bool {
    match before.pool.status {
        PoolStatus::Initializing => after == (CycleRecords {
            pool: before.pool.started(now),
            ..before
        }),
        PoolStatus::Active { phase: CyclePhase::Bidding } => if before.auction.bids.len() == 0 {
            creator_chosen(before, after)
        } else {
            winner_chosen(before, after)
        },
        PoolStatus::Active { phase: CyclePhase::Contributing } => payout_opened(
            before,
            after,
            now,
        ),
        PoolStatus::Active { phase: CyclePhase::ReadyForPayout } => cycle_closed(
            before,
            after,
            now,
        ),
        _ => after == before,
    }
}

/// Records the winner of the auction and opens the contribution step.
fn choose_winner(
    group: &mut GroupAccount,
    bid_state: &mut BidState,
    members: &mut Vec<MemberAccount>,
    winner: BidEntry,
    seat: Option<usize>,
)
    requires
        old(bid_state).bids@.len() > 0,
        winner == winning_bid(old(bid_state).bids@),
        old(members)@.len() == old(group).member_addresses@.len(),
        seat matches Some(at) ==> at == first_position(
            old(group).member_addresses@,
            winner.bidder,
        ) && at < old(members)@.len(),
        seat is Some <==> old(group).member_addresses@.contains(winner.bidder),
    ensures
        winner_chosen(
            CycleRecords { pool: old(group)@, auction: old(bid_state)@, members: old(members)@ },
            CycleRecords {
                pool: final(group)@,
                auction: final(bid_state)@,
                members: final(members)@,
            },
        ),
{
    sort_bids_descending(&mut bid_state.bids);
    proof {
        lemma_stable_descending_head(bid_state.bids@, old(bid_state).bids@);
    }
    bid_state.winner = Some(winner.bidder);
    group.current_winner = Some(winner.bidder);
    group.current_bid_amount = Some(winner.amount);
    group.status = PoolStatus::Active { phase: CyclePhase::Contributing };
    match seat {
        Some(at) => {
            members[at].eligible_for_payout = true;
        },
        None => {},
    }
}

/// Marks every member as not having bid.
fn clear_bid_flags(members: &mut Vec<MemberAccount>)
    ensures
        final(members)@ == with_bids_cleared(old(members)@),
{
    let mut i: usize = 0;
    while i < members.len()
        invariant
            i <= members.len(),
            members@.len() == old(members)@.len(),
            forall|j: int|
                0 <= j < i ==> members@[j] == (MemberAccount {
                    has_bid: false,
                    ..old(members)@[j]
                }),
            forall|j: int| i <= j < members.len() ==> members@[j] == old(members)@[j],
        decreases members.len() - i,
    {
        members[i].has_bid = false;
        i += 1;
    }
    assert(members@ =~= with_bids_cleared(old(members)@));
}

/// Ends the running cycle: completes the pool after the last one, starts the
/// next one otherwise.
fn close_cycle(
    group: &mut GroupAccount,
    bid_state: &mut BidState,
    members: &mut Vec<MemberAccount>,
    now: i64,
)
    ensures
        cycle_closed(
            CycleRecords { pool: old(group)@, auction: old(bid_state)@, members: old(members)@ },
            CycleRecords {
                pool: final(group)@,
                auction: final(bid_state)@,
                members: final(members)@,
            },
            now,
        ),
{
    if group.is_completed() {
        group.status = PoolStatus::Completed;
    } else {
        group.current_cycle = group.current_cycle + 1;
        group.current_winner = None;
        group.current_bid_amount = None;
        group.last_cycle_timestamp = now;
        bid_state.cycle = group.current_cycle;
        bid_state.bids.clear();
        bid_state.winner = None;
        group.status = PoolStatus::Active { phase: CyclePhase::Bidding };
        clear_bid_flags(members);
        assert(bid_state@.bids =~= Seq::<BidEntry>::empty());
    }
}

/// Moves the pool on to its next step, provided the requester is its creator
/// and the step it is in is complete: an auction needs a bid and a winner who
/// is a member; contributions must all be in; and before any cycle but the
/// last is left, the winner must have posted the collateral it owes.
///
/// A refused request changes nothing. A pool that keeps the rules for pools
/// before the step keeps them after it.
pub fn advance_cycle(ctx: &mut AdvanceCycle, now: i64) -> (res: Result<(), HuiFiError>)
    ensures
        old(ctx).rejection(now) matches Some(e) ==> res == Err::<(), HuiFiError>(e) && *final(ctx)
            == *old(ctx),
        old(ctx).rejection(now) is None ==> res is Ok && final(ctx).authority == old(ctx).authority
            && gated_step(old(ctx).records(), final(ctx).records(), now),
        old(ctx).group_account@.wf() ==> final(ctx).group_account@.wf(),
{
    if ctx.group_account.creator != ctx.authority {
        return Err(HuiFiError::Unauthorized);
    }
    let phase = match ctx.group_account.get_current_phase() {
        Some(phase) => phase,
        None => {
            return Err(HuiFiError::InvalidPoolStatus);
        },
    };
    if !ctx.group_account.is_roster(&ctx.member_accounts) {
        return Err(HuiFiError::MemberNotFound);
    }
    match phase {
        CyclePhase::Bidding => {
            let winner = match find_winning_index(&ctx.bid_state.bids) {
                Some(at) => ctx.bid_state.bids[at],
                None => {
                    return Err(HuiFiError::NoBids);
                },
            };
            let seat = position_of(&ctx.group_account.member_addresses, &winner.bidder);
            if seat.is_none() {
                return Err(HuiFiError::InvalidWinnerAccount);
            }
            choose_winner(
                &mut ctx.group_account,
                &mut ctx.bid_state,
                &mut ctx.member_accounts,
                winner,
                seat,
            );
        },
        CyclePhase::Contributing => {
            if !ctx.group_account.all_members_contributed(&ctx.member_accounts) {
                return Err(HuiFiError::PendingContributions);
            }
            let due: i128 = now as i128 + ctx.group_account.config.payout_delay_seconds as i128;
            if due > i64::MAX as i128 {
                return Err(HuiFiError::Overflow);
            }
            ctx.group_account.status = PoolStatus::Active { phase: CyclePhase::ReadyForPayout };
            ctx.group_account.next_payout_timestamp = due as i64;
        },
        CyclePhase::ReadyForPayout => {
            if !ctx.group_account.is_completed() {
                let winner = match ctx.group_account.current_winner {
                    Some(winner) => winner,
                    None => {
                        return Err(HuiFiError::InvalidWinnerAccount);
                    },
                };
                let seat = match position_of(&ctx.group_account.member_addresses, &winner) {
                    Some(seat) => seat,
                    None => {
                        return Err(HuiFiError::InvalidWinnerAccount);
                    },
                };
                let record = &ctx.member_accounts[seat];
                if !record.has_deposited_collateral {
                    return Err(HuiFiError::CollateralNotDeposited);
                }
                if record.collateral_staked < calculate_required_collateral(
                    &ctx.group_account,
                    record,
                ) {
                    return Err(HuiFiError::InsufficientCollateral);
                }
            }
            close_cycle(&mut ctx.group_account, &mut ctx.bid_state, &mut ctx.member_accounts, now);
        },
    }
    Ok(())
}

/// Moves the pool on to its next step whether or not the step it is in is
/// complete, provided the requester is its creator and the pool is neither
/// completed nor given up. This is the way out of a pool that is stuck, not
/// the ordinary way on: it waits for no bid, no contribution, no delay and no
/// collateral.
///
/// A refused request changes nothing. A pool that keeps the rules for pools
/// before the step keeps them after it.
pub fn force_advance_cycle(ctx: &mut ForceAdvanceCycle, now: i64) -> (res: Result<
    (),
    HuiFiError,
>)
    ensures
        old(ctx).rejection() matches Some(e) ==> res == Err::<(), HuiFiError>(e) && *final(ctx)
            == *old(ctx),
        old(ctx).rejection() is None ==> res is Ok && final(ctx).authority == old(ctx).authority
            && forced_step(old(ctx).records(), final(ctx).records(), now),
        old(ctx).group_account@.wf() ==> final(ctx).group_account@.wf(),
{
    if ctx.group_account.creator != ctx.authority {
        return Err(HuiFiError::Unauthorized);
    }
    match ctx.group_account.status {
        PoolStatus::Completed => {
            return Err(HuiFiError::InvalidPoolStatus);
        },
        PoolStatus::Defaulted => {
            return Err(HuiFiError::InvalidPoolStatus);
        },
        _ => {},
    }
    if !ctx.group_account.is_roster(&ctx.member_accounts) {
        return Err(HuiFiError::MemberNotFound);
    }
    match ctx.group_account.status {
        PoolStatus::Initializing => {
            ctx.group_account.current_cycle = 0;
            ctx.group_account.last_cycle_timestamp = now;
            ctx.group_account.status = PoolStatus::Active { phase: CyclePhase::Bidding };
        },
        PoolStatus::Active { phase: CyclePhase::Bidding } => {
            match find_winning_index(&ctx.bid_state.bids) {
                None => {
                    let creator = ctx.group_account.creator;
                    ctx.bid_state.winner = Some(creator);
                    ctx.group_account.current_winner = Some(creator);
                    ctx.group_account.current_bid_amount = Some(0);
                    ctx.group_account.status = PoolStatus::Active {
                        phase: CyclePhase::Contributing,
                    };
                },
                Some(at) => {
                    let winner = ctx.bid_state.bids[at];
                    let seat = position_of(&ctx.group_account.member_addresses, &winner.bidder);
                    choose_winner(
                        &mut ctx.group_account,
                        &mut ctx.bid_state,
                        &mut ctx.member_accounts,
                        winner,
                        seat,
                    );
                },
            }
        },
        PoolStatus::Active { phase: CyclePhase::Contributing } => {
            ctx.group_account.status = PoolStatus::Active { phase: CyclePhase::ReadyForPayout };
            ctx.group_account.next_payout_timestamp = now;
        },
        PoolStatus::Active { phase: CyclePhase::ReadyForPayout } => {
            close_cycle(&mut ctx.group_account, &mut ctx.bid_state, &mut ctx.member_accounts, now);
        },
        _ => {},
    }
    Ok(())
}

/// Where the pool stands: its cycle, its bids and its winner.
pub fn check_cycle_status(ctx: &CheckCycleStatus) -> (status: CycleStatus)
    ensures
        status.cycle_number == ctx.group_account.current_cycle + 1,
        status.total_cycles == ctx.group_account.total_cycles,
        status.total_bids == ctx.bid_state.bids@.len(),
        status.current_winner == ctx.group_account.current_winner,
        status.winning_bid_amount == if ctx.group_account.current_winner is Some {
            ctx.group_account.current_bid_amount
        } else {
            None
        },
{
    CycleStatus {
        cycle_number: ctx.group_account.current_cycle as u16 + 1,
        total_cycles: ctx.group_account.total_cycles,
        total_bids: ctx.bid_state.bids.len(),
        current_winner: ctx.group_account.current_winner,
        winning_bid_amount: match ctx.group_account.current_winner {
            Some(_) => ctx.group_account.current_bid_amount,
            None => None,
        },
    }
}

impl ClosePool {
    /// Why the pool is not closed, if it is not: the first of the conditions
    /// below that fails.
    pub open spec fn rejection(&self) -> Option<HuiFiError> {
        let pool = self.group_account@;
        if pool.creator != self.signer.key {
            Some(HuiFiError::Unauthorized)
        } else if pool.status != PoolStatus::Completed {
            Some(HuiFiError::InvalidPoolStatus)
        } else if pool.unclaimed_payout != 0 {
            Some(HuiFiError::UnclaimedPayouts)
        } else if self.signer.lamports + self.vault_sol.lamports > u64::MAX {
            Some(HuiFiError::Overflow)
        } else {
            None
        }
    }
}

/// Closes a completed pool.
///
/// The pool is closed when the requester is its creator, the pool is
/// completed and no payout is left unclaimed. What the vault still holds
/// then goes to the creator, and the amount is returned. Nothing is lost and
/// nothing is made. A refused request changes nothing.
pub fn close_pool(ctx: &mut ClosePool) -> (res: Result<u64, HuiFiError>)
    ensures
        old(ctx).rejection() matches Some(e) ==> res == Err::<u64, HuiFiError>(e) && *final(ctx)
            == *old(ctx),
        old(ctx).rejection() is None ==> {
            &&& res == Ok::<u64, HuiFiError>(old(ctx).vault_sol.lamports)
            &&& final(ctx).signer == (Holding {
                lamports: (old(ctx).signer.lamports + old(ctx).vault_sol.lamports) as u64,
                ..old(ctx).signer
            })
            &&& final(ctx).vault_sol == (Holding { lamports: 0, ..old(ctx).vault_sol })
            &&& final(ctx).group_account == old(ctx).group_account
            &&& final(ctx).bid_state == old(ctx).bid_state
        },
        final(ctx).signer.lamports + final(ctx).vault_sol.lamports == old(ctx).signer.lamports
            + old(ctx).vault_sol.lamports,
{
    if ctx.group_account.creator != ctx.signer.key {
        return Err(HuiFiError::Unauthorized);
    }
    if ctx.group_account.status != PoolStatus::Completed {
        return Err(HuiFiError::InvalidPoolStatus);
    }
    if ctx.group_account.unclaimed_payout != 0 {
        return Err(HuiFiError::UnclaimedPayouts);
    }
    let vault_balance = ctx.vault_sol.lamports;
    if vault_balance > u64::MAX - ctx.signer.lamports {
        return Err(HuiFiError::Overflow);
    }
    ctx.vault_sol.lamports = 0;
    ctx.signer.lamports = ctx.signer.lamports + vault_balance;
    Ok(vault_balance)
}

} // verus!
