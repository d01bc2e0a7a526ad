//! The auction of a cycle: taking bids and resolving the winner.

use vstd::prelude::*;
use crate::errors::HuiFiError;
use crate::instructions::contribution::{check_membership, membership_rejection};
use crate::state::bidding::{
    find_winning_index, is_stable_descending, lemma_stable_descending_head, lemma_winning_bid,
    sort_bids_descending, winning_bid, winning_index, BidEntry, BidState, BidStateView,
};
use crate::state::member::{MemberAccount, MemberStatus};
use crate::state::pool::{CyclePhase, GroupAccount, GroupAccountView, PoolStatus};
use crate::state::pubkey::{contains_key, Pubkey};

verus! {

/// What a member hands over to bid.
#[derive(Clone, Debug, PartialEq, Eq)]
pub struct SubmitBid {
    /// Who bids.
    pub bidder: Pubkey,
    /// The auction of the running cycle.
    pub bid_state: BidState,
    pub group_account: GroupAccount,
    /// The record of the member who bids.
    pub member_account: MemberAccount,
}

/// What the auction of a cycle is resolved with.
#[derive(Clone, Debug, PartialEq, Eq)]
pub struct FinalizeBidding {
    /// Who asks.
    pub authority: Pubkey,
    /// The auction of the running cycle.
    pub bid_state: BidState,
    pub group_account: GroupAccount,
    /// The record of the member who is expected to win.
    pub winner_member_account: MemberAccount,
}

/// What a member is entitled to the payout with.
#[derive(Clone, Debug, PartialEq, Eq)]
pub struct MarkEligible {
    /// Who asks.
    pub admin: Pubkey,
    pub group_account: GroupAccount,
    /// The record of the member to entitle.
    pub member_account: MemberAccount,
}

impl SubmitBid {
    /// Why a bid of `bid_amount` is refused, if it is: the first of the
    /// conditions below that fails.
    pub open spec fn rejection(&self, bid_amount: u64) -> Option<HuiFiError> {
        let pool = self.group_account@;
        let member = self.member_account;
        if pool.status != (PoolStatus::Active { phase: CyclePhase::Bidding }) {
            Some(HuiFiError::InvalidPhase)
        } else if membership_rejection(pool, member, self.bidder) is Some {
            membership_rejection(pool, member, self.bidder)
        } else if bid_amount == 0 {
            Some(HuiFiError::InvalidBidAmount)
        } else if !pool.member_addresses.contains(self.bidder) {
            Some(HuiFiError::NotPoolMember)
        } else if member.has_bid {
            Some(HuiFiError::AlreadyBid)
        } else {
            None
        }
    }
}

impl FinalizeBidding {
    /// Why the auction is not resolved, if it is not: the first of the
    /// conditions below that fails.
    pub open spec fn rejection(&self) -> Option<HuiFiError> {
        let pool = self.group_account@;
        let bids = self.bid_state@.bids;
        if pool.status != (PoolStatus::Active { phase: CyclePhase::Bidding }) {
            Some(HuiFiError::InvalidPhase)
        } else if self.winner_member_account.pool != pool.key {
            Some(HuiFiError::MemberNotFound)
        } else if bids.len() == 0 {
            Some(HuiFiError::NoBids)
        } else if self.winner_member_account.owner != winning_bid(bids).bidder {
            Some(HuiFiError::InvalidWinnerAccount)
        } else {
            None
        }
    }
}

/// Takes a member's bid for the payout of the running cycle.
///
/// The bid is taken when the pool is in its bidding step, the record is the
/// bidder's, the amount is not zero, the bidder is a member of the pool and
/// has not bid in this cycle. It is then added after the bids already made,
/// and the member is marked as having bid. A refused request changes
/// nothing.
pub fn submit_bid(ctx: &mut SubmitBid, bid_amount: u64) -> (res: Result<(), HuiFiError>)
    ensures
        old(ctx).rejection(bid_amount) matches Some(e) ==> res == Err::<(), HuiFiError>(e)
            && *final(ctx) == *old(ctx),
        old(ctx).rejection(bid_amount) is None ==> {
            &&& res is Ok
            &&& final(ctx).bid_state@ == (BidStateView {
                bids: old(ctx).bid_state@.bids.push(
                    BidEntry { bidder: old(ctx).bidder, amount: bid_amount },
                ),
                ..old(ctx).bid_state@
            })
            &&& final(ctx).member_account == (MemberAccount {
                has_bid: true,
                ..old(ctx).member_account
            })
            &&& final(ctx).bidder == old(ctx).bidder
            &&& final(ctx).group_account == old(ctx).group_account
        },
{
    match ctx.group_account.status {
        PoolStatus::Active { phase: CyclePhase::Bidding } => {},
        _ => {
            return Err(HuiFiError::InvalidPhase);
        },
    }
    match check_membership(&ctx.group_account, &ctx.member_account, &ctx.bidder) {
        Ok(()) => {},
        Err(e) => {
            return Err(e);
        },
    }
    if bid_amount == 0 {
        return Err(HuiFiError::InvalidBidAmount);
    }
    if !contains_key(&ctx.group_account.member_addresses, &ctx.bidder) {
        return Err(HuiFiError::NotPoolMember);
    }
    if ctx.member_account.has_bid {
        return Err(HuiFiError::AlreadyBid);
    }
    ctx.bid_state.bids.push(BidEntry { bidder: ctx.bidder, amount: bid_amount });
    ctx.member_account.has_bid = true;
    Ok(())
}

/// Resolves the auction of the running cycle.
///
/// The auction is resolved when the pool is in its bidding step, there is a
/// bid, and the record handed in is the winner's. The winner is the highest
/// bidder, and of equal bidders the one who bid first. The bids then stand
/// from the highest down, equal ones in the order in which they were made;
/// the winner and its bid are recorded in the auction and in the pool; and
/// the winner is entitled to the payout. The pool stays in its bidding step.
/// A refused request changes nothing.
pub fn finalize_bidding(ctx: &mut FinalizeBidding) -> (res: Result<(), HuiFiError>)
    ensures
        old(ctx).rejection() matches Some(e) ==> res == Err::<(), HuiFiError>(e) && *final(ctx)
            == *old(ctx),
        old(ctx).rejection() is None ==> {
            let winner = winning_bid(old(ctx).bid_state@.bids);
            &&& res is Ok
            &&& is_stable_descending(final(ctx).bid_state@.bids, old(ctx).bid_state@.bids)
            &&& final(ctx).bid_state@.bids[0] == winner
            &&& final(ctx).bid_state@ == (BidStateView {
                bids: final(ctx).bid_state@.bids,
                winner: Some(winner.bidder),
                ..old(ctx).bid_state@
            })
            &&& final(ctx).group_account@ == (GroupAccountView {
                current_winner: Some(winner.bidder),
                current_bid_amount: Some(winner.amount),
                ..old(ctx).group_account@
            })
            &&& final(ctx).winner_member_account == (MemberAccount {
                eligible_for_payout: true,
                ..old(ctx).winner_member_account
            })
            &&& final(ctx).authority == old(ctx).authority
        },
        old(ctx).group_account@.wf() ==> final(ctx).group_account@.wf(),
{
    match ctx.group_account.status {
        PoolStatus::Active { phase: CyclePhase::Bidding } => {},
        _ => {
            return Err(HuiFiError::InvalidPhase);
        },
    }
    if ctx.winner_member_account.pool != ctx.group_account.key {
        return Err(HuiFiError::MemberNotFound);
    }
    let winner = match find_winning_index(&ctx.bid_state.bids) {
        Some(at) => ctx.bid_state.bids[at],
        None => {
            return Err(HuiFiError::NoBids);
        },
    };
    if ctx.winner_member_account.owner != winner.bidder {
        return Err(HuiFiError::InvalidWinnerAccount);
    }
    sort_bids_descending(&mut ctx.bid_state.bids);
    proof {
        lemma_stable_descending_head(ctx.bid_state.bids@, old(ctx).bid_state.bids@);
    }
    ctx.bid_state.winner = Some(winner.bidder);
    ctx.group_account.current_winner = Some(winner.bidder);
    ctx.group_account.current_bid_amount = Some(winner.amount);
    ctx.winner_member_account.eligible_for_payout = true;
    Ok(())
}

/// Entitles a member to the payout, provided the record belongs to the
/// pool. A refused request changes nothing.
pub fn mark_member_eligible(ctx: &mut MarkEligible) -> (res: Result<(), HuiFiError>)
    ensures
        old(ctx).member_account.pool != old(ctx).group_account.key ==> res == Err::<
            (),
            HuiFiError,
        >(HuiFiError::MemberNotFound) && *final(ctx) == *old(ctx),
        old(ctx).member_account.pool == old(ctx).group_account.key ==> {
            &&& res is Ok
            &&& final(ctx).member_account == (MemberAccount {
                eligible_for_payout: true,
                ..old(ctx).member_account
            })
            &&& final(ctx).admin == old(ctx).admin
            &&& final(ctx).group_account == old(ctx).group_account
        },
{
    if ctx.member_account.pool != ctx.group_account.key {
        return Err(HuiFiError::MemberNotFound);
    }
    ctx.member_account.eligible_for_payout = true;
    Ok(())
}

/// Puts a member back in good standing: not entitled to a payout, not paid,
/// and active. Its stake stays as it is.
pub fn reset_member_flags(member: &mut MemberAccount)
    ensures
        *final(member) == (MemberAccount {
            eligible_for_payout: false,
            has_received_payout: false,
            status: MemberStatus::Active,
            ..*old(member)
        }),
{
    member.eligible_for_payout = false;
    member.has_received_payout = false;
    member.status = MemberStatus::Active;
}

/// When an auction is resolved, nobody has bid more than the winner, and
/// everybody who bid as much bid later.
pub proof fn lemma_winner_is_first_highest(before: FinalizeBidding, j: int)
    requires
        before.rejection() is None,
        0 <= j < before.bid_state@.bids.len(),
    ensures
        before.bid_state@.bids[j].amount <= winning_bid(before.bid_state@.bids).amount,
        before.bid_state@.bids[j].amount == winning_bid(before.bid_state@.bids).amount ==> exists|
            w: int,
        |
            0 <= w <= j && #[trigger] before.bid_state@.bids[w] == winning_bid(
                before.bid_state@.bids,
            ),
{
    let bids = before.bid_state@.bids;
    lemma_winning_bid(bids);
    let w = winning_index(bids);
    if bids[j].amount == winning_bid(bids).amount {
        assert(0 <= w <= j && bids[w] == winning_bid(bids));
    }
}

} // verus!
