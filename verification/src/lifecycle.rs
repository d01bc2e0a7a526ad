//! What holds of a pool throughout its life.

use vstd::prelude::*;
use crate::errors::{ErrorKind, HuiFiError};
use crate::instructions::bidding::SubmitBid;
use crate::instructions::collateral::{DepositSolCollateral, DepositSplCollateral};
use crate::instructions::contribution::{
    contribution_rejection, Contribute, ContributeSol, ContributeSpl,
};
use crate::instructions::payout::ProcessPayout;
use crate::state::member::MemberAccount;
use crate::state::pool::{GroupAccountView, PoolStatus};
use crate::state::pubkey::Pubkey;

verus! {

/// Whether a request is refused because of the step the pool is in.
pub open spec fn refused_for_phase(rejection: Option<HuiFiError>) -> bool {
    rejection matches Some(e) && e.kind_of() == ErrorKind::PhaseError
}

/// Every pool has between three and ten participants and runs one cycle for
/// each of them.
pub proof fn lemma_pool_size(pool: GroupAccountView)
    requires
        pool.wf(),
    ensures
        3 <= pool.config.max_participants <= 10,
        pool.total_cycles == pool.config.max_participants,
{
}

/// Given the records of a pool's members, all members have contributed for
/// the running cycle exactly when every record shows more contributions than
/// the number of the running cycle.
pub proof fn lemma_all_contributed(pool: GroupAccountView, members: Seq<MemberAccount>)
    requires
        pool.is_roster(members),
    ensures
        (pool.is_roster(members) && pool.all_paid(members)) <==> (forall|i: int|
            0 <= i < members.len() ==> (#[trigger] members[i]).contributions_made
                > pool.current_cycle),
{
}

/// A completed pool takes no bid: the request is refused because of the
/// step the pool is in.
pub proof fn lemma_completed_takes_no_bid(request: SubmitBid, bid_amount: u64)
    requires
        request.group_account@.status == PoolStatus::Completed,
    ensures
        refused_for_phase(request.rejection(bid_amount)),
{
}

/// A completed pool takes no contribution, in whatever asset: the request is
/// refused because of the step the pool is in.
pub proof fn lemma_completed_takes_no_contribution(
    native: ContributeSol,
    token: ContributeSpl,
    either: Contribute,
    pool: GroupAccountView,
    member: MemberAccount,
    contributor: Pubkey,
    uuid: [u8; 6],
    amount: u64,
)
    requires
        native.group_account@.status == PoolStatus::Completed,
        token.group_account@.status == PoolStatus::Completed,
        either.group_account@.status == PoolStatus::Completed,
        pool.status == PoolStatus::Completed,
    ensures
        refused_for_phase(native.rejection(uuid, amount)),
        refused_for_phase(token.rejection(uuid, amount)),
        refused_for_phase(either.rejection(amount)),
        refused_for_phase(contribution_rejection(pool, member, contributor, amount)),
{
}

/// A completed pool takes no collateral, in whatever asset: the request is
/// refused because of the step the pool is in.
pub proof fn lemma_completed_takes_no_collateral(
    native: DepositSolCollateral,
    token: DepositSplCollateral,
    amount: u64,
)
    requires
        native.group_account@.status == PoolStatus::Completed,
        token.group_account@.status == PoolStatus::Completed,
    ensures
        refused_for_phase(native.rejection(amount)),
        refused_for_phase(token.rejection(amount)),
{
}

/// A completed pool pays nothing out: the request is refused because of the
/// step the pool is in.
pub proof fn lemma_completed_pays_nothing(
    request: ProcessPayout,
    required_collateral: Option<u64>,
    now: i64,
)
    requires
        request.group_account@.status == PoolStatus::Completed,
    ensures
        refused_for_phase(request.rejection(required_collateral, now)),
{
}

} // verus!
