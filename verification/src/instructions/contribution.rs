//! Contributions: what a member owes for the running cycle, and recording
//! that it was paid.

use vstd::prelude::*;
use crate::errors::HuiFiError;
use crate::state::holding::{Holding, TokenHolding, Transfer};
use crate::state::member::MemberAccount;
use crate::state::pool::{CyclePhase, GroupAccount, GroupAccountView, PoolStatus};
use crate::state::pubkey::{same_uuid, Pubkey};

verus! {

/// What a member hands over to contribute to a pool that settles in the
/// native asset.
#[derive(Clone, Debug, PartialEq, Eq)]
pub struct ContributeSol {
    /// Who pays.
    pub contributor: Pubkey,
    pub group_account: GroupAccount,
    /// The record of the member who pays.
    pub member_account: MemberAccount,
    /// Where the pool holds its contributions.
    pub vault_sol: Holding,
}

/// What a member hands over to contribute to a pool that settles in a token.
#[derive(Clone, Debug, PartialEq, Eq)]
pub struct ContributeSpl {
    /// Who pays.
    pub contributor: Pubkey,
    pub group_account: GroupAccount,
    /// The record of the member who pays.
    pub member_account: MemberAccount,
    /// Where the contribution comes from.
    pub contributor_token_account: TokenHolding,
    /// Where the pool holds its contributions.
    pub vault_spl: TokenHolding,
}

/// What a member hands over to contribute to a pool, whatever it settles in.
#[derive(Clone, Debug, PartialEq, Eq)]
pub struct Contribute {
    /// Who pays.
    pub contributor: Pubkey,
    pub group_account: GroupAccount,
    /// The record of the member who pays.
    pub member_account: MemberAccount,
    /// Where the contribution comes from.
    pub contributor_token_account: TokenHolding,
    /// Where the pool holds its contributions.
    pub vault: TokenHolding,
}

/// `amount`, or nothing where `amount` is less than nothing.
pub open spec fn floored_at_zero(amount: int) -> int {
    if amount >= 0 {
        amount
    } else {
        0
    }
}

/// What the winner of the running cycle bid, or nothing while no bid has
/// won.
pub open spec fn winning_discount(pool: GroupAccountView) -> int {
    match pool.current_bid_amount {
        Some(amount) => amount as int,
        None => 0,
    }
}

/// What `contributor` owes the pool for the running cycle: the pool's
/// contribution, less, for the winner of the cycle, what it bid; never less
/// than nothing.
pub open spec fn contribution_due(pool: GroupAccountView, contributor: Pubkey) -> int {
    if pool.current_winner == Some(contributor) {
        floored_at_zero(pool.config.contribution_amount - winning_discount(pool))
    } else {
        pool.config.contribution_amount as int
    }
}

/// Why `member` is not the record of `who` in `pool`, if it is not.
pub open spec fn membership_rejection(
    pool: GroupAccountView,
    member: MemberAccount,
    who: Pubkey,
) -> Option<HuiFiError> {
    if member.owner != who {
        Some(HuiFiError::Unauthorized)
    } else if member.pool != pool.key {
        Some(HuiFiError::MemberNotFound)
    } else {
        None
    }
}

/// Why the holding area `tokens` cannot pay for `who` in `pool`, if it
/// cannot.
pub open spec fn token_source_rejection(
    pool: GroupAccountView,
    tokens: TokenHolding,
    who: Pubkey,
) -> Option<HuiFiError> {
    if tokens.owner != who {
        Some(HuiFiError::InvalidTokenAccountOwner)
    } else if tokens.mint != pool.token_mint {
        Some(HuiFiError::InvalidPoolConfig)
    } else {
        None
    }
}

/// Why a contribution of `amount` by `contributor` is refused, if it is: the
/// first of the conditions below that fails.
pub open spec fn contribution_rejection(
    pool: GroupAccountView,
    member: MemberAccount,
    contributor: Pubkey,
    amount: u64,
) -> Option<HuiFiError> {
    if pool.status != (PoolStatus::Active { phase: CyclePhase::Contributing }) {
        Some(HuiFiError::InvalidPhase)
    } else if membership_rejection(pool, member, contributor) is Some {
        membership_rejection(pool, member, contributor)
    } else if member.contributions_made > pool.current_cycle {
        Some(HuiFiError::AlreadyContributed)
    } else if amount != contribution_due(pool, contributor) {
        Some(HuiFiError::InsufficientContribution)
    } else {
        None
    }
}

/// The pool once `amount` has been added to its contributions. The sum stops
/// at the largest amount there is.
pub open spec fn pool_with_contribution(pool: GroupAccountView, amount: u64) -> GroupAccountView {
    GroupAccountView {
        total_contributions: if pool.total_contributions + amount > u64::MAX {
            u64::MAX
        } else {
            (pool.total_contributions + amount) as u64
        },
        ..pool
    }
}

/// The record of a member once it has contributed at time `now`. The count
/// stops at the largest count there is.
pub open spec fn member_with_contribution(member: MemberAccount, now: i64) -> MemberAccount {
    MemberAccount {
        contributions_made: if member.contributions_made == u8::MAX {
            u8::MAX
        } else {
            (member.contributions_made + 1) as u8
        },
        last_contribution_timestamp: now,
        ..member
    }
}

/// What `contributor` owes the pool for the running cycle: for the winner of
/// the cycle the pool's contribution less the winning bid, but not less than
/// nothing; for everyone else the pool's contribution.
pub fn required_contribution(group: &GroupAccount, contributor: &Pubkey) -> (due: u64)
    ensures
        due == contribution_due(group@, *contributor),
        group.current_winner == Some(*contributor) ==> due == floored_at_zero(
            group.config.contribution_amount - winning_discount(group@),
        ),
        group.current_winner != Some(*contributor) ==> due == group.config.contribution_amount,
{
    let is_winner = match group.current_winner {
        Some(winner) => winner == *contributor,
        None => false,
    };
    let discount = if is_winner {
        match group.current_bid_amount {
            Some(amount) => amount,
            None => 0,
        }
    } else {
        0
    };
    group.config.contribution_amount.saturating_sub(discount)
}

/// Checks that `member` is the record of `who` in `group`.
pub fn check_membership(group: &GroupAccount, member: &MemberAccount, who: &Pubkey) -> (res:
    Result<(), HuiFiError>)
    ensures
        res == match membership_rejection(group@, *member, *who) {
            Some(e) => Err::<(), HuiFiError>(e),
            None => Ok::<(), HuiFiError>(()),
        },
{
    if member.owner != *who {
        Err(HuiFiError::Unauthorized)
    } else if member.pool != group.key {
        Err(HuiFiError::MemberNotFound)
    } else {
        Ok(())
    }
}

/// Checks that the holding area `tokens` can pay for `who` in `group`.
pub fn check_token_source(group: &GroupAccount, tokens: &TokenHolding, who: &Pubkey) -> (res:
    Result<(), HuiFiError>)
    ensures
        res == match token_source_rejection(group@, *tokens, *who) {
            Some(e) => Err::<(), HuiFiError>(e),
            None => Ok::<(), HuiFiError>(()),
        },
{
    if tokens.owner != *who {
        Err(HuiFiError::InvalidTokenAccountOwner)
    } else if tokens.mint != group.token_mint {
        Err(HuiFiError::InvalidPoolConfig)
    } else {
        Ok(())
    }
}

/// Adds a contribution to the pool and to the member's record.
fn apply_contribution(group: &mut GroupAccount, member: &mut MemberAccount, amount: u64, now: i64)
    ensures
        final(group)@ == pool_with_contribution(old(group)@, amount),
        *final(member) == member_with_contribution(*old(member), now),
{
    member.contributions_made = member.contributions_made.saturating_add(1);
    member.last_contribution_timestamp = now;
    group.total_contributions = group.total_contributions.saturating_add(amount);
}

/// Records that `contributor` has paid `amount` for the running cycle.
///
/// The contribution is taken when the pool collects contributions, `member`
/// is the contributor's record in the pool and shows no contribution for the
/// running cycle yet, and `amount` is exactly what the contributor owes. The
/// member is then recorded with one more contribution, made at `now`, and the
/// pool with `amount` more. A refused request changes nothing.
pub fn record_contribution(
    group: &mut GroupAccount,
    member: &mut MemberAccount,
    contributor: &Pubkey,
    amount: u64,
    now: i64,
) -> (res: Result<(), HuiFiError>)
    ensures
        contribution_rejection(old(group)@, *old(member), *contributor, amount) matches Some(e)
            ==> res == Err::<(), HuiFiError>(e) && *final(group) == *old(group) && *final(member)
            == *old(member),
        contribution_rejection(old(group)@, *old(member), *contributor, amount) is None ==> res
            is Ok && final(group)@ == pool_with_contribution(old(group)@, amount) && *final(member)
            == member_with_contribution(*old(member), now),
        old(group)@.wf() ==> final(group)@.wf(),
{
    match group.status {
        PoolStatus::Active { phase: CyclePhase::Contributing } => {},
        _ => {
            return Err(HuiFiError::InvalidPhase);
        },
    }
    match check_membership(group, member, contributor) {
        Ok(()) => {},
        Err(e) => {
            return Err(e);
        },
    }
    if member.contributions_made > group.current_cycle {
        return Err(HuiFiError::AlreadyContributed);
    }
    if amount != required_contribution(group, contributor) {
        return Err(HuiFiError::InsufficientContribution);
    }
    apply_contribution(group, member, amount, now);
    Ok(())
}

impl ContributeSol {
    /// Why the contribution is refused, if it is: the first of the
    /// conditions below that fails.
    pub open spec fn rejection(&self, uuid: [u8; 6], amount: u64) -> Option<HuiFiError> {
        let pool = self.group_account@;
        let member = self.member_account;
        if pool.status != (PoolStatus::Active { phase: CyclePhase::Contributing }) {
            Some(HuiFiError::InvalidPhase)
        } else if !pool.config.is_native_sol {
            Some(HuiFiError::InvalidPoolType)
        } else if membership_rejection(pool, member, self.contributor) is Some {
            membership_rejection(pool, member, self.contributor)
        } else if member.contributions_made > pool.current_cycle {
            Some(HuiFiError::AlreadyContributed)
        } else if pool.uuid != uuid {
            Some(HuiFiError::InvalidPoolUUID)
        } else if amount != contribution_due(pool, self.contributor) {
            Some(HuiFiError::InsufficientContribution)
        } else {
            None
        }
    }
}

impl ContributeSpl {
    /// Why the contribution is refused, if it is: the first of the
    /// conditions below that fails.
    pub open spec fn rejection(&self, uuid: [u8; 6], amount: u64) -> Option<HuiFiError> {
        let pool = self.group_account@;
        let member = self.member_account;
        if pool.status != (PoolStatus::Active { phase: CyclePhase::Contributing }) {
            Some(HuiFiError::InvalidPhase)
        } else if pool.config.is_native_sol {
            Some(HuiFiError::InvalidPoolType)
        } else if membership_rejection(pool, member, self.contributor) is Some {
            membership_rejection(pool, member, self.contributor)
        } else if member.contributions_made > pool.current_cycle {
            Some(HuiFiError::AlreadyContributed)
        } else if token_source_rejection(pool, self.contributor_token_account, self.contributor)
            is Some {
            token_source_rejection(pool, self.contributor_token_account, self.contributor)
        } else if pool.uuid != uuid {
            Some(HuiFiError::InvalidPoolUUID)
        } else if amount != contribution_due(pool, self.contributor) {
            Some(HuiFiError::InsufficientContribution)
        } else {
            None
        }
    }
}

impl Contribute {
    /// Why the contribution is refused, if it is: the first of the
    /// conditions below that fails.
    pub open spec fn rejection(&self, amount: u64) -> Option<HuiFiError> {
        let pool = self.group_account@;
        let member = self.member_account;
        if pool.status != (PoolStatus::Active { phase: CyclePhase::Contributing }) {
            Some(HuiFiError::InvalidPhase)
        } else if membership_rejection(pool, member, self.contributor) is Some {
            membership_rejection(pool, member, self.contributor)
        } else if member.contributions_made > pool.current_cycle {
            Some(HuiFiError::AlreadyContributed)
        } else if token_source_rejection(pool, self.contributor_token_account, self.contributor)
            is Some {
            token_source_rejection(pool, self.contributor_token_account, self.contributor)
        } else if amount != contribution_due(pool, self.contributor) {
            Some(HuiFiError::InsufficientContribution)
        } else {
            None
        }
    }
}

/// Takes a member's contribution to a pool that settles in the native asset.
///
/// The contribution is taken when the pool collects contributions, settles
/// in the native asset and carries the tag `uuid`, the record is the
/// contributor's and shows no contribution for the running cycle yet, and
/// `amount` is exactly what the contributor owes. It is then recorded, and
/// the movement the host must make, from the contributor to the pool's
/// vault, is returned. A refused request changes nothing.
pub fn contribute_sol(ctx: &mut ContributeSol, uuid: [u8; 6], amount: u64, now: i64) -> (res:
    Result<Transfer, HuiFiError>)
    ensures
        old(ctx).rejection(uuid, amount) matches Some(e) ==> res == Err::<Transfer, HuiFiError>(e)
            && *final(ctx) == *old(ctx),
        old(ctx).rejection(uuid, amount) is None ==> {
            &&& res == Ok::<Transfer, HuiFiError>(
                Transfer {
                    from: old(ctx).contributor,
                    to: old(ctx).vault_sol.key,
                    authority: old(ctx).contributor,
                    amount,
                },
            )
            &&& final(ctx).group_account@ == pool_with_contribution(
                old(ctx).group_account@,
                amount,
            )
            &&& final(ctx).member_account == member_with_contribution(
                old(ctx).member_account,
                now,
            )
            &&& final(ctx).contributor == old(ctx).contributor
            &&& final(ctx).vault_sol == old(ctx).vault_sol
        },
        old(ctx).group_account@.wf() ==> final(ctx).group_account@.wf(),
{
    match ctx.group_account.status {
        PoolStatus::Active { phase: CyclePhase::Contributing } => {},
        _ => {
            return Err(HuiFiError::InvalidPhase);
        },
    }
    if !ctx.group_account.config.is_native_sol {
        return Err(HuiFiError::InvalidPoolType);
    }
    match check_membership(&ctx.group_account, &ctx.member_account, &ctx.contributor) {
        Ok(()) => {},
        Err(e) => {
            return Err(e);
        },
    }
    if ctx.member_account.contributions_made > ctx.group_account.current_cycle {
        return Err(HuiFiError::AlreadyContributed);
    }
    if !same_uuid(&ctx.group_account.uuid, &uuid) {
        return Err(HuiFiError::InvalidPoolUUID);
    }
    if amount != required_contribution(&ctx.group_account, &ctx.contributor) {
        return Err(HuiFiError::InsufficientContribution);
    }
    apply_contribution(&mut ctx.group_account, &mut ctx.member_account, amount, now);
    Ok(
        Transfer {
            from: ctx.contributor,
            to: ctx.vault_sol.key,
            authority: ctx.contributor,
            amount,
        },
    )
}

/// Takes a member's contribution to a pool that settles in a token.
///
/// The contribution is taken when the pool collects contributions, settles
/// in a token and carries the tag `uuid`, the record is the contributor's
/// and shows no contribution for the running cycle yet, the tokens are the
/// contributor's and of the pool's kind, and `amount` is exactly what the
/// contributor owes. It is then recorded, and the movement the host must
/// make, from the contributor's tokens to the pool's vault, is returned. A
/// refused request changes nothing.
pub fn contribute_spl(ctx: &mut ContributeSpl, uuid: [u8; 6], amount: u64, now: i64) -> (res:
    Result<Transfer, HuiFiError>)
    ensures
        old(ctx).rejection(uuid, amount) matches Some(e) ==> res == Err::<Transfer, HuiFiError>(e)
            && *final(ctx) == *old(ctx),
        old(ctx).rejection(uuid, amount) is None ==> {
            &&& res == Ok::<Transfer, HuiFiError>(
                Transfer {
                    from: old(ctx).contributor_token_account.key,
                    to: old(ctx).vault_spl.key,
                    authority: old(ctx).contributor,
                    amount,
                },
            )
            &&& final(ctx).group_account@ == pool_with_contribution(
                old(ctx).group_account@,
                amount,
            )
            &&& final(ctx).member_account == member_with_contribution(
                old(ctx).member_account,
                now,
            )
            &&& final(ctx).contributor == old(ctx).contributor
            &&& final(ctx).contributor_token_account == old(ctx).contributor_token_account
            &&& final(ctx).vault_spl == old(ctx).vault_spl
        },
        old(ctx).group_account@.wf() ==> final(ctx).group_account@.wf(),
{
    match ctx.group_account.status {
        PoolStatus::Active { phase: CyclePhase::Contributing } => {},
        _ => {
            return Err(HuiFiError::InvalidPhase);
        },
    }
    if ctx.group_account.config.is_native_sol {
        return Err(HuiFiError::InvalidPoolType);
    }
    match check_membership(&ctx.group_account, &ctx.member_account, &ctx.contributor) {
        Ok(()) => {},
        Err(e) => {
            return Err(e);
        },
    }
    if ctx.member_account.contributions_made > ctx.group_account.current_cycle {
        return Err(HuiFiError::AlreadyContributed);
    }
    match check_token_source(&ctx.group_account, &ctx.contributor_token_account, &ctx.contributor) {
        Ok(()) => {},
        Err(e) => {
            return Err(e);
        },
    }
    if !same_uuid(&ctx.group_account.uuid, &uuid) {
        return Err(HuiFiError::InvalidPoolUUID);
    }
    if amount != required_contribution(&ctx.group_account, &ctx.contributor) {
        return Err(HuiFiError::InsufficientContribution);
    }
    apply_contribution(&mut ctx.group_account, &mut ctx.member_account, amount, now);
    Ok(
        Transfer {
            from: ctx.contributor_token_account.key,
            to: ctx.vault_spl.key,
            authority: ctx.contributor,
            amount,
        },
    )
}

/// Takes a member's contribution to a pool, whatever it settles in.
///
/// The contribution is taken when the pool collects contributions, the
/// record is the contributor's and shows no contribution for the running
/// cycle yet, the tokens are the contributor's and of the pool's kind, and
/// `amount` is exactly what the contributor owes. It is then recorded, and
/// the movement the host must make, from the contributor's tokens to the
/// pool's vault, is returned. A refused request changes nothing.
pub fn contribute(ctx: &mut Contribute, amount: u64, now: i64) -> (res: Result<
    Transfer,
    HuiFiError,
>)
    ensures
        old(ctx).rejection(amount) matches Some(e) ==> res == Err::<Transfer, HuiFiError>(e)
            && *final(ctx) == *old(ctx),
        old(ctx).rejection(amount) is None ==> {
            &&& res == Ok::<Transfer, HuiFiError>(
                Transfer {
                    from: old(ctx).contributor_token_account.key,
                    to: old(ctx).vault.key,
                    authority: old(ctx).contributor,
                    amount,
                },
            )
            &&& final(ctx).group_account@ == pool_with_contribution(
                old(ctx).group_account@,
                amount,
            )
            &&& final(ctx).member_account == member_with_contribution(
                old(ctx).member_account,
                now,
            )
            &&& final(ctx).contributor == old(ctx).contributor
            &&& final(ctx).contributor_token_account == old(ctx).contributor_token_account
            &&& final(ctx).vault == old(ctx).vault
        },
        old(ctx).group_account@.wf() ==> final(ctx).group_account@.wf(),
{
    match ctx.group_account.status {
        PoolStatus::Active { phase: CyclePhase::Contributing } => {},
        _ => {
            return Err(HuiFiError::InvalidPhase);
        },
    }
    match check_membership(&ctx.group_account, &ctx.member_account, &ctx.contributor) {
        Ok(()) => {},
        Err(e) => {
            return Err(e);
        },
    }
    if ctx.member_account.contributions_made > ctx.group_account.current_cycle {
        return Err(HuiFiError::AlreadyContributed);
    }
    match check_token_source(&ctx.group_account, &ctx.contributor_token_account, &ctx.contributor) {
        Ok(()) => {},
        Err(e) => {
            return Err(e);
        },
    }
    if amount != required_contribution(&ctx.group_account, &ctx.contributor) {
        return Err(HuiFiError::InsufficientContribution);
    }
    apply_contribution(&mut ctx.group_account, &mut ctx.member_account, amount, now);
    Ok(
        Transfer {
            from: ctx.contributor_token_account.key,
            to: ctx.vault.key,
            authority: ctx.contributor,
            amount,
        },
    )
}

} // verus!
