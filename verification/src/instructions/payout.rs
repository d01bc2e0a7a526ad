//! Paying the pooled contributions of a cycle to its winner.

use vstd::prelude::*;
use crate::constants::BASIS_POINTS_DIVISOR;
use crate::errors::HuiFiError;
use crate::state::holding::Holding;
use crate::state::member::{MemberAccount, MemberStatus};
use crate::state::pool::{CyclePhase, GroupAccount, GroupAccountView, PoolStatus};
use crate::state::pubkey::Pubkey;

verus! {

/// What a payout works on.
#[derive(Clone, Debug, PartialEq, Eq)]
pub struct ProcessPayout {
    /// Who asks: the member to be paid.
    pub user: Pubkey,
    pub group_account: GroupAccount,
    /// The record of the member to be paid.
    pub recipient_account: MemberAccount,
    /// Where the payout goes.
    pub recipient: Holding,
    /// Where the pool holds its contributions.
    pub vault_sol: Holding,
    /// Where the fee goes.
    pub protocol_treasury: Holding,
}

/// The record of a payout that was made.
#[derive(Clone, Copy, Debug, PartialEq, Eq)]
pub struct PayoutProcessed {
    pub pool: Pubkey,
    pub recipient: Pubkey,
    /// What the recipient received, after the fee.
    pub amount: u64,
    pub cycle: u8,
    pub timestamp: i64,
}

/// The fee on the payout of the running cycle: nothing in the last cycle;
/// before that, the pool's early-withdrawal rate applied to the pooled
/// contributions, rounded down, and never more than those contributions.
pub open spec fn payout_fee(pool: GroupAccountView) -> int {
    if pool.in_final_cycle() {
        0
    } else {
        let fee = pool.total_contributions * pool.config.early_withdrawal_fee_bps
            / BASIS_POINTS_DIVISOR as int;
        if fee > pool.total_contributions {
            pool.total_contributions as int
        } else {
            fee
        }
    }
}

/// What the winner of the running cycle receives: the pooled contributions
/// less the fee.
pub open spec fn net_payout(pool: GroupAccountView) -> int {
    pool.total_contributions - payout_fee(pool)
}

/// The fee on the payout of the running cycle.
pub fn calculate_payout_fee(group: &GroupAccount) -> (fee: u64)
    ensures
        fee == payout_fee(group@),
        fee <= group.total_contributions,
{
    if group.is_completed() {
        0
    } else {
        let base = group.total_contributions;
        let rate = group.config.early_withdrawal_fee_bps;
        assert(base * rate <= u64::MAX * 65535) by (nonlinear_arith)
            requires
                base <= u64::MAX,
                rate <= 65535,
        ;
        let fee: u128 = base as u128 * rate as u128 / (BASIS_POINTS_DIVISOR as u128);
        if fee > base as u128 {
            base
        } else {
            fee as u64
        }
    }
}

/// What the vault, the recipient and the treasury of a payout hold together.
pub open spec fn held_in_all(ctx: &ProcessPayout) -> int {
    ctx.vault_sol.lamports + ctx.recipient.lamports + ctx.protocol_treasury.lamports
}

impl ProcessPayout {
    /// Why the payout is refused at time `now`, if it is: the first of the
    /// conditions below that fails. Collateral is asked for in every cycle
    /// but the last.
    pub open spec fn rejection(&self, required_collateral: Option<u64>, now: i64) -> Option<
        HuiFiError,
    > {
        let pool = self.group_account@;
        let member = self.recipient_account;
        if pool.status != (PoolStatus::Active { phase: CyclePhase::ReadyForPayout }) {
            Some(HuiFiError::InvalidPhase)
        } else if member.owner != self.user {
            Some(HuiFiError::Unauthorized)
        } else if member.pool != pool.key {
            Some(HuiFiError::MemberNotFound)
        } else if pool.current_winner != Some(self.recipient.key) {
            Some(HuiFiError::NotPoolWinner)
        } else if !member.eligible_for_payout {
            Some(HuiFiError::NotEligibleForPayout)
        } else if member.has_received_payout {
            Some(HuiFiError::AlreadyReceivedPayout)
        } else if now < pool.next_payout_timestamp {
            Some(HuiFiError::PayoutDelayNotElapsed)
        } else if !pool.in_final_cycle() && !member.has_deposited_collateral {
            Some(HuiFiError::CollateralNotDeposited)
        } else if !pool.in_final_cycle() && required_collateral is None {
            Some(HuiFiError::CollateralRequired)
        } else if !pool.in_final_cycle() && member.collateral_staked
            < required_collateral->Some_0 {
            Some(HuiFiError::InsufficientCollateral)
        } else if self.vault_sol.lamports < pool.total_contributions {
            Some(HuiFiError::InsufficientVaultFunds)
        } else if self.recipient.lamports + net_payout(pool) > u64::MAX {
            Some(HuiFiError::Overflow)
        } else if self.protocol_treasury.lamports + payout_fee(pool) > u64::MAX {
            Some(HuiFiError::Overflow)
        } else {
            None
        }
    }
}

/// Pays the pooled contributions of the running cycle to its winner, less
/// the fee, which goes to the treasury.
///
/// The payout is made when the pool is ready for it, the member is the
/// winner, is entitled to the payout and has not had it, the delay has
/// passed, the vault holds the contributions, and, in every cycle but the
/// last, the member has posted at least the collateral the caller names.
/// The member is then marked as paid and withdrawn, and is no longer
/// entitled. What leaves the vault arrives at the recipient and the treasury:
/// nothing is lost and nothing is made. A refused request changes nothing.
pub fn process_payout(ctx: &mut ProcessPayout, required_collateral: Option<u64>, now: i64) -> (res:
    Result<PayoutProcessed, HuiFiError>)
    ensures
        old(ctx).rejection(required_collateral, now) matches Some(e) ==> res == Err::<
            PayoutProcessed,
            HuiFiError,
        >(e) && *final(ctx) == *old(ctx),
        old(ctx).rejection(required_collateral, now) is None ==> {
            &&& res == Ok::<PayoutProcessed, HuiFiError>(
                PayoutProcessed {
                    pool: old(ctx).group_account.key,
                    recipient: old(ctx).recipient.key,
                    amount: net_payout(old(ctx).group_account@) as u64,
                    cycle: old(ctx).group_account.current_cycle,
                    timestamp: now,
                },
            )
            &&& final(ctx).user == old(ctx).user
            &&& final(ctx).group_account == old(ctx).group_account
            &&& final(ctx).recipient_account == (MemberAccount {
                has_received_payout: true,
                eligible_for_payout: false,
                status: MemberStatus::Withdrawed,
                ..old(ctx).recipient_account
            })
            &&& final(ctx).vault_sol == (Holding {
                lamports: (old(ctx).vault_sol.lamports
                    - old(ctx).group_account.total_contributions) as u64,
                ..old(ctx).vault_sol
            })
            &&& final(ctx).recipient == (Holding {
                lamports: (old(ctx).recipient.lamports + net_payout(
                    old(ctx).group_account@,
                )) as u64,
                ..old(ctx).recipient
            })
            &&& final(ctx).protocol_treasury == (Holding {
                lamports: (old(ctx).protocol_treasury.lamports + payout_fee(
                    old(ctx).group_account@,
                )) as u64,
                ..old(ctx).protocol_treasury
            })
        },
        held_in_all(final(ctx)) == held_in_all(old(ctx)),
{
    match ctx.group_account.status {
        PoolStatus::Active { phase: CyclePhase::ReadyForPayout } => {},
        _ => {
            return Err(HuiFiError::InvalidPhase);
        },
    }
    if ctx.recipient_account.owner != ctx.user {
        return Err(HuiFiError::Unauthorized);
    }
    if ctx.recipient_account.pool != ctx.group_account.key {
        return Err(HuiFiError::MemberNotFound);
    }
    match ctx.group_account.current_winner {
        Some(winner) => {
            if winner != ctx.recipient.key {
                return Err(HuiFiError::NotPoolWinner);
            }
        },
        None => {
            return Err(HuiFiError::NotPoolWinner);
        },
    }
    if !ctx.recipient_account.eligible_for_payout {
        return Err(HuiFiError::NotEligibleForPayout);
    }
    if ctx.recipient_account.has_received_payout {
        return Err(HuiFiError::AlreadyReceivedPayout);
    }
    if now < ctx.group_account.next_payout_timestamp {
        return Err(HuiFiError::PayoutDelayNotElapsed);
    }
    if !ctx.group_account.is_completed() {
        if !ctx.recipient_account.has_deposited_collateral {
            return Err(HuiFiError::CollateralNotDeposited);
        }
        let required = match required_collateral {
            Some(required) => required,
            None => {
                return Err(HuiFiError::CollateralRequired);
            },
        };
        if ctx.recipient_account.collateral_staked < required {
            return Err(HuiFiError::InsufficientCollateral);
        }
    }
    let total_payout = ctx.group_account.total_contributions;
    if ctx.vault_sol.lamports < total_payout {
        return Err(HuiFiError::InsufficientVaultFunds);
    }
    let fee_amount = calculate_payout_fee(&ctx.group_account);
    let payout_amount = total_payout - fee_amount;
    if payout_amount > u64::MAX - ctx.recipient.lamports {
        return Err(HuiFiError::Overflow);
    }
    if fee_amount > u64::MAX - ctx.protocol_treasury.lamports {
        return Err(HuiFiError::Overflow);
    }
    ctx.vault_sol.lamports = ctx.vault_sol.lamports - total_payout;
    ctx.recipient.lamports = ctx.recipient.lamports + payout_amount;
    ctx.protocol_treasury.lamports = ctx.protocol_treasury.lamports + fee_amount;
    ctx.recipient_account.has_received_payout = true;
    ctx.recipient_account.eligible_for_payout = false;
    ctx.recipient_account.status = MemberStatus::Withdrawed;
    Ok(
        PayoutProcessed {
            pool: ctx.group_account.key,
            recipient: ctx.recipient.key,
            amount: payout_amount,
            cycle: ctx.group_account.current_cycle,
            timestamp: now,
        },
    )
}

/// The fee on a payout is nothing in the last cycle, and in any other cycle
/// the pool's early-withdrawal rate applied to the pooled contributions,
/// rounded down. In a cycle that is not the last the fee is nothing only when
/// the contributions times the rate come to less than one unit.
pub proof fn lemma_payout_fee(pool: GroupAccountView)
    requires
        pool.wf(),
        pool.status is Active,
    ensures
        pool.current_cycle == pool.total_cycles - 1 ==> payout_fee(pool) == 0,
        pool.current_cycle != pool.total_cycles - 1 ==> payout_fee(pool) == pool.total_contributions
            * pool.config.early_withdrawal_fee_bps / 10000,
        pool.total_contributions * pool.config.early_withdrawal_fee_bps >= 10000 ==> (payout_fee(
            pool,
        ) == 0 <==> pool.current_cycle == pool.total_cycles - 1),
{
    let base = pool.total_contributions as int;
    let rate = pool.config.early_withdrawal_fee_bps as int;
    assert(base * rate <= base * 10000) by (nonlinear_arith)
        requires
            0 <= base,
            0 <= rate <= 10000,
    ;
}

} // verus!
