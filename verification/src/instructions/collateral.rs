//! Collateral: how much a winner owes, posting it, seizing it on default, and
//! giving it back when the pool is done.

use vstd::prelude::*;
use crate::constants::{BASIS_POINTS_DIVISOR, COLLATERAL_RATIO_PERCENT, SLASH_PENALTY_BPS};
use crate::errors::HuiFiError;
use crate::state::holding::{Holding, TokenHolding, Transfer};
use crate::state::member::{MemberAccount, MemberStatus};
use crate::state::pool::{CyclePhase, GroupAccount, GroupAccountView, PoolStatus};
use crate::state::pubkey::Pubkey;

verus! {

/// What the other members have at risk when `member` is paid: everything
/// contributed to the pool, less what the member has paid in itself. A
/// member has paid in the per-cycle contribution once for each contribution
/// it is recorded with.
pub open spec fn exposure(pool: GroupAccountView, member: MemberAccount) -> int {
    let paid_in = pool.config.contribution_amount * member.contributions_made;
    if pool.total_contributions >= paid_in {
        pool.total_contributions - paid_in
    } else {
        0
    }
}

/// The collateral `member` owes as the winner of the running cycle: 130% of
/// the exposure, rounded down, and no more than the largest amount there is.
pub open spec fn required_collateral(pool: GroupAccountView, member: MemberAccount) -> int {
    let exact = exposure(pool, member) * COLLATERAL_RATIO_PERCENT / 100;
    if exact > u64::MAX {
        u64::MAX as int
    } else {
        exact
    }
}

/// The collateral `member` owes as the winner of the running cycle.
pub fn calculate_required_collateral(group: &GroupAccount, member: &MemberAccount) -> (required:
    u64)
    ensures
        required == required_collateral(group@, *member),
{
    let amount = group.config.contribution_amount;
    let made = member.contributions_made;
    assert(amount * made <= u64::MAX * 255) by (nonlinear_arith)
        requires
            amount <= u64::MAX,
            made <= 255,
    ;
    let paid_in: u128 = amount as u128 * made as u128;
    let total: u128 = group.total_contributions as u128;
    let exposed: u128 = if total >= paid_in {
        total - paid_in
    } else {
        0
    };
    let exact: u128 = exposed * (COLLATERAL_RATIO_PERCENT as u128) / 100;
    if exact > u64::MAX as u128 {
        u64::MAX
    } else {
        exact as u64
    }
}

/// What a winner hands over to post collateral in a pool that settles in
/// the native asset.
#[derive(Clone, Debug, PartialEq, Eq)]
pub struct DepositSolCollateral {
    /// Who posts: the winner of the running cycle.
    pub user: Pubkey,
    pub group_account: GroupAccount,
    /// The record of the member who posts.
    pub member_account: MemberAccount,
    /// Where the pool holds collateral.
    pub collateral_vault_sol: Holding,
}

/// What a winner hands over to post collateral in a pool that settles in a
/// token.
#[derive(Clone, Debug, PartialEq, Eq)]
pub struct DepositSplCollateral {
    /// Who posts: the winner of the running cycle.
    pub user: Pubkey,
    pub group_account: GroupAccount,
    /// The record of the member who posts.
    pub member_account: MemberAccount,
    /// Where the collateral comes from.
    pub user_token_account: TokenHolding,
    /// Where the pool holds collateral.
    pub collateral_vault_spl: TokenHolding,
    /// The token the collateral is posted in.
    pub token_mint: Pubkey,
}

/// What a member hands over to take its collateral back.
#[derive(Clone, Debug, PartialEq, Eq)]
pub struct WithdrawSolCollateral {
    /// Who asks.
    pub user: Pubkey,
    pub group_account: GroupAccount,
    /// The record of the member who asks.
    pub member_account: MemberAccount,
    /// Where the pool holds collateral.
    pub collateral_vault_sol: Holding,
}

/// What the collateral of a defaulted member is seized with. The holding
/// areas that the pool's asset does not need may be left out.
#[derive(Clone, Debug, PartialEq, Eq)]
pub struct SlashCollateral {
    /// Who asks.
    pub admin: Pubkey,
    pub group_account: GroupAccount,
    /// The record of the defaulted member.
    pub member_account: MemberAccount,
    /// Where the pool holds collateral in the native asset.
    pub collateral_vault_sol: Option<Holding>,
    /// Where the pool holds collateral in its token.
    pub collateral_vault_spl: Option<TokenHolding>,
    pub treasury_usdc: Option<TokenHolding>,
    pub treasury_usdt: Option<TokenHolding>,
    pub treasury_jitosol: Option<TokenHolding>,
    /// Where penalties in the native asset go.
    pub treasury_sol: Option<Holding>,
    /// Where the pool holds its contributions.
    pub pool_vault: Option<TokenHolding>,
    /// The program that moves tokens.
    pub token_program: Option<Pubkey>,
}

/// How seized collateral reaches the pool and the treasury.
#[derive(Clone, Copy, Debug, PartialEq, Eq)]
pub enum SlashSettlement {
    /// The balances of the holding areas handed in have been changed.
    Native,
    /// The host must make these two movements of tokens.
    Token {
        /// The payout, back to the pool.
        repayment: Transfer,
        /// The penalty, to the treasury.
        penalty: Transfer,
    },
}

/// The penalty on a defaulted payout: five percent of it, rounded down.
pub open spec fn slash_penalty(payout_amount: u64) -> int {
    payout_amount * SLASH_PENALTY_BPS / BASIS_POINTS_DIVISOR as int
}

/// What is seized for a defaulted payout: the payout and the penalty.
pub open spec fn total_slash(payout_amount: u64) -> int {
    payout_amount + slash_penalty(payout_amount)
}

/// The penalty on a defaulted payout.
pub fn calculate_slash_penalty(payout_amount: u64) -> (penalty: u64)
    ensures
        penalty == slash_penalty(payout_amount),
        penalty <= payout_amount,
{
    (payout_amount as u128 * (SLASH_PENALTY_BPS as u128) / (BASIS_POINTS_DIVISOR as u128)) as u64
}

/// Why a deposit of `amount` by `user` is refused, if it is, once the pool
/// is known to be ready for payout and to settle in the right asset: the
/// first of the conditions below that fails.
pub open spec fn deposit_rejection(
    pool: GroupAccountView,
    member: MemberAccount,
    user: Pubkey,
    amount: u64,
) -> Option<HuiFiError> {
    if member.owner != user {
        Some(HuiFiError::Unauthorized)
    } else if member.pool != pool.key {
        Some(HuiFiError::MemberNotFound)
    } else if pool.current_winner != Some(user) {
        Some(HuiFiError::NotPoolWinner)
    } else if amount < required_collateral(pool, member) {
        Some(HuiFiError::InsufficientCollateral)
    } else if member.has_deposited_collateral {
        Some(HuiFiError::AlreadyDepositedCollateral)
    } else if member.collateral_staked + amount > u64::MAX {
        Some(HuiFiError::Overflow)
    } else {
        None
    }
}

/// The record of a member that has posted `amount`.
pub open spec fn with_deposit(member: MemberAccount, amount: u64) -> MemberAccount {
    MemberAccount {
        collateral_staked: (member.collateral_staked + amount) as u64,
        has_deposited_collateral: true,
        ..member
    }
}

/// Checks a deposit and records it.
fn deposit_collateral(
    group: &GroupAccount,
    member: &mut MemberAccount,
    user: Pubkey,
    amount: u64,
) -> (res: Result<(), HuiFiError>)
    ensures
        deposit_rejection(group@, *old(member), user, amount) matches Some(e) ==> res == Err::<
            (),
            HuiFiError,
        >(e) && *final(member) == *old(member),
        deposit_rejection(group@, *old(member), user, amount) is None ==> res is Ok
            && *final(member) == with_deposit(*old(member), amount),
{
    if member.owner != user {
        return Err(HuiFiError::Unauthorized);
    }
    if member.pool != group.key {
        return Err(HuiFiError::MemberNotFound);
    }
    match group.current_winner {
        Some(winner) => {
            if winner != user {
                return Err(HuiFiError::NotPoolWinner);
            }
        },
        None => {
            return Err(HuiFiError::NotPoolWinner);
        },
    }
    if amount < calculate_required_collateral(group, member) {
        return Err(HuiFiError::InsufficientCollateral);
    }
    if member.has_deposited_collateral {
        return Err(HuiFiError::AlreadyDepositedCollateral);
    }
    if amount > u64::MAX - member.collateral_staked {
        return Err(HuiFiError::Overflow);
    }
    member.collateral_staked = member.collateral_staked + amount;
    member.has_deposited_collateral = true;
    Ok(())
}

impl DepositSolCollateral {
    /// Why the deposit is refused, if it is: the first of the conditions
    /// below that fails.
    pub open spec fn rejection(&self, amount: u64) -> Option<HuiFiError> {
        let pool = self.group_account@;
        if pool.status != (PoolStatus::Active { phase: CyclePhase::ReadyForPayout }) {
            Some(HuiFiError::InvalidPhase)
        } else if !pool.config.is_native_sol {
            Some(HuiFiError::InvalidPoolType)
        } else {
            deposit_rejection(pool, self.member_account, self.user, amount)
        }
    }
}

impl DepositSplCollateral {
    /// Why the deposit is refused, if it is: the first of the conditions
    /// below that fails.
    pub open spec fn rejection(&self, amount: u64) -> Option<HuiFiError> {
        let pool = self.group_account@;
        if pool.status != (PoolStatus::Active { phase: CyclePhase::ReadyForPayout }) {
            Some(HuiFiError::InvalidPhase)
        } else if pool.config.is_native_sol {
            Some(HuiFiError::InvalidPoolType)
        } else if self.token_mint != pool.token_mint {
            Some(HuiFiError::InvalidTokenMint)
        } else {
            deposit_rejection(pool, self.member_account, self.user, amount)
        }
    }
}

/// Posts the winner's collateral in a pool that settles in the native asset.
///
/// The deposit is taken when the pool is ready for payout and settles in the
/// native asset, the depositor is the winner of the running cycle and has
/// not posted before, and the amount covers what the winner owes. It is then
/// added to the member's stake, and the movement the host must make, from the
/// depositor to the pool's collateral, is returned. A refused request changes
/// nothing.
pub fn deposit_sol_collateral(ctx: &mut DepositSolCollateral, amount: u64) -> (res: Result<
    Transfer,
    HuiFiError,
>)
    ensures
        old(ctx).rejection(amount) matches Some(e) ==> res == Err::<Transfer, HuiFiError>(e)
            && *final(ctx) == *old(ctx),
        old(ctx).rejection(amount) is None ==> {
            &&& res == Ok::<Transfer, HuiFiError>(
                Transfer {
                    from: old(ctx).user,
                    to: old(ctx).collateral_vault_sol.key,
                    authority: old(ctx).user,
                    amount,
                },
            )
            &&& final(ctx).member_account == with_deposit(old(ctx).member_account, amount)
            &&& final(ctx).user == old(ctx).user
            &&& final(ctx).group_account == old(ctx).group_account
            &&& final(ctx).collateral_vault_sol == old(ctx).collateral_vault_sol
        },
{
    match ctx.group_account.status {
        PoolStatus::Active { phase: CyclePhase::ReadyForPayout } => {},
        _ => {
            return Err(HuiFiError::InvalidPhase);
        },
    }
    if !ctx.group_account.config.is_native_sol {
        return Err(HuiFiError::InvalidPoolType);
    }
    match deposit_collateral(&ctx.group_account, &mut ctx.member_account, ctx.user, amount) {
        Ok(()) => {},
        Err(e) => {
            return Err(e);
        },
    }
    Ok(
        Transfer {
            from: ctx.user,
            to: ctx.collateral_vault_sol.key,
            authority: ctx.user,
            amount,
        },
    )
}

/// Posts the winner's collateral in a pool that settles in a token.
///
/// The deposit is taken when the pool is ready for payout and settles in the
/// token named, the depositor is the winner of the running cycle and has not
/// posted before, and the amount covers what the winner owes. It is then
/// added to the member's stake, and the movement the host must make, from the
/// depositor's tokens to the pool's collateral, is returned. A refused
/// request changes nothing.
pub fn deposit_spl_collateral(ctx: &mut DepositSplCollateral, amount: u64) -> (res: Result<
    Transfer,
    HuiFiError,
>)
    ensures
        old(ctx).rejection(amount) matches Some(e) ==> res == Err::<Transfer, HuiFiError>(e)
            && *final(ctx) == *old(ctx),
        old(ctx).rejection(amount) is None ==> {
            &&& res == Ok::<Transfer, HuiFiError>(
                Transfer {
                    from: old(ctx).user_token_account.key,
                    to: old(ctx).collateral_vault_spl.key,
                    authority: old(ctx).user,
                    amount,
                },
            )
            &&& final(ctx).member_account == with_deposit(old(ctx).member_account, amount)
            &&& final(ctx).user == old(ctx).user
            &&& final(ctx).group_account == old(ctx).group_account
            &&& final(ctx).user_token_account == old(ctx).user_token_account
            &&& final(ctx).collateral_vault_spl == old(ctx).collateral_vault_spl
            &&& final(ctx).token_mint == old(ctx).token_mint
        },
{
    match ctx.group_account.status {
        PoolStatus::Active { phase: CyclePhase::ReadyForPayout } => {},
        _ => {
            return Err(HuiFiError::InvalidPhase);
        },
    }
    if ctx.group_account.config.is_native_sol {
        return Err(HuiFiError::InvalidPoolType);
    }
    if ctx.token_mint != ctx.group_account.token_mint {
        return Err(HuiFiError::InvalidTokenMint);
    }
    match deposit_collateral(&ctx.group_account, &mut ctx.member_account, ctx.user, amount) {
        Ok(()) => {},
        Err(e) => {
            return Err(e);
        },
    }
    Ok(
        Transfer {
            from: ctx.user_token_account.key,
            to: ctx.collateral_vault_spl.key,
            authority: ctx.user,
            amount,
        },
    )
}

impl WithdrawSolCollateral {
    /// Why the withdrawal is refused, if it is: the first of the conditions
    /// below that fails.
    pub open spec fn rejection(&self) -> Option<HuiFiError> {
        let pool = self.group_account@;
        let member = self.member_account;
        if !pool.config.is_native_sol {
            Some(HuiFiError::InvalidPoolType)
        } else if member.pool != pool.key {
            Some(HuiFiError::MemberNotFound)
        } else if member.owner != self.user {
            Some(HuiFiError::UnauthorizedAccess)
        } else if !member.has_deposited_collateral {
            Some(HuiFiError::NoCollateralDeposited)
        } else if member.status == MemberStatus::Withdrawed {
            Some(HuiFiError::MemberAlreadyWithdrawed)
        } else if pool.status != PoolStatus::Completed {
            Some(HuiFiError::CycleNotCompleted)
        } else if self.collateral_vault_sol.lamports < member.collateral_staked {
            Some(HuiFiError::InsufficientVaultFunds)
        } else {
            None
        }
    }
}

/// Gives a member its collateral back.
///
/// The collateral is returned when the pool is completed and settles in the
/// native asset, the member has posted collateral and has not withdrawn, and
/// the pool's collateral covers the member's stake. The member's whole
/// stake is then returned: the record shows no stake and a withdrawn member,
/// and the movement the host must make, from the pool's collateral to the
/// member, is returned. A refused request changes nothing.
pub fn withdraw_sol_collateral(ctx: &mut WithdrawSolCollateral) -> (res: Result<
    Transfer,
    HuiFiError,
>)
    ensures
        old(ctx).rejection() matches Some(e) ==> res == Err::<Transfer, HuiFiError>(e)
            && *final(ctx) == *old(ctx),
        old(ctx).rejection() is None ==> {
            &&& res == Ok::<Transfer, HuiFiError>(
                Transfer {
                    from: old(ctx).collateral_vault_sol.key,
                    to: old(ctx).user,
                    authority: old(ctx).collateral_vault_sol.key,
                    amount: old(ctx).member_account.collateral_staked,
                },
            )
            &&& final(ctx).member_account == (MemberAccount {
                collateral_staked: 0,
                status: MemberStatus::Withdrawed,
                ..old(ctx).member_account
            })
            &&& final(ctx).user == old(ctx).user
            &&& final(ctx).group_account == old(ctx).group_account
            &&& final(ctx).collateral_vault_sol == old(ctx).collateral_vault_sol
        },
{
    if !ctx.group_account.config.is_native_sol {
        return Err(HuiFiError::InvalidPoolType);
    }
    if ctx.member_account.pool != ctx.group_account.key {
        return Err(HuiFiError::MemberNotFound);
    }
    if ctx.member_account.owner != ctx.user {
        return Err(HuiFiError::UnauthorizedAccess);
    }
    if !ctx.member_account.has_deposited_collateral {
        return Err(HuiFiError::NoCollateralDeposited);
    }
    if ctx.member_account.status == MemberStatus::Withdrawed {
        return Err(HuiFiError::MemberAlreadyWithdrawed);
    }
    if ctx.group_account.status != PoolStatus::Completed {
        return Err(HuiFiError::CycleNotCompleted);
    }
    if ctx.collateral_vault_sol.lamports < ctx.member_account.collateral_staked {
        return Err(HuiFiError::InsufficientVaultFunds);
    }
    let amount = ctx.member_account.collateral_staked;
    ctx.member_account.collateral_staked = 0;
    ctx.member_account.status = MemberStatus::Withdrawed;
    Ok(
        Transfer {
            from: ctx.collateral_vault_sol.key,
            to: ctx.user,
            authority: ctx.collateral_vault_sol.key,
            amount,
        },
    )
}

/// What the three holding areas of a pool that settles in the native asset
/// hold together: its collateral, its treasury and its vault.
pub open spec fn native_total(ctx: &SlashCollateral) -> int {
    ctx.collateral_vault_sol->Some_0.lamports + ctx.treasury_sol->Some_0.lamports
        + ctx.pool_vault->Some_0.lamports
}

/// Whether `treasury` is there and collects the token `mint`.
pub open spec fn collects(treasury: Option<TokenHolding>, mint: Pubkey) -> bool {
    treasury matches Some(holding) && holding.mint == mint
}

impl SlashCollateral {
    /// The treasury that collects the pool's token: the first of the three
    /// that holds it.
    pub open spec fn token_treasury(&self) -> Option<TokenHolding> {
        let mint = self.group_account.token_mint;
        if collects(self.treasury_usdc, mint) {
            self.treasury_usdc
        } else if collects(self.treasury_usdt, mint) {
            self.treasury_usdt
        } else if collects(self.treasury_jitosol, mint) {
            self.treasury_jitosol
        } else {
            None
        }
    }

    /// Why seizing collateral for `payout_amount` is refused, if it is: the
    /// first of the conditions below that fails.
    pub open spec fn rejection(&self, payout_amount: u64) -> Option<HuiFiError> {
        let pool = self.group_account@;
        let member = self.member_account;
        if pool.status != (PoolStatus::Active { phase: CyclePhase::ReadyForPayout }) {
            Some(HuiFiError::InvalidPhase)
        } else if member.pool != pool.key {
            Some(HuiFiError::MemberNotFound)
        } else if member.status != MemberStatus::Defaulted {
            Some(HuiFiError::MemberNotDefaulted)
        } else if !member.has_received_payout {
            Some(HuiFiError::MemberNotPaidYet)
        } else if total_slash(payout_amount) > member.collateral_staked {
            Some(HuiFiError::InvalidSlashAmount)
        } else if pool.config.is_native_sol {
            if self.collateral_vault_sol is None {
                Some(HuiFiError::MissingCollateralVault)
            } else if self.treasury_sol is None {
                Some(HuiFiError::MissingTreasury)
            } else if self.pool_vault is None {
                Some(HuiFiError::MissingPoolVault)
            } else if self.collateral_vault_sol->Some_0.lamports < total_slash(payout_amount) {
                Some(HuiFiError::InsufficientVaultFunds)
            } else if self.treasury_sol->Some_0.lamports + slash_penalty(payout_amount)
                > u64::MAX {
                Some(HuiFiError::Overflow)
            } else if self.pool_vault->Some_0.lamports + payout_amount > u64::MAX {
                Some(HuiFiError::Overflow)
            } else {
                None
            }
        } else {
            if self.collateral_vault_spl is None {
                Some(HuiFiError::MissingCollateralVault)
            } else if self.pool_vault is None {
                Some(HuiFiError::MissingPoolVault)
            } else if self.token_program is None {
                Some(HuiFiError::MissingTokenProgram)
            } else if self.token_treasury() is None {
                Some(HuiFiError::UnsupportedToken)
            } else {
                None
            }
        }
    }

    /// The request once collateral for `payout_amount` has been seized in a
    /// pool that settles in the native asset: the member's stake and the
    /// pool's collateral are lower by payout and penalty, the pool's vault
    /// is higher by the payout and the treasury by the penalty.
    pub open spec fn settled_native(&self, after: &SlashCollateral, payout_amount: u64) -> bool {
        &&& after.collateral_vault_sol == Some(
            Holding {
                lamports: (self.collateral_vault_sol->Some_0.lamports - total_slash(
                    payout_amount,
                )) as u64,
                ..self.collateral_vault_sol->Some_0
            },
        )
        &&& after.treasury_sol == Some(
            Holding {
                lamports: (self.treasury_sol->Some_0.lamports + slash_penalty(payout_amount)) as u64,
                ..self.treasury_sol->Some_0
            },
        )
        &&& after.pool_vault == Some(
            TokenHolding {
                lamports: (self.pool_vault->Some_0.lamports + payout_amount) as u64,
                ..self.pool_vault->Some_0
            },
        )
    }

    /// The movements of tokens that seize collateral for `payout_amount` in a
    /// pool that settles in a token: the payout from the pool's collateral to
    /// the pool's vault, the penalty from there to the treasury, both on the
    /// pool's authority.
    pub open spec fn token_settlement(&self, payout_amount: u64) -> SlashSettlement {
        SlashSettlement::Token {
            repayment: Transfer {
                from: self.collateral_vault_spl->Some_0.key,
                to: self.pool_vault->Some_0.key,
                authority: self.group_account.key,
                amount: payout_amount,
            },
            penalty: Transfer {
                from: self.collateral_vault_spl->Some_0.key,
                to: self.token_treasury()->Some_0.key,
                authority: self.group_account.key,
                amount: slash_penalty(payout_amount) as u64,
            },
        }
    }
}

/// Seizes the collateral of a defaulted member for a payout it received.
///
/// Collateral is seized when the pool is ready for payout, the member has
/// defaulted after having been paid, and its stake covers the payout and the
/// penalty of five percent on it. The payout goes back to the pool and the
/// penalty to the treasury; the member's stake is lower by both. In a pool
/// that settles in the native asset the balances handed in are changed, and
/// what leaves the collateral arrives at the pool and the treasury. In a pool
/// that settles in a token the two movements the host must make are
/// returned. A refused request changes nothing.
pub fn slash_collateral(ctx: &mut SlashCollateral, payout_amount: u64) -> (res: Result<
    SlashSettlement,
    HuiFiError,
>)
    ensures
        old(ctx).rejection(payout_amount) matches Some(e) ==> res == Err::<
            SlashSettlement,
            HuiFiError,
        >(e) && *final(ctx) == *old(ctx),
        old(ctx).rejection(payout_amount) is None ==> {
            &&& res is Ok
            &&& total_slash(payout_amount) <= old(ctx).member_account.collateral_staked
            &&& final(ctx).member_account == (MemberAccount {
                collateral_staked: (old(ctx).member_account.collateral_staked - total_slash(
                    payout_amount,
                )) as u64,
                ..old(ctx).member_account
            })
            &&& final(ctx).admin == old(ctx).admin
            &&& final(ctx).group_account == old(ctx).group_account
            &&& final(ctx).collateral_vault_spl == old(ctx).collateral_vault_spl
            &&& final(ctx).treasury_usdc == old(ctx).treasury_usdc
            &&& final(ctx).treasury_usdt == old(ctx).treasury_usdt
            &&& final(ctx).treasury_jitosol == old(ctx).treasury_jitosol
            &&& final(ctx).token_program == old(ctx).token_program
            &&& if old(ctx).group_account.config.is_native_sol {
                &&& res == Ok::<SlashSettlement, HuiFiError>(SlashSettlement::Native)
                &&& old(ctx).settled_native(final(ctx), payout_amount)
                &&& native_total(final(ctx)) == native_total(old(ctx))
            } else {
                &&& res == Ok::<SlashSettlement, HuiFiError>(
                    old(ctx).token_settlement(payout_amount),
                )
                &&& final(ctx).collateral_vault_sol == old(ctx).collateral_vault_sol
                &&& final(ctx).treasury_sol == old(ctx).treasury_sol
                &&& final(ctx).pool_vault == old(ctx).pool_vault
            }
        },
{
    match ctx.group_account.status {
        PoolStatus::Active { phase: CyclePhase::ReadyForPayout } => {},
        _ => {
            return Err(HuiFiError::InvalidPhase);
        },
    }
    if ctx.member_account.pool != ctx.group_account.key {
        return Err(HuiFiError::MemberNotFound);
    }
    if ctx.member_account.status != MemberStatus::Defaulted {
        return Err(HuiFiError::MemberNotDefaulted);
    }
    if !ctx.member_account.has_received_payout {
        return Err(HuiFiError::MemberNotPaidYet);
    }
    let penalty_amount = calculate_slash_penalty(payout_amount);
    let staked = ctx.member_account.collateral_staked;
    if staked < payout_amount || staked - payout_amount < penalty_amount {
        return Err(HuiFiError::InvalidSlashAmount);
    }
    let total = payout_amount + penalty_amount;
    let settlement = if ctx.group_account.config.is_native_sol {
        let vault = match ctx.collateral_vault_sol {
            Some(vault) => vault,
            None => {
                return Err(HuiFiError::MissingCollateralVault);
            },
        };
        let treasury = match ctx.treasury_sol {
            Some(treasury) => treasury,
            None => {
                return Err(HuiFiError::MissingTreasury);
            },
        };
        let pool_vault = match ctx.pool_vault {
            Some(pool_vault) => pool_vault,
            None => {
                return Err(HuiFiError::MissingPoolVault);
            },
        };
        if vault.lamports < total {
            return Err(HuiFiError::InsufficientVaultFunds);
        }
        if penalty_amount > u64::MAX - treasury.lamports {
            return Err(HuiFiError::Overflow);
        }
        if payout_amount > u64::MAX - pool_vault.lamports {
            return Err(HuiFiError::Overflow);
        }
        ctx.collateral_vault_sol = Some(Holding { key: vault.key, lamports: vault.lamports - total });
        ctx.treasury_sol = Some(
            Holding { key: treasury.key, lamports: treasury.lamports + penalty_amount },
        );
        ctx.pool_vault = Some(
            TokenHolding {
                key: pool_vault.key,
                owner: pool_vault.owner,
                mint: pool_vault.mint,
                amount: pool_vault.amount,
                lamports: pool_vault.lamports + payout_amount,
                program: pool_vault.program,
            },
        );
        SlashSettlement::Native
    } else {
        let vault = match ctx.collateral_vault_spl {
            Some(vault) => vault,
            None => {
                return Err(HuiFiError::MissingCollateralVault);
            },
        };
        let pool_vault = match ctx.pool_vault {
            Some(pool_vault) => pool_vault,
            None => {
                return Err(HuiFiError::MissingPoolVault);
            },
        };
        if ctx.token_program.is_none() {
            return Err(HuiFiError::MissingTokenProgram);
        }
        let treasury = match find_token_treasury(ctx) {
            Some(treasury) => treasury,
            None => {
                return Err(HuiFiError::UnsupportedToken);
            },
        };
        SlashSettlement::Token {
            repayment: Transfer {
                from: vault.key,
                to: pool_vault.key,
                authority: ctx.group_account.key,
                amount: payout_amount,
            },
            penalty: Transfer {
                from: vault.key,
                to: treasury.key,
                authority: ctx.group_account.key,
                amount: penalty_amount,
            },
        }
    };
    ctx.member_account.collateral_staked = staked - total;
    Ok(settlement)
}

/// Whether `treasury` is there and collects the token `mint`.
fn treasury_collects(treasury: &Option<TokenHolding>, mint: &Pubkey) -> (yes: bool)
    ensures
        yes == collects(*treasury, *mint),
{
    match treasury {
        Some(holding) => holding.mint == *mint,
        None => false,
    }
}

/// The treasury that collects the pool's token.
fn find_token_treasury(ctx: &SlashCollateral) -> (treasury: Option<TokenHolding>)
    ensures
        treasury == ctx.token_treasury(),
{
    if treasury_collects(&ctx.treasury_usdc, &ctx.group_account.token_mint) {
        ctx.treasury_usdc
    } else if treasury_collects(&ctx.treasury_usdt, &ctx.group_account.token_mint) {
        ctx.treasury_usdt
    } else if treasury_collects(&ctx.treasury_jitosol, &ctx.group_account.token_mint) {
        ctx.treasury_jitosol
    } else {
        None
    }
}

} // verus!
