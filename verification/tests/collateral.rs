use contracts_hui::constants::{MIN_CYCLE_DURATION, MIN_PAYOUT_DELAY};
use contracts_hui::errors::HuiFiError;
use contracts_hui::instructions::collateral::{
    calculate_required_collateral, calculate_slash_penalty, deposit_sol_collateral,
    deposit_spl_collateral, slash_collateral, withdraw_sol_collateral, DepositSolCollateral,
    DepositSplCollateral, SlashCollateral, SlashSettlement, WithdrawSolCollateral,
};
use contracts_hui::state::holding::{Holding, TokenHolding, Transfer};
use contracts_hui::state::member::{MemberAccount, MemberStatus};
use contracts_hui::state::pool::{CyclePhase, GroupAccount, PoolConfig, PoolStatus, YieldPlatform};
use contracts_hui::state::pubkey::Pubkey;

fn key(n: u8) -> Pubkey {
    Pubkey::new_from_array([n; 32])
}

fn paying(native: bool) -> GroupAccount {
    GroupAccount {
        key: key(100),
        uuid: [1, 2, 3, 4, 5, 6],
        whitelist: Vec::new(),
        creator: key(1),
        token_mint: key(102),
        vault: key(101),
        config: PoolConfig {
            max_participants: 3,
            contribution_amount: 100,
            cycle_duration_seconds: MIN_CYCLE_DURATION,
            payout_delay_seconds: MIN_PAYOUT_DELAY,
            early_withdrawal_fee_bps: 200,
            collateral_requirement_bps: 20000,
            yield_strategy: YieldPlatform::NoYield,
            is_private: false,
            is_native_sol: native,
            feed_id: [0; 32],
        },
        member_addresses: vec![key(1), key(2), key(3)],
        payout_order: vec![key(1), key(2), key(3)],
        current_cycle: 0,
        total_cycles: 3,
        status: PoolStatus::Active { phase: CyclePhase::ReadyForPayout },
        total_contributions: 300,
        unclaimed_payout: 0,
        last_cycle_timestamp: 0,
        next_payout_timestamp: 0,
        price_feed_id: [0; 32],
        current_winner: Some(key(2)),
        current_bid_amount: Some(0),
        final_contribution_amount: None,
    }
}

fn paid_up(n: u8) -> MemberAccount {
    let mut member = MemberAccount::new(key(n), key(100));
    member.contributions_made = 1;
    member
}

fn tokens(n: u8, mint: u8) -> TokenHolding {
    TokenHolding {
        key: key(n),
        owner: key(100),
        mint: key(mint),
        amount: 5_000,
        lamports: 10,
        program: key(120),
    }
}

fn native_deposit() -> DepositSolCollateral {
    DepositSolCollateral {
        user: key(2),
        group_account: paying(true),
        member_account: paid_up(2),
        collateral_vault_sol: Holding { key: key(103), lamports: 0 },
    }
}

fn token_deposit() -> DepositSplCollateral {
    DepositSplCollateral {
        user: key(2),
        group_account: paying(false),
        member_account: paid_up(2),
        user_token_account: tokens(52, 102),
        collateral_vault_spl: tokens(103, 102),
        token_mint: key(102),
    }
}

fn defaulted(staked: u64) -> MemberAccount {
    let mut member = paid_up(2);
    member.status = MemberStatus::Defaulted;
    member.has_received_payout = true;
    member.has_deposited_collateral = true;
    member.collateral_staked = staked;
    member
}

fn native_slash(staked: u64) -> SlashCollateral {
    SlashCollateral {
        admin: key(1),
        group_account: paying(true),
        member_account: defaulted(staked),
        collateral_vault_sol: Some(Holding { key: key(103), lamports: 5_000 }),
        collateral_vault_spl: None,
        treasury_usdc: None,
        treasury_usdt: None,
        treasury_jitosol: None,
        treasury_sol: Some(Holding { key: key(110), lamports: 1 }),
        pool_vault: Some(tokens(101, 102)),
        token_program: None,
    }
}

fn token_slash(staked: u64) -> SlashCollateral {
    SlashCollateral {
        admin: key(1),
        group_account: paying(false),
        member_account: defaulted(staked),
        collateral_vault_sol: None,
        collateral_vault_spl: Some(tokens(103, 102)),
        treasury_usdc: Some(tokens(111, 131)),
        treasury_usdt: Some(tokens(112, 102)),
        treasury_jitosol: Some(tokens(113, 133)),
        treasury_sol: None,
        pool_vault: Some(tokens(101, 102)),
        token_program: Some(key(120)),
    }
}

#[test]
fn collateral_is_130_percent_of_what_others_have_at_risk() {
    let mut group = paying(true);
    assert_eq!(calculate_required_collateral(&group, &paid_up(2)), 260);
    let mut member = paid_up(2);
    member.contributions_made = 0;
    assert_eq!(calculate_required_collateral(&group, &member), 390);
    member.contributions_made = 3;
    assert_eq!(calculate_required_collateral(&group, &member), 0);
    member.contributions_made = 4;
    assert_eq!(calculate_required_collateral(&group, &member), 0);
    group.total_contributions = 101;
    member.contributions_made = 1;
    assert_eq!(calculate_required_collateral(&group, &member), 1);
    group.total_contributions = 103;
    assert_eq!(calculate_required_collateral(&group, &member), 3);
    group.total_contributions = 110;
    assert_eq!(calculate_required_collateral(&group, &member), 13);
    group.total_contributions = u64::MAX;
    member.contributions_made = 0;
    assert_eq!(calculate_required_collateral(&group, &member), u64::MAX);
}

#[test]
fn the_winner_posts_what_it_owes() {
    let mut ctx = native_deposit();
    assert_eq!(
        deposit_sol_collateral(&mut ctx, 260),
        Ok(Transfer { from: key(2), to: key(103), authority: key(2), amount: 260 })
    );
    assert_eq!(ctx.member_account.collateral_staked, 260);
    assert!(ctx.member_account.has_deposited_collateral);
    assert_eq!(ctx.group_account, paying(true));
    let mut more = native_deposit();
    assert!(deposit_sol_collateral(&mut more, 1_000).is_ok());
    assert_eq!(more.member_account.collateral_staked, 1_000);
}

#[test]
fn too_little_collateral_is_refused() {
    let mut ctx = native_deposit();
    let before = ctx.clone();
    assert_eq!(deposit_sol_collateral(&mut ctx, 259), Err(HuiFiError::InsufficientCollateral));
    assert_eq!(ctx, before);
    assert_eq!(deposit_sol_collateral(&mut ctx, 0), Err(HuiFiError::InsufficientCollateral));
}

#[test]
fn a_second_deposit_is_refused() {
    let mut ctx = native_deposit();
    assert!(deposit_sol_collateral(&mut ctx, 260).is_ok());
    let before = ctx.clone();
    assert_eq!(deposit_sol_collateral(&mut ctx, 260), Err(HuiFiError::AlreadyDepositedCollateral));
    assert_eq!(ctx, before);
}

#[test]
fn only_the_winner_posts_collateral() {
    let mut ctx = native_deposit();
    ctx.user = key(3);
    ctx.member_account = paid_up(3);
    assert_eq!(deposit_sol_collateral(&mut ctx, 260), Err(HuiFiError::NotPoolWinner));
    let mut ctx = native_deposit();
    ctx.group_account.current_winner = None;
    assert_eq!(deposit_sol_collateral(&mut ctx, 260), Err(HuiFiError::NotPoolWinner));
    let mut ctx = native_deposit();
    ctx.member_account.owner = key(3);
    assert_eq!(deposit_sol_collateral(&mut ctx, 260), Err(HuiFiError::Unauthorized));
    let mut ctx = native_deposit();
    ctx.member_account.pool = key(99);
    assert_eq!(deposit_sol_collateral(&mut ctx, 260), Err(HuiFiError::MemberNotFound));
}

#[test]
fn collateral_is_posted_in_the_payout_step_only() {
    for status in [
        PoolStatus::Initializing,
        PoolStatus::Active { phase: CyclePhase::Bidding },
        PoolStatus::Active { phase: CyclePhase::Contributing },
        PoolStatus::Completed,
        PoolStatus::Defaulted,
    ] {
        let mut ctx = native_deposit();
        ctx.group_account.status = status;
        assert_eq!(deposit_sol_collateral(&mut ctx, 260), Err(HuiFiError::InvalidPhase));
        let mut ctx = token_deposit();
        ctx.group_account.status = status;
        ctx.group_account.config.is_native_sol = true;
        let before = ctx.clone();
        assert_eq!(deposit_spl_collateral(&mut ctx, 260), Err(HuiFiError::InvalidPhase));
        assert_eq!(ctx, before);
    }
}

#[test]
fn collateral_in_the_wrong_asset_is_refused() {
    let mut ctx = native_deposit();
    ctx.group_account.config.is_native_sol = false;
    assert_eq!(deposit_sol_collateral(&mut ctx, 260), Err(HuiFiError::InvalidPoolType));
    let mut ctx = token_deposit();
    ctx.group_account.config.is_native_sol = true;
    assert_eq!(deposit_spl_collateral(&mut ctx, 260), Err(HuiFiError::InvalidPoolType));
    let mut ctx = token_deposit();
    ctx.token_mint = key(77);
    assert_eq!(deposit_spl_collateral(&mut ctx, 260), Err(HuiFiError::InvalidTokenMint));
}

#[test]
fn a_token_deposit_moves_tokens_between_the_holding_areas() {
    let mut ctx = token_deposit();
    assert_eq!(
        deposit_spl_collateral(&mut ctx, 300),
        Ok(Transfer { from: key(52), to: key(103), authority: key(2), amount: 300 })
    );
    assert_eq!(ctx.member_account.collateral_staked, 300);
    assert!(ctx.member_account.has_deposited_collateral);
    let mut low = token_deposit();
    assert_eq!(deposit_spl_collateral(&mut low, 259), Err(HuiFiError::InsufficientCollateral));
}

#[test]
fn a_stake_that_would_not_fit_is_refused() {
    let mut ctx = native_deposit();
    ctx.member_account.collateral_staked = u64::MAX - 259;
    let before = ctx.clone();
    assert_eq!(deposit_sol_collateral(&mut ctx, 260), Err(HuiFiError::Overflow));
    assert_eq!(ctx, before);
    ctx.member_account.collateral_staked = u64::MAX - 260;
    assert!(deposit_sol_collateral(&mut ctx, 260).is_ok());
    assert_eq!(ctx.member_account.collateral_staked, u64::MAX);
}

#[test]
fn the_penalty_is_five_percent_rounded_down() {
    assert_eq!(calculate_slash_penalty(0), 0);
    assert_eq!(calculate_slash_penalty(19), 0);
    assert_eq!(calculate_slash_penalty(20), 1);
    assert_eq!(calculate_slash_penalty(39), 1);
    assert_eq!(calculate_slash_penalty(1_000), 50);
    assert_eq!(calculate_slash_penalty(u64::MAX), u64::MAX / 20);
}

#[test]
fn slashing_takes_payout_and_penalty_from_the_stake() {
    let mut ctx = native_slash(2_000);
    assert_eq!(slash_collateral(&mut ctx, 1_000), Ok(SlashSettlement::Native));
    assert_eq!(ctx.member_account.collateral_staked, 950);
    assert_eq!(ctx.collateral_vault_sol, Some(Holding { key: key(103), lamports: 3_950 }));
    assert_eq!(ctx.treasury_sol, Some(Holding { key: key(110), lamports: 51 }));
    let mut vault = tokens(101, 102);
    vault.lamports = 1_010;
    assert_eq!(ctx.pool_vault, Some(vault));
    assert_eq!(ctx.member_account.status, MemberStatus::Defaulted);
    assert_eq!(ctx.group_account, paying(true));
}

#[test]
fn slashing_never_exceeds_the_stake() {
    let mut exact = native_slash(1_050);
    assert_eq!(slash_collateral(&mut exact, 1_000), Ok(SlashSettlement::Native));
    assert_eq!(exact.member_account.collateral_staked, 0);
    let mut short = native_slash(1_049);
    let before = short.clone();
    assert_eq!(slash_collateral(&mut short, 1_000), Err(HuiFiError::InvalidSlashAmount));
    assert_eq!(short, before);
    let mut huge = native_slash(u64::MAX);
    assert_eq!(slash_collateral(&mut huge, u64::MAX), Err(HuiFiError::InvalidSlashAmount));
    let mut none = native_slash(0);
    assert_eq!(slash_collateral(&mut none, 1), Err(HuiFiError::InvalidSlashAmount));
    assert_eq!(slash_collateral(&mut none, 0), Ok(SlashSettlement::Native));
}

#[test]
fn only_a_paid_defaulter_is_slashed() {
    let mut ctx = native_slash(2_000);
    ctx.member_account.status = MemberStatus::Active;
    assert_eq!(slash_collateral(&mut ctx, 1_000), Err(HuiFiError::MemberNotDefaulted));
    ctx.member_account.status = MemberStatus::Late;
    assert_eq!(slash_collateral(&mut ctx, 1_000), Err(HuiFiError::MemberNotDefaulted));
    ctx.member_account.status = MemberStatus::Defaulted;
    ctx.member_account.has_received_payout = false;
    assert_eq!(slash_collateral(&mut ctx, 1_000), Err(HuiFiError::MemberNotPaidYet));
    ctx.member_account.has_received_payout = true;
    ctx.member_account.pool = key(99);
    assert_eq!(slash_collateral(&mut ctx, 1_000), Err(HuiFiError::MemberNotFound));
    ctx.member_account.pool = key(100);
    ctx.group_account.status = PoolStatus::Active { phase: CyclePhase::Contributing };
    assert_eq!(slash_collateral(&mut ctx, 1_000), Err(HuiFiError::InvalidPhase));
}

#[test]
fn a_native_slash_needs_its_holding_areas() {
    let mut ctx = native_slash(2_000);
    ctx.collateral_vault_sol = None;
    assert_eq!(slash_collateral(&mut ctx, 1_000), Err(HuiFiError::MissingCollateralVault));
    let mut ctx = native_slash(2_000);
    ctx.treasury_sol = None;
    assert_eq!(slash_collateral(&mut ctx, 1_000), Err(HuiFiError::MissingTreasury));
    let mut ctx = native_slash(2_000);
    ctx.pool_vault = None;
    assert_eq!(slash_collateral(&mut ctx, 1_000), Err(HuiFiError::MissingPoolVault));
    let mut ctx = native_slash(2_000);
    ctx.collateral_vault_sol = Some(Holding { key: key(103), lamports: 1_049 });
    let before = ctx.clone();
    assert_eq!(slash_collateral(&mut ctx, 1_000), Err(HuiFiError::InsufficientVaultFunds));
    assert_eq!(ctx, before);
    let mut ctx = native_slash(2_000);
    ctx.treasury_sol = Some(Holding { key: key(110), lamports: u64::MAX - 49 });
    assert_eq!(slash_collateral(&mut ctx, 1_000), Err(HuiFiError::Overflow));
    let mut ctx = native_slash(2_000);
    let mut vault = tokens(101, 102);
    vault.lamports = u64::MAX - 999;
    ctx.pool_vault = Some(vault);
    assert_eq!(slash_collateral(&mut ctx, 1_000), Err(HuiFiError::Overflow));
}

#[test]
fn a_token_slash_returns_the_two_movements() {
    let mut ctx = token_slash(2_000);
    let before = ctx.clone();
    assert_eq!(
        slash_collateral(&mut ctx, 1_000),
        Ok(SlashSettlement::Token {
            repayment: Transfer { from: key(103), to: key(101), authority: key(100), amount: 1_000 },
            penalty: Transfer { from: key(103), to: key(112), authority: key(100), amount: 50 },
        })
    );
    assert_eq!(ctx.member_account.collateral_staked, 950);
    assert_eq!(ctx.collateral_vault_spl, before.collateral_vault_spl);
    assert_eq!(ctx.pool_vault, before.pool_vault);
    assert_eq!(ctx.treasury_usdt, before.treasury_usdt);
}

#[test]
fn the_first_matching_treasury_takes_the_penalty() {
    let mut ctx = token_slash(2_000);
    ctx.treasury_usdc = Some(tokens(111, 102));
    match slash_collateral(&mut ctx, 1_000) {
        Ok(SlashSettlement::Token { penalty, .. }) => assert_eq!(penalty.to, key(111)),
        other => panic!("unexpected outcome: {:?}", other),
    }
    let mut ctx = token_slash(2_000);
    ctx.treasury_usdt = None;
    ctx.treasury_jitosol = Some(tokens(113, 102));
    match slash_collateral(&mut ctx, 1_000) {
        Ok(SlashSettlement::Token { penalty, .. }) => assert_eq!(penalty.to, key(113)),
        other => panic!("unexpected outcome: {:?}", other),
    }
}

#[test]
fn a_token_slash_needs_its_holding_areas() {
    let mut ctx = token_slash(2_000);
    ctx.collateral_vault_spl = None;
    assert_eq!(slash_collateral(&mut ctx, 1_000), Err(HuiFiError::MissingCollateralVault));
    let mut ctx = token_slash(2_000);
    ctx.pool_vault = None;
    assert_eq!(slash_collateral(&mut ctx, 1_000), Err(HuiFiError::MissingPoolVault));
    let mut ctx = token_slash(2_000);
    ctx.token_program = None;
    assert_eq!(slash_collateral(&mut ctx, 1_000), Err(HuiFiError::MissingTokenProgram));
    let mut ctx = token_slash(2_000);
    ctx.treasury_usdt = Some(tokens(112, 132));
    let before = ctx.clone();
    assert_eq!(slash_collateral(&mut ctx, 1_000), Err(HuiFiError::UnsupportedToken));
    assert_eq!(ctx, before);
    let mut ctx = token_slash(2_000);
    ctx.treasury_usdc = None;
    ctx.treasury_usdt = None;
    ctx.treasury_jitosol = None;
    assert_eq!(slash_collateral(&mut ctx, 1_000), Err(HuiFiError::UnsupportedToken));
}

fn withdrawal() -> WithdrawSolCollateral {
    let mut group = paying(true);
    group.status = PoolStatus::Completed;
    group.current_cycle = 2;
    let mut member = paid_up(3);
    member.has_deposited_collateral = true;
    member.collateral_staked = 400;
    WithdrawSolCollateral {
        user: key(3),
        group_account: group,
        member_account: member,
        collateral_vault_sol: Holding { key: key(103), lamports: 400 },
    }
}

#[test]
fn the_whole_stake_is_returned_when_the_pool_is_done() {
    let mut ctx = withdrawal();
    let before = ctx.clone();
    assert_eq!(
        withdraw_sol_collateral(&mut ctx),
        Ok(Transfer { from: key(103), to: key(3), authority: key(103), amount: 400 })
    );
    assert_eq!(ctx.member_account.collateral_staked, 0);
    assert_eq!(ctx.member_account.status, MemberStatus::Withdrawed);
    assert!(ctx.member_account.has_deposited_collateral);
    assert_eq!(ctx.group_account, before.group_account);
    let again = ctx.clone();
    assert_eq!(withdraw_sol_collateral(&mut ctx), Err(HuiFiError::MemberAlreadyWithdrawed));
    assert_eq!(ctx, again);
}

#[test]
fn a_withdrawal_is_refused_until_everything_is_in_order() {
    let mut ctx = withdrawal();
    ctx.group_account.status = PoolStatus::Active { phase: CyclePhase::ReadyForPayout };
    assert_eq!(withdraw_sol_collateral(&mut ctx), Err(HuiFiError::CycleNotCompleted));
    let mut ctx = withdrawal();
    ctx.member_account.has_deposited_collateral = false;
    assert_eq!(withdraw_sol_collateral(&mut ctx), Err(HuiFiError::NoCollateralDeposited));
    let mut ctx = withdrawal();
    ctx.user = key(1);
    assert_eq!(withdraw_sol_collateral(&mut ctx), Err(HuiFiError::UnauthorizedAccess));
    let mut ctx = withdrawal();
    ctx.member_account.pool = key(99);
    assert_eq!(withdraw_sol_collateral(&mut ctx), Err(HuiFiError::MemberNotFound));
    let mut ctx = withdrawal();
    ctx.group_account.config.is_native_sol = false;
    assert_eq!(withdraw_sol_collateral(&mut ctx), Err(HuiFiError::InvalidPoolType));
    let mut ctx = withdrawal();
    ctx.collateral_vault_sol.lamports = 399;
    let before = ctx.clone();
    assert_eq!(withdraw_sol_collateral(&mut ctx), Err(HuiFiError::InsufficientVaultFunds));
    assert_eq!(ctx, before);
}
