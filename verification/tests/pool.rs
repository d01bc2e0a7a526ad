use contracts_hui::constants::{
    MAX_CYCLE_DURATION, MAX_PAYOUT_DELAY, MIN_CYCLE_DURATION, MIN_PAYOUT_DELAY,
};
use contracts_hui::errors::HuiFiError;
use contracts_hui::instructions::pool::{
    create_pool, create_sol_pool, create_spl_pool, join_pool, join_sol_pool, join_spl_pool,
    validate_pool_config, CreatePool, CreateSolPool, CreateSplPool, JoinPool, JoinSolPool,
    JoinSplPool,
};
use contracts_hui::state::holding::{Holding, TokenHolding};
use contracts_hui::state::member::{MemberAccount, MemberStatus};
use contracts_hui::state::pool::{CyclePhase, GroupAccount, PoolConfig, PoolStatus, YieldPlatform};
use contracts_hui::state::pubkey::{
    contains_key, has_no_duplicates, position_of, same_uuid, Pubkey,
};

const UUID: [u8; 6] = [1, 2, 3, 4, 5, 6];

fn key(n: u8) -> Pubkey {
    Pubkey::new_from_array([n; 32])
}

fn config(participants: u8) -> PoolConfig {
    PoolConfig {
        max_participants: participants,
        contribution_amount: 100,
        cycle_duration_seconds: MIN_CYCLE_DURATION,
        payout_delay_seconds: MIN_PAYOUT_DELAY,
        early_withdrawal_fee_bps: 200,
        collateral_requirement_bps: 20000,
        yield_strategy: YieldPlatform::Kamino,
        is_private: true,
        is_native_sol: false,
        feed_id: [9; 32],
    }
}

fn blank(pool_key: Pubkey) -> GroupAccount {
    GroupAccount {
        key: pool_key,
        uuid: [0; 6],
        whitelist: vec![key(55)],
        creator: key(0),
        token_mint: key(0),
        vault: key(0),
        config: config(7),
        member_addresses: vec![key(56)],
        payout_order: vec![key(57)],
        current_cycle: 4,
        total_cycles: 9,
        status: PoolStatus::Defaulted,
        total_contributions: 5,
        unclaimed_payout: 6,
        last_cycle_timestamp: 7,
        next_payout_timestamp: 8,
        price_feed_id: [3; 32],
        current_winner: Some(key(58)),
        current_bid_amount: Some(9),
        final_contribution_amount: Some(10),
    }
}

fn tokens(n: u8, owner: u8, amount: u64) -> TokenHolding {
    TokenHolding {
        key: key(n),
        owner: key(owner),
        mint: key(102),
        amount,
        lamports: 0,
        program: key(120),
    }
}

fn native_creation() -> CreateSolPool {
    CreateSolPool {
        creator: key(1),
        group_account: blank(key(100)),
        vault_sol: Holding { key: key(101), lamports: 0 },
        native_mint: key(102),
    }
}

fn created(participants: u8, native: bool, whitelist: Vec<Pubkey>) -> GroupAccount {
    let mut expected_config = config(participants);
    expected_config.is_native_sol = native;
    GroupAccount {
        key: key(100),
        uuid: UUID,
        whitelist,
        creator: key(1),
        token_mint: key(102),
        vault: key(101),
        config: expected_config,
        member_addresses: vec![key(1)],
        payout_order: Vec::new(),
        current_cycle: 0,
        total_cycles: participants,
        status: PoolStatus::Initializing,
        total_contributions: 0,
        unclaimed_payout: 0,
        last_cycle_timestamp: 1_234,
        next_payout_timestamp: 0,
        price_feed_id: [9; 32],
        current_winner: None,
        current_bid_amount: None,
        final_contribution_amount: None,
    }
}

#[test]
fn a_configuration_in_range_is_accepted() {
    assert_eq!(validate_pool_config(&config(3)), Ok(()));
    assert_eq!(validate_pool_config(&config(10)), Ok(()));
    assert_eq!(validate_pool_config(&PoolConfig::default()), Ok(()));
    let mut widest = config(10);
    widest.contribution_amount = 10_000;
    widest.cycle_duration_seconds = MAX_CYCLE_DURATION;
    widest.payout_delay_seconds = MAX_PAYOUT_DELAY;
    widest.early_withdrawal_fee_bps = 1_000;
    widest.collateral_requirement_bps = u16::MAX;
    assert_eq!(validate_pool_config(&widest), Ok(()));
    let mut narrowest = config(3);
    narrowest.contribution_amount = 10;
    narrowest.early_withdrawal_fee_bps = 0;
    narrowest.collateral_requirement_bps = 10_000;
    assert_eq!(validate_pool_config(&narrowest), Ok(()));
}

#[test]
fn a_pool_has_three_to_ten_participants() {
    for participants in [0u8, 1, 2, 11, 12, 255] {
        assert_eq!(
            validate_pool_config(&config(participants)),
            Err(HuiFiError::InvalidPoolConfig)
        );
        let mut ctx = native_creation();
        let before = ctx.clone();
        assert_eq!(
            create_sol_pool(&mut ctx, config(participants), UUID, None, 1),
            Err(HuiFiError::InvalidPoolConfig)
        );
        assert_eq!(ctx, before);
    }
    for participants in 3..=10u8 {
        let mut ctx = native_creation();
        assert_eq!(create_sol_pool(&mut ctx, config(participants), UUID, None, 1), Ok(()));
        assert_eq!(ctx.group_account.total_cycles, participants);
        assert_eq!(ctx.group_account.config.max_participants, participants);
    }
}

#[test]
fn every_value_out_of_range_is_refused() {
    let spoil: [fn(&mut PoolConfig); 10] = [
        |c| c.contribution_amount = 9,
        |c| c.contribution_amount = 10_001,
        |c| c.cycle_duration_seconds = MIN_CYCLE_DURATION - 1,
        |c| c.cycle_duration_seconds = MAX_CYCLE_DURATION + 1,
        |c| c.payout_delay_seconds = MIN_PAYOUT_DELAY - 1,
        |c| c.payout_delay_seconds = MAX_PAYOUT_DELAY + 1,
        |c| c.early_withdrawal_fee_bps = 1_001,
        |c| c.collateral_requirement_bps = 9_999,
        |c| c.collateral_requirement_bps = 0,
        |c| c.contribution_amount = u64::MAX,
    ];
    for change in spoil {
        let mut bad = config(5);
        change(&mut bad);
        assert_eq!(validate_pool_config(&bad), Err(HuiFiError::InvalidPoolConfig));
    }
}

#[test]
fn the_default_configuration_is_the_smallest_pool() {
    let config = PoolConfig::default();
    assert_eq!(config.max_participants, 3);
    assert_eq!(config.contribution_amount, 100);
    assert_eq!(config.cycle_duration_seconds, 259_200);
    assert_eq!(config.payout_delay_seconds, 86_400);
    assert_eq!(config.early_withdrawal_fee_bps, 200);
    assert_eq!(config.collateral_requirement_bps, 20_000);
    assert_eq!(config.yield_strategy, YieldPlatform::NoYield);
    assert!(!config.is_private);
    assert!(!config.is_native_sol);
    assert_eq!(config.feed_id, [0; 32]);
    assert_eq!(PoolStatus::default(), PoolStatus::Initializing);
    assert_eq!(YieldPlatform::default(), YieldPlatform::NoYield);
    assert_eq!(MemberStatus::default(), MemberStatus::Active);
}

#[test]
fn a_new_native_pool_has_its_creator_as_only_member() {
    let mut ctx = native_creation();
    assert_eq!(create_sol_pool(&mut ctx, config(4), UUID, None, 1_234), Ok(()));
    assert_eq!(ctx.group_account, created(4, true, Vec::new()));
    assert_eq!(ctx.creator, key(1));
}

#[test]
fn a_new_token_pool_settles_in_its_token() {
    let mut ctx = CreateSplPool {
        creator: key(1),
        group_account: blank(key(100)),
        token_mint: key(102),
        vault_spl: tokens(101, 100, 0),
    };
    let mut asked = config(5);
    asked.is_native_sol = true;
    assert_eq!(
        create_spl_pool(&mut ctx, asked, UUID, Some(vec![key(1), key(2)]), 1_234),
        Ok(())
    );
    assert_eq!(ctx.group_account, created(5, false, vec![key(1), key(2)]));
    let mut bad = config(5);
    bad.contribution_amount = 1;
    let before = ctx.clone();
    assert_eq!(
        create_spl_pool(&mut ctx, bad, UUID, None, 1),
        Err(HuiFiError::InvalidPoolConfig)
    );
    assert_eq!(ctx, before);
}

#[test]
fn a_new_pool_settles_in_what_its_configuration_names() {
    for native in [false, true] {
        let mut ctx = CreatePool {
            creator: key(1),
            group_account: blank(key(100)),
            token_mint: key(102),
            vault: tokens(101, 100, 0),
        };
        let mut asked = config(10);
        asked.is_native_sol = native;
        assert_eq!(create_pool(&mut ctx, asked, UUID, None, 1_234), Ok(()));
        assert_eq!(ctx.group_account, created(10, native, Vec::new()));
    }
    let mut ctx = CreatePool {
        creator: key(1),
        group_account: blank(key(100)),
        token_mint: key(102),
        vault: tokens(101, 100, 0),
    };
    let before = ctx.clone();
    assert_eq!(create_pool(&mut ctx, config(2), UUID, None, 1), Err(HuiFiError::InvalidPoolConfig));
    assert_eq!(ctx, before);
}

fn native_join(n: u8, group: GroupAccount) -> JoinSolPool {
    JoinSolPool { user: key(n), group_account: group, member_account: MemberAccount::new(key(0), key(0)) }
}

#[test]
fn joining_takes_the_next_seat() {
    let mut ctx = native_join(2, created(3, true, Vec::new()));
    ctx.member_account.contributions_made = 9;
    ctx.member_account.has_bid = true;
    assert_eq!(join_sol_pool(&mut ctx), Ok(()));
    assert_eq!(ctx.member_account, MemberAccount::new(key(2), key(100)));
    assert_eq!(ctx.member_account.status, MemberStatus::Active);
    assert_eq!(ctx.member_account.collateral_staked, 0);
    let mut expected = created(3, true, Vec::new());
    expected.member_addresses = vec![key(1), key(2)];
    assert_eq!(ctx.group_account, expected);
}

#[test]
fn the_last_seat_starts_the_first_auction() {
    let mut ctx = native_join(2, created(3, true, Vec::new()));
    assert_eq!(join_sol_pool(&mut ctx), Ok(()));
    let mut ctx = native_join(3, ctx.group_account);
    assert_eq!(join_sol_pool(&mut ctx), Ok(()));
    assert_eq!(ctx.group_account.status, PoolStatus::Active { phase: CyclePhase::Bidding });
    assert_eq!(ctx.group_account.member_addresses, vec![key(1), key(2), key(3)]);
    assert_eq!(ctx.group_account.payout_order, vec![key(1), key(2), key(3)]);
    assert_eq!(ctx.group_account.current_cycle, 0);
    let full = ctx.group_account.clone();
    let mut late = native_join(4, full);
    let before = late.clone();
    assert_eq!(join_sol_pool(&mut late), Err(HuiFiError::InvalidPoolStatus));
    assert_eq!(late, before);
}

#[test]
fn a_full_pool_takes_no_member() {
    let mut group = created(3, true, Vec::new());
    group.member_addresses = vec![key(1), key(2), key(3)];
    let mut ctx = native_join(4, group);
    let before = ctx.clone();
    assert_eq!(join_sol_pool(&mut ctx), Err(HuiFiError::PoolFull));
    assert_eq!(ctx, before);
}

#[test]
fn nobody_joins_twice() {
    let mut ctx = native_join(1, created(3, true, Vec::new()));
    let before = ctx.clone();
    assert_eq!(join_sol_pool(&mut ctx), Err(HuiFiError::MemberAlreadyJoined));
    assert_eq!(ctx, before);
}

#[test]
fn a_whitelist_keeps_others_out() {
    let mut ctx = native_join(3, created(3, true, vec![key(1), key(2)]));
    let before = ctx.clone();
    assert_eq!(join_sol_pool(&mut ctx), Err(HuiFiError::NotWhitelisted));
    assert_eq!(ctx, before);
    let mut ctx = native_join(2, created(3, true, vec![key(1), key(2)]));
    assert_eq!(join_sol_pool(&mut ctx), Ok(()));
}

#[test]
fn joining_the_wrong_kind_of_pool_is_refused() {
    let mut ctx = native_join(2, created(3, false, Vec::new()));
    assert_eq!(join_sol_pool(&mut ctx), Err(HuiFiError::InvalidPoolType));
    let mut ctx = JoinSplPool {
        user: key(2),
        group_account: created(3, true, Vec::new()),
        member_account: MemberAccount::new(key(0), key(0)),
        user_token_account: tokens(52, 2, 100),
    };
    assert_eq!(join_spl_pool(&mut ctx), Err(HuiFiError::InvalidPoolType));
}

#[test]
fn joining_a_token_pool_needs_one_contribution_in_hand() {
    let request = |holding: TokenHolding| JoinSplPool {
        user: key(2),
        group_account: created(3, false, Vec::new()),
        member_account: MemberAccount::new(key(0), key(0)),
        user_token_account: holding,
    };
    let mut ctx = request(tokens(52, 2, 100));
    assert_eq!(join_spl_pool(&mut ctx), Ok(()));
    assert_eq!(ctx.group_account.member_addresses, vec![key(1), key(2)]);
    assert_eq!(ctx.member_account, MemberAccount::new(key(2), key(100)));
    let mut ctx = request(tokens(52, 2, 99));
    let before = ctx.clone();
    assert_eq!(join_spl_pool(&mut ctx), Err(HuiFiError::InsufficientContribution));
    assert_eq!(ctx, before);
    let mut ctx = request(tokens(52, 3, 100));
    assert_eq!(join_spl_pool(&mut ctx), Err(HuiFiError::InvalidTokenAccountOwner));
    let mut other = tokens(52, 2, 100);
    other.mint = key(77);
    let mut ctx = request(other);
    assert_eq!(join_spl_pool(&mut ctx), Err(HuiFiError::InvalidPoolConfig));
}

#[test]
fn the_general_join_works_in_either_asset() {
    for native in [false, true] {
        let mut ctx = JoinPool {
            user: key(2),
            group_account: created(3, native, Vec::new()),
            member_account: MemberAccount::new(key(0), key(0)),
            user_token_account: tokens(52, 2, 500),
        };
        assert_eq!(join_pool(&mut ctx), Ok(()));
        assert_eq!(ctx.group_account.member_addresses, vec![key(1), key(2)]);
    }
    let mut ctx = JoinPool {
        user: key(1),
        group_account: created(3, false, Vec::new()),
        member_account: MemberAccount::new(key(0), key(0)),
        user_token_account: tokens(52, 1, 500),
    };
    assert_eq!(join_pool(&mut ctx), Err(HuiFiError::MemberAlreadyJoined));
    ctx.user_token_account.amount = 1;
    assert_eq!(join_pool(&mut ctx), Err(HuiFiError::InsufficientContribution));
    ctx.group_account.status = PoolStatus::Completed;
    assert_eq!(join_pool(&mut ctx), Err(HuiFiError::InvalidPoolStatus));
}

#[test]
fn identities_compare_byte_by_byte() {
    assert_eq!(key(1), key(1));
    assert_ne!(key(1), key(2));
    let mut bytes = [1u8; 32];
    bytes[31] = 2;
    assert_ne!(Pubkey::new_from_array(bytes), key(1));
    assert_eq!(Pubkey::new_from_array(bytes).to_bytes(), bytes);
    let list = vec![key(1), key(2), key(3), key(2)];
    assert!(contains_key(&list, &key(3)));
    assert!(!contains_key(&list, &key(4)));
    assert!(!contains_key(&Vec::new(), &key(4)));
    assert_eq!(position_of(&list, &key(2)), Some(1));
    assert_eq!(position_of(&list, &key(1)), Some(0));
    assert_eq!(position_of(&list, &key(9)), None);
    assert!(same_uuid(&UUID, &[1, 2, 3, 4, 5, 6]));
    assert!(!same_uuid(&UUID, &[1, 2, 3, 4, 5, 0]));
}

#[test]
fn a_new_pool_keeps_the_rules_for_pools() {
    for participants in 3..=10u8 {
        let mut group = created(participants, true, Vec::new());
        assert!(group.is_well_formed());
        for n in 2..=participants {
            let mut ctx = native_join(n, group);
            assert_eq!(join_sol_pool(&mut ctx), Ok(()));
            assert!(ctx.group_account.is_well_formed());
            group = ctx.group_account;
        }
        assert_eq!(group.status, PoolStatus::Active { phase: CyclePhase::Bidding });
        assert_eq!(group.member_addresses.len(), participants as usize);
        assert_eq!(group.total_cycles, group.config.max_participants);
    }
}

#[test]
fn a_pool_that_breaks_a_rule_is_recognised() {
    let sound = || {
        let mut group = created(3, true, Vec::new());
        group.member_addresses = vec![key(1), key(2), key(3)];
        group.status = PoolStatus::Active { phase: CyclePhase::Contributing };
        group.current_cycle = 2;
        group
    };
    assert!(sound().is_well_formed());
    let spoil: [fn(&mut GroupAccount); 9] = [
        |g| g.config.max_participants = 2,
        |g| g.config.max_participants = 11,
        |g| g.total_cycles = 4,
        |g| g.member_addresses.push(key(4)),
        |g| g.member_addresses[2] = key(1),
        |g| g.current_cycle = 3,
        |g| g.status = PoolStatus::Initializing,
        |g| {
            g.status = PoolStatus::Completed;
            g.current_cycle = 1
        },
        |g| g.config.early_withdrawal_fee_bps = 1_001,
    ];
    for change in spoil {
        let mut group = sound();
        change(&mut group);
        assert!(!group.is_well_formed());
    }
    let mut done = sound();
    done.status = PoolStatus::Completed;
    assert!(done.is_well_formed());
    assert!(has_no_duplicates(&vec![key(1), key(2), key(3)]));
    assert!(has_no_duplicates(&Vec::new()));
    assert!(!has_no_duplicates(&vec![key(1), key(2), key(1)]));
    assert!(!has_no_duplicates(&vec![key(2), key(2)]));
}
