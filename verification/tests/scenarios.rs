use contracts_hui::constants::{MIN_CYCLE_DURATION, MIN_PAYOUT_DELAY};
use contracts_hui::errors::HuiFiError;
use contracts_hui::instructions::bidding::{finalize_bidding, submit_bid, FinalizeBidding, SubmitBid};
use contracts_hui::instructions::collateral::{
    calculate_required_collateral, deposit_sol_collateral, DepositSolCollateral,
};
use contracts_hui::instructions::contribution::{
    contribute_sol, required_contribution, ContributeSol,
};
use contracts_hui::instructions::cycle_management::{advance_cycle, AdvanceCycle};
use contracts_hui::instructions::payout::{process_payout, PayoutProcessed, ProcessPayout};
use contracts_hui::instructions::pool::{create_sol_pool, join_sol_pool, CreateSolPool, JoinSolPool};
use contracts_hui::state::bidding::{BidEntry, BidState};
use contracts_hui::state::holding::{Holding, Transfer};
use contracts_hui::state::member::{MemberAccount, MemberStatus};
use contracts_hui::state::pool::{CyclePhase, GroupAccount, PoolConfig, PoolStatus, YieldPlatform};
use contracts_hui::state::pubkey::Pubkey;

const UUID: [u8; 6] = [1, 2, 3, 4, 5, 6];

fn key(n: u8) -> Pubkey {
    Pubkey::new_from_array([n; 32])
}

fn config(participants: u8) -> PoolConfig {
    PoolConfig {
        max_participants: participants,
        contribution_amount: 100,
        cycle_duration_seconds: MIN_CYCLE_DURATION,
        payout_delay_seconds: MIN_PAYOUT_DELAY,
        early_withdrawal_fee_bps: 200,
        collateral_requirement_bps: 20000,
        yield_strategy: YieldPlatform::NoYield,
        is_private: false,
        is_native_sol: true,
        feed_id: [0; 32],
    }
}

fn blank_pool(pool_key: Pubkey) -> GroupAccount {
    GroupAccount {
        key: pool_key,
        uuid: [0; 6],
        whitelist: Vec::new(),
        creator: key(0),
        token_mint: key(0),
        vault: key(0),
        config: config(3),
        member_addresses: Vec::new(),
        payout_order: Vec::new(),
        current_cycle: 0,
        total_cycles: 0,
        status: PoolStatus::Initializing,
        total_contributions: 0,
        unclaimed_payout: 0,
        last_cycle_timestamp: 0,
        next_payout_timestamp: 0,
        price_feed_id: [0; 32],
        current_winner: None,
        current_bid_amount: None,
        final_contribution_amount: None,
    }
}

/// A full pool of three: members 1 (the creator), 2 and 3, pool key 100,
/// vault 101.
fn full_pool() -> (GroupAccount, Vec<MemberAccount>) {
    let mut create = CreateSolPool {
        creator: key(1),
        group_account: blank_pool(key(100)),
        vault_sol: Holding { key: key(101), lamports: 0 },
        native_mint: key(102),
    };
    assert_eq!(create_sol_pool(&mut create, config(3), UUID, None, 1_000), Ok(()));
    let mut group = create.group_account;
    let mut members = vec![MemberAccount::new(key(1), key(100))];
    for n in 2..=3u8 {
        let mut join = JoinSolPool {
            user: key(n),
            group_account: group,
            member_account: MemberAccount::new(key(0), key(0)),
        };
        assert_eq!(join_sol_pool(&mut join), Ok(()));
        group = join.group_account;
        members.push(join.member_account);
    }
    (group, members)
}

fn bid(group: &GroupAccount, auction: &mut BidState, member: &mut MemberAccount, amount: u64) {
    let mut ctx = SubmitBid {
        bidder: member.owner,
        bid_state: auction.clone(),
        group_account: group.clone(),
        member_account: *member,
    };
    assert_eq!(submit_bid(&mut ctx, amount), Ok(()));
    *auction = ctx.bid_state;
    *member = ctx.member_account;
}

fn pay_in(
    group: &mut GroupAccount,
    member: &mut MemberAccount,
    amount: u64,
    now: i64,
) -> Result<Transfer, HuiFiError> {
    let mut ctx = ContributeSol {
        contributor: member.owner,
        group_account: group.clone(),
        member_account: *member,
        vault_sol: Holding { key: key(101), lamports: 0 },
    };
    let res = contribute_sol(&mut ctx, UUID, amount, now);
    *group = ctx.group_account;
    *member = ctx.member_account;
    res
}

#[test]
fn three_members_bid_contribute_and_are_counted() {
    let (mut group, mut members) = full_pool();
    assert_eq!(group.status, PoolStatus::Active { phase: CyclePhase::Bidding });
    assert_eq!(group.total_cycles, 3);
    assert_eq!(group.member_addresses, vec![key(1), key(2), key(3)]);
    assert_eq!(group.payout_order, vec![key(1), key(2), key(3)]);

    let mut auction = BidState { pool: key(100), cycle: 0, bids: Vec::new(), winner: None };
    bid(&group, &mut auction, &mut members[0], 50);
    bid(&group, &mut auction, &mut members[1], 80);
    bid(&group, &mut auction, &mut members[2], 80);
    assert!(auction.should_finalize_bidding(3));

    let mut finalize = FinalizeBidding {
        authority: key(1),
        bid_state: auction,
        group_account: group,
        winner_member_account: members[1],
    };
    assert_eq!(finalize_bidding(&mut finalize), Ok(()));
    assert_eq!(finalize.bid_state.winner, Some(key(2)));
    assert_eq!(finalize.group_account.current_winner, Some(key(2)));
    assert_eq!(finalize.group_account.current_bid_amount, Some(80));
    assert!(finalize.winner_member_account.eligible_for_payout);
    assert_eq!(
        finalize.bid_state.bids,
        vec![
            BidEntry { bidder: key(2), amount: 80 },
            BidEntry { bidder: key(3), amount: 80 },
            BidEntry { bidder: key(1), amount: 50 },
        ]
    );
    members[1] = finalize.winner_member_account;

    let mut advance = AdvanceCycle {
        authority: key(1),
        group_account: finalize.group_account,
        bid_state: finalize.bid_state,
        member_accounts: members,
    };
    assert_eq!(advance_cycle(&mut advance, 2_000), Ok(()));
    assert_eq!(
        advance.group_account.status,
        PoolStatus::Active { phase: CyclePhase::Contributing }
    );
    assert_eq!(advance.group_account.current_winner, Some(key(2)));
    group = advance.group_account;
    members = advance.member_accounts;

    assert_eq!(required_contribution(&group, &key(1)), 100);
    assert_eq!(required_contribution(&group, &key(2)), 20);
    assert_eq!(required_contribution(&group, &key(3)), 100);

    assert!(!group.all_members_contributed(&members));
    let (mut first, mut second, mut third) = (members[0], members[1], members[2]);
    assert_eq!(
        pay_in(&mut group, &mut first, 100, 3_000),
        Ok(Transfer { from: key(1), to: key(101), authority: key(1), amount: 100 })
    );
    members[0] = first;
    assert!(!group.all_members_contributed(&members));
    assert_eq!(pay_in(&mut group, &mut second, 100, 3_001), Err(HuiFiError::InsufficientContribution));
    assert_eq!(
        pay_in(&mut group, &mut second, 20, 3_002),
        Ok(Transfer { from: key(2), to: key(101), authority: key(2), amount: 20 })
    );
    members[1] = second;
    assert!(!group.all_members_contributed(&members));
    assert_eq!(
        pay_in(&mut group, &mut third, 100, 3_003),
        Ok(Transfer { from: key(3), to: key(101), authority: key(3), amount: 100 })
    );
    members[2] = third;
    assert!(group.all_members_contributed(&members));
    assert_eq!(group.total_contributions, 220);
    assert_eq!(members[1].contributions_made, 1);
    assert_eq!(members[1].last_contribution_timestamp, 3_002);
}

#[test]
fn final_cycle_payout_of_300_has_no_fee_and_needs_no_collateral() {
    let (mut group, _) = full_pool();
    group.current_cycle = 2;
    group.status = PoolStatus::Active { phase: CyclePhase::ReadyForPayout };
    group.total_contributions = 300;
    group.current_winner = Some(key(3));
    group.next_payout_timestamp = 5_000;
    let mut winner = MemberAccount::new(key(3), key(100));
    winner.eligible_for_payout = true;
    let mut ctx = ProcessPayout {
        user: key(3),
        group_account: group,
        recipient_account: winner,
        recipient: Holding { key: key(3), lamports: 7 },
        vault_sol: Holding { key: key(101), lamports: 300 },
        protocol_treasury: Holding { key: key(110), lamports: 11 },
    };
    let res = process_payout(&mut ctx, None, 5_000);
    assert_eq!(
        res,
        Ok(PayoutProcessed {
            pool: key(100),
            recipient: key(3),
            amount: 300,
            cycle: 2,
            timestamp: 5_000,
        })
    );
    assert_eq!(ctx.vault_sol.lamports, 0);
    assert_eq!(ctx.recipient.lamports, 307);
    assert_eq!(ctx.protocol_treasury.lamports, 11);
    assert!(ctx.recipient_account.has_received_payout);
    assert!(!ctx.recipient_account.eligible_for_payout);
    assert_eq!(ctx.recipient_account.status, MemberStatus::Withdrawed);
    assert!(!ctx.recipient_account.has_deposited_collateral);
}

#[test]
fn a_pool_runs_all_its_cycles_and_completes() {
    let (mut group, mut members) = full_pool();
    let mut auction = BidState { pool: key(100), cycle: 0, bids: Vec::new(), winner: None };
    let mut now: i64 = 10_000;
    for cycle in 0..3u8 {
        assert_eq!(group.current_cycle, cycle);
        assert!(group.is_well_formed());
        assert_eq!(group.status, PoolStatus::Active { phase: CyclePhase::Bidding });
        let bidder = cycle as usize;
        let mut who = members[bidder];
        bid(&group, &mut auction, &mut who, 10 + cycle as u64);
        members[bidder] = who;

        let mut advance = AdvanceCycle {
            authority: key(1),
            group_account: group,
            bid_state: auction,
            member_accounts: members,
        };
        assert_eq!(advance_cycle(&mut advance, now), Ok(()));
        assert!(advance.member_accounts[bidder].eligible_for_payout);
        assert!(advance.group_account.is_well_formed());
        group = advance.group_account;
        auction = advance.bid_state;
        members = advance.member_accounts;

        for seat in 0..3 {
            let mut who = members[seat];
            let due = required_contribution(&group, &who.owner);
            assert_eq!(due, if seat == bidder { 100 - (10 + cycle as u64) } else { 100 });
            assert!(pay_in(&mut group, &mut who, due, now).is_ok());
            assert!(group.is_well_formed());
            members[seat] = who;
        }

        let mut advance = AdvanceCycle {
            authority: key(1),
            group_account: group,
            bid_state: auction,
            member_accounts: members,
        };
        assert_eq!(advance_cycle(&mut advance, now), Ok(()));
        assert_eq!(
            advance.group_account.status,
            PoolStatus::Active { phase: CyclePhase::ReadyForPayout }
        );
        assert_eq!(advance.group_account.next_payout_timestamp, now + MIN_PAYOUT_DELAY as i64);
        group = advance.group_account;
        auction = advance.bid_state;
        members = advance.member_accounts;
        now += MIN_PAYOUT_DELAY as i64;

        let last = cycle == 2;
        let mut required = None;
        if !last {
            let owed = calculate_required_collateral(&group, &members[bidder]);
            let mut deposit = DepositSolCollateral {
                user: members[bidder].owner,
                group_account: group,
                member_account: members[bidder],
                collateral_vault_sol: Holding { key: key(103), lamports: 0 },
            };
            assert!(deposit_sol_collateral(&mut deposit, owed).is_ok());
            group = deposit.group_account;
            members[bidder] = deposit.member_account;
            required = Some(owed);
        }
        let base = group.total_contributions;
        let mut payout = ProcessPayout {
            user: members[bidder].owner,
            group_account: group,
            recipient_account: members[bidder],
            recipient: Holding { key: members[bidder].owner, lamports: 0 },
            vault_sol: Holding { key: key(101), lamports: base },
            protocol_treasury: Holding { key: key(110), lamports: 0 },
        };
        let paid = process_payout(&mut payout, required, now).unwrap();
        let fee = if last { 0 } else { base * 200 / 10_000 };
        assert_eq!(paid.amount, base - fee);
        assert_eq!(payout.protocol_treasury.lamports, fee);
        assert_eq!(payout.recipient.lamports + payout.protocol_treasury.lamports, base);
        group = payout.group_account;
        members[bidder] = payout.recipient_account;

        let mut advance = AdvanceCycle {
            authority: key(1),
            group_account: group,
            bid_state: auction,
            member_accounts: members,
        };
        assert_eq!(advance_cycle(&mut advance, now), Ok(()));
        group = advance.group_account;
        auction = advance.bid_state;
        members = advance.member_accounts;
        if !last {
            assert!(auction.bids.is_empty());
            assert_eq!(auction.winner, None);
            assert_eq!(group.current_winner, None);
            assert_eq!(group.current_bid_amount, None);
            assert_eq!(group.last_cycle_timestamp, now);
            assert!(members.iter().all(|m| !m.has_bid));
        }
    }
    assert_eq!(group.status, PoolStatus::Completed);
    assert!(group.is_well_formed());
    assert_eq!(group.current_cycle, 2);
    assert_eq!(group.config.max_participants, 3);
    assert_eq!(group.total_cycles, 3);
}
