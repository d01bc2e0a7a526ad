//! Creating a pool and filling it with members.

use vstd::prelude::*;
use crate::errors::HuiFiError;
use crate::state::holding::{Holding, TokenHolding};
use crate::state::member::MemberAccount;
use crate::state::pool::{CyclePhase, GroupAccount, GroupAccountView, PoolConfig, PoolStatus};
use crate::state::pubkey::{contains_key, Pubkey};

verus! {

/// What a pool that settles in the native asset is created from.
#[derive(Clone, Debug, PartialEq, Eq)]
pub struct CreateSolPool {
    pub creator: Pubkey,
    /// The record to fill. Only its `key` is read.
    pub group_account: GroupAccount,
    /// Where the pool will hold its contributions.
    pub vault_sol: Holding,
    /// The identity under which the native asset goes as a settlement asset.
    pub native_mint: Pubkey,
}

/// What a pool that settles in a token is created from.
#[derive(Clone, Debug, PartialEq, Eq)]
pub struct CreateSplPool {
    pub creator: Pubkey,
    /// The record to fill. Only its `key` is read.
    pub group_account: GroupAccount,
    /// The token the pool will settle in.
    pub token_mint: Pubkey,
    /// Where the pool will hold its contributions.
    pub vault_spl: TokenHolding,
}

/// What a pool is created from, whatever it settles in.
#[derive(Clone, Debug, PartialEq, Eq)]
pub struct CreatePool {
    pub creator: Pubkey,
    /// The record to fill. Only its `key` is read.
    pub group_account: GroupAccount,
    /// The asset the pool will settle in.
    pub token_mint: Pubkey,
    /// Where the pool will hold its contributions.
    pub vault: TokenHolding,
}

/// What a participant hands over to join a pool that settles in the native
/// asset.
#[derive(Clone, Debug, PartialEq, Eq)]
pub struct JoinSolPool {
    /// Who joins.
    pub user: Pubkey,
    pub group_account: GroupAccount,
    /// The record to fill for the new member.
    pub member_account: MemberAccount,
}

/// What a participant hands over to join a pool that settles in a token.
#[derive(Clone, Debug, PartialEq, Eq)]
pub struct JoinSplPool {
    /// Who joins.
    pub user: Pubkey,
    pub group_account: GroupAccount,
    /// The record to fill for the new member.
    pub member_account: MemberAccount,
    /// The tokens the participant will contribute from.
    pub user_token_account: TokenHolding,
}

/// What a participant hands over to join a pool, whatever it settles in.
#[derive(Clone, Debug, PartialEq, Eq)]
pub struct JoinPool {
    /// Who joins.
    pub user: Pubkey,
    pub group_account: GroupAccount,
    /// The record to fill for the new member.
    pub member_account: MemberAccount,
    /// The tokens the participant will contribute from.
    pub user_token_account: TokenHolding,
}

/// Accepts a configuration exactly when every value lies in its admissible
/// range.
pub fn validate_pool_config(config: &PoolConfig) -> (res: Result<(), HuiFiError>)
    ensures
        config.is_valid() ==> res is Ok,
        !config.is_valid() ==> res == Err::<(), HuiFiError>(HuiFiError::InvalidPoolConfig),
{
    if config.is_in_range() {
        Ok(())
    } else {
        Err(HuiFiError::InvalidPoolConfig)
    }
}

/// A pool that has just been created at time `now`: it is being set up, its
/// creator is its only member, it runs one cycle per participant, and
/// nothing has been contributed, bid or won.
pub open spec fn new_pool(
    key: Pubkey,
    creator: Pubkey,
    token_mint: Pubkey,
    vault: Pubkey,
    config: PoolConfig,
    uuid: [u8; 6],
    whitelist: Seq<Pubkey>,
    now: i64,
) -> GroupAccountView {
    GroupAccountView {
        key,
        uuid,
        whitelist,
        creator,
        token_mint,
        vault,
        config,
        member_addresses: seq![creator],
        payout_order: Seq::empty(),
        current_cycle: 0,
        total_cycles: config.max_participants,
        status: PoolStatus::Initializing,
        total_contributions: 0,
        unclaimed_payout: 0,
        last_cycle_timestamp: now,
        next_payout_timestamp: 0,
        price_feed_id: config.feed_id,
        current_winner: None,
        current_bid_amount: None,
        final_contribution_amount: None,
    }
}

/// The list of those who may join: as given, or empty when none is given.
pub open spec fn whitelist_or_empty(whitelist: Option<Vec<Pubkey>>) -> Seq<Pubkey> {
    match whitelist {
        Some(list) => list@,
        None => Seq::empty(),
    }
}

/// Builds the record of a new pool.
fn build_pool(
    key: Pubkey,
    creator: Pubkey,
    token_mint: Pubkey,
    vault: Pubkey,
    config: PoolConfig,
    uuid: [u8; 6],
    whitelist: Option<Vec<Pubkey>>,
    now: i64,
) -> (group: GroupAccount)
    ensures
        group@ == new_pool(
            key,
            creator,
            token_mint,
            vault,
            config,
            uuid,
            whitelist_or_empty(whitelist),
            now,
        ),
        config.is_valid() ==> group@.wf(),
{
    let mut member_addresses: Vec<Pubkey> = Vec::new();
    member_addresses.push(creator);
    let whitelist = match whitelist {
        Some(list) => list,
        None => Vec::new(),
    };
    let group = GroupAccount {
        key,
        uuid,
        whitelist,
        creator,
        token_mint,
        vault,
        config,
        member_addresses,
        payout_order: Vec::new(),
        current_cycle: 0,
        total_cycles: config.max_participants,
        status: PoolStatus::Initializing,
        total_contributions: 0,
        unclaimed_payout: 0,
        last_cycle_timestamp: now,
        next_payout_timestamp: 0,
        price_feed_id: config.feed_id,
        current_winner: None,
        current_bid_amount: None,
        final_contribution_amount: None,
    };
    assert(group@.member_addresses =~= seq![creator]);
    assert(group@.payout_order =~= Seq::<Pubkey>::empty());
    group
}

/// The configuration `config` of a pool that settles in the native asset or
/// not, as `native` says.
pub open spec fn settling_in(config: PoolConfig, native: bool) -> PoolConfig {
    PoolConfig { is_native_sol: native, ..config }
}

/// Creates a pool that settles in the native asset.
///
/// With an admissible configuration the record is filled with a new pool
/// under the record's own key, created by `creator` at time `now`, holding
/// its contributions in the vault given. With any other configuration the
/// request is refused and nothing changes.
pub fn create_sol_pool(
    ctx: &mut CreateSolPool,
    pool_config: PoolConfig,
    uuid: [u8; 6],
    whitelist: Option<Vec<Pubkey>>,
    now: i64,
) -> (res: Result<(), HuiFiError>)
    ensures
        !pool_config.is_valid() ==> res == Err::<(), HuiFiError>(HuiFiError::InvalidPoolConfig)
            && *final(ctx) == *old(ctx),
        pool_config.is_valid() ==> {
            &&& res is Ok
            &&& final(ctx).group_account@ == new_pool(
                old(ctx).group_account.key,
                old(ctx).creator,
                old(ctx).native_mint,
                old(ctx).vault_sol.key,
                settling_in(pool_config, true),
                uuid,
                whitelist_or_empty(whitelist),
                now,
            )
            &&& final(ctx).group_account@.wf()
            &&& final(ctx).creator == old(ctx).creator
            &&& final(ctx).vault_sol == old(ctx).vault_sol
            &&& final(ctx).native_mint == old(ctx).native_mint
        },
{
    match validate_pool_config(&pool_config) {
        Ok(()) => {},
        Err(e) => {
            return Err(e);
        },
    }
    let mut config = pool_config;
    config.is_native_sol = true;
    ctx.group_account = build_pool(
        ctx.group_account.key,
        ctx.creator,
        ctx.native_mint,
        ctx.vault_sol.key,
        config,
        uuid,
        whitelist,
        now,
    );
    Ok(())
}

/// Creates a pool that settles in a token.
///
/// With an admissible configuration the record is filled with a new pool
/// under the record's own key, created by `creator` at time `now`, holding
/// its contributions in the vault given. With any other configuration the
/// request is refused and nothing changes.
pub fn create_spl_pool(
    ctx: &mut CreateSplPool,
    pool_config: PoolConfig,
    uuid: [u8; 6],
    whitelist: Option<Vec<Pubkey>>,
    now: i64,
) -> (res: Result<(), HuiFiError>)
    ensures
        !pool_config.is_valid() ==> res == Err::<(), HuiFiError>(HuiFiError::InvalidPoolConfig)
            && *final(ctx) == *old(ctx),
        pool_config.is_valid() ==> {
            &&& res is Ok
            &&& final(ctx).group_account@ == new_pool(
                old(ctx).group_account.key,
                old(ctx).creator,
                old(ctx).token_mint,
                old(ctx).vault_spl.key,
                settling_in(pool_config, false),
                uuid,
                whitelist_or_empty(whitelist),
                now,
            )
            &&& final(ctx).group_account@.wf()
            &&& final(ctx).creator == old(ctx).creator
            &&& final(ctx).token_mint == old(ctx).token_mint
            &&& final(ctx).vault_spl == old(ctx).vault_spl
        },
{
    match validate_pool_config(&pool_config) {
        Ok(()) => {},
        Err(e) => {
            return Err(e);
        },
    }
    let mut config = pool_config;
    config.is_native_sol = false;
    ctx.group_account = build_pool(
        ctx.group_account.key,
        ctx.creator,
        ctx.token_mint,
        ctx.vault_spl.key,
        config,
        uuid,
        whitelist,
        now,
    );
    Ok(())
}

/// Creates a pool that settles in the asset its configuration names.
///
/// With an admissible configuration the record is filled with a new pool
/// under the record's own key, created by `creator` at time `now`, holding
/// its contributions in the vault given. With any other configuration the
/// request is refused and nothing changes.
pub fn create_pool(
    ctx: &mut CreatePool,
    pool_config: PoolConfig,
    uuid: [u8; 6],
    whitelist: Option<Vec<Pubkey>>,
    now: i64,
) -> (res: Result<(), HuiFiError>)
    ensures
        !pool_config.is_valid() ==> res == Err::<(), HuiFiError>(HuiFiError::InvalidPoolConfig)
            && *final(ctx) == *old(ctx),
        pool_config.is_valid() ==> {
            &&& res is Ok
            &&& final(ctx).group_account@ == new_pool(
                old(ctx).group_account.key,
                old(ctx).creator,
                old(ctx).token_mint,
                old(ctx).vault.key,
                pool_config,
                uuid,
                whitelist_or_empty(whitelist),
                now,
            )
            &&& final(ctx).group_account@.wf()
            &&& final(ctx).creator == old(ctx).creator
            &&& final(ctx).token_mint == old(ctx).token_mint
            &&& final(ctx).vault == old(ctx).vault
        },
{
    match validate_pool_config(&pool_config) {
        Ok(()) => {},
        Err(e) => {
            return Err(e);
        },
    }
    ctx.group_account = build_pool(
        ctx.group_account.key,
        ctx.creator,
        ctx.token_mint,
        ctx.vault.key,
        pool_config,
        uuid,
        whitelist,
        now,
    );
    Ok(())
}

/// Why the pool does not take new members, if it does not.
pub open spec fn admission_rejection(pool: GroupAccountView) -> Option<HuiFiError> {
    if pool.status != PoolStatus::Initializing {
        Some(HuiFiError::InvalidPoolStatus)
    } else if pool.member_addresses.len() >= pool.total_cycles {
        Some(HuiFiError::PoolFull)
    } else {
        None
    }
}

/// Why `user` cannot become a member of the pool, if it cannot.
pub open spec fn newcomer_rejection(pool: GroupAccountView, user: Pubkey) -> Option<HuiFiError> {
    if pool.member_addresses.contains(user) {
        Some(HuiFiError::MemberAlreadyJoined)
    } else if pool.whitelist.len() > 0 && !pool.whitelist.contains(user) {
        Some(HuiFiError::NotWhitelisted)
    } else {
        None
    }
}

/// Why the holding area `tokens` does not show that `user` can contribute
/// to the pool, if it does not.
pub open spec fn funding_rejection(pool: GroupAccountView, tokens: TokenHolding, user: Pubkey) -> Option<
    HuiFiError,
> {
    if tokens.owner != user {
        Some(HuiFiError::InvalidTokenAccountOwner)
    } else if tokens.mint != pool.token_mint {
        Some(HuiFiError::InvalidPoolConfig)
    } else if tokens.amount < pool.config.contribution_amount {
        Some(HuiFiError::InsufficientContribution)
    } else {
        None
    }
}

/// The pool with `user` as its newest member. With its last seat taken the
/// pool starts its first auction, and its members are listed for payout in
/// the order in which they joined.
pub open spec fn pool_with_member(pool: GroupAccountView, user: Pubkey) -> GroupAccountView {
    let members = pool.member_addresses.push(user);
    if members.len() == pool.total_cycles {
        GroupAccountView {
            member_addresses: members,
            payout_order: members,
            status: PoolStatus::Active { phase: CyclePhase::Bidding },
            ..pool
        }
    } else {
        GroupAccountView { member_addresses: members, ..pool }
    }
}

/// Checks that the pool takes new members.
fn check_admission(group: &GroupAccount) -> (res: Result<(), HuiFiError>)
    ensures
        res == match admission_rejection(group@) {
            Some(e) => Err::<(), HuiFiError>(e),
            None => Ok::<(), HuiFiError>(()),
        },
{
    if group.status != PoolStatus::Initializing {
        Err(HuiFiError::InvalidPoolStatus)
    } else if group.member_addresses.len() >= group.total_cycles as usize {
        Err(HuiFiError::PoolFull)
    } else {
        Ok(())
    }
}

/// Checks that `user` can become a member of the pool.
fn check_newcomer(group: &GroupAccount, user: &Pubkey) -> (res: Result<(), HuiFiError>)
    ensures
        res == match newcomer_rejection(group@, *user) {
            Some(e) => Err::<(), HuiFiError>(e),
            None => Ok::<(), HuiFiError>(()),
        },
{
    if contains_key(&group.member_addresses, user) {
        Err(HuiFiError::MemberAlreadyJoined)
    } else if group.whitelist.len() > 0 && !contains_key(&group.whitelist, user) {
        Err(HuiFiError::NotWhitelisted)
    } else {
        Ok(())
    }
}

/// Checks that the holding area `tokens` shows that `user` can contribute.
fn check_funding(group: &GroupAccount, tokens: &TokenHolding, user: &Pubkey) -> (res: Result<
    (),
    HuiFiError,
>)
    ensures
        res == match funding_rejection(group@, *tokens, *user) {
            Some(e) => Err::<(), HuiFiError>(e),
            None => Ok::<(), HuiFiError>(()),
        },
{
    if tokens.owner != *user {
        Err(HuiFiError::InvalidTokenAccountOwner)
    } else if tokens.mint != group.token_mint {
        Err(HuiFiError::InvalidPoolConfig)
    } else if tokens.amount < group.config.contribution_amount {
        Err(HuiFiError::InsufficientContribution)
    } else {
        Ok(())
    }
}

/// A copy of `keys`.
fn copy_keys(keys: &Vec<Pubkey>) -> (copy: Vec<Pubkey>)
    ensures
        copy@ == keys@,
{
    let mut copy: Vec<Pubkey> = Vec::new();
    let mut i: usize = 0;
    while i < keys.len()
        invariant
            i <= keys.len(),
            copy@ == keys@.subrange(0, i as int),
        decreases keys.len() - i,
    {
        copy.push(keys[i]);
        assert(keys@.subrange(0, i + 1) =~= keys@.subrange(0, i as int).push(keys@[i as int]));
        i += 1;
    }
    assert(keys@.subrange(0, i as int) =~= keys@);
    copy
}

/// Seats `user` in the pool and fills its record.
fn seat_member(group: &mut GroupAccount, member: &mut MemberAccount, user: Pubkey)
    requires
        admission_rejection(old(group)@) is None,
        newcomer_rejection(old(group)@, user) is None,
    ensures
        final(group)@ == pool_with_member(old(group)@, user),
        *final(member) == MemberAccount::fresh(user, old(group).key),
        old(group)@.wf() ==> final(group)@.wf(),
{
    *member = MemberAccount::new(user, group.key);
    group.member_addresses.push(user);
    if group.member_addresses.len() == group.total_cycles as usize {
        group.status = PoolStatus::Active { phase: CyclePhase::Bidding };
        group.payout_order = copy_keys(&group.member_addresses);
    }
    proof {
        let before = old(group)@.member_addresses;
        let after = group@.member_addresses;
        assert forall|i: int, j: int|
            0 <= i < after.len() && 0 <= j < after.len() && i != j && before.no_duplicates() implies after[i]
            != after[j] by {
            if i < before.len() && j < before.len() {
                assert(before[i] != before[j]);
            } else if i < before.len() {
                assert(before.contains(before[i]));
            } else {
                assert(before.contains(before[j]));
            }
        }
    }
}

impl JoinSolPool {
    /// Why the participant is not admitted, if it is not: the first of the
    /// conditions below that fails.
    pub open spec fn rejection(&self) -> Option<HuiFiError> {
        let pool = self.group_account@;
        if admission_rejection(pool) is Some {
            admission_rejection(pool)
        } else if !pool.config.is_native_sol {
            Some(HuiFiError::InvalidPoolType)
        } else {
            newcomer_rejection(pool, self.user)
        }
    }
}

impl JoinSplPool {
    /// Why the participant is not admitted, if it is not: the first of the
    /// conditions below that fails.
    pub open spec fn rejection(&self) -> Option<HuiFiError> {
        let pool = self.group_account@;
        if admission_rejection(pool) is Some {
            admission_rejection(pool)
        } else if pool.config.is_native_sol {
            Some(HuiFiError::InvalidPoolType)
        } else if funding_rejection(pool, self.user_token_account, self.user) is Some {
            funding_rejection(pool, self.user_token_account, self.user)
        } else {
            newcomer_rejection(pool, self.user)
        }
    }
}

impl JoinPool {
    /// Why the participant is not admitted, if it is not: the first of the
    /// conditions below that fails.
    pub open spec fn rejection(&self) -> Option<HuiFiError> {
        let pool = self.group_account@;
        if admission_rejection(pool) is Some {
            admission_rejection(pool)
        } else if funding_rejection(pool, self.user_token_account, self.user) is Some {
            funding_rejection(pool, self.user_token_account, self.user)
        } else {
            newcomer_rejection(pool, self.user)
        }
    }
}

/// Admits a participant to a pool that settles in the native asset.
///
/// The participant is admitted when the pool is being set up, has a seat
/// left and settles in the native asset, and the participant is not a member
/// yet and is on the pool's whitelist, if the pool has one. It then takes
/// the next seat with a new record. A refused request changes nothing. A
/// pool that keeps the rules for pools before keeps them after.
pub fn join_sol_pool(ctx: &mut JoinSolPool) -> (res: Result<(), HuiFiError>)
    ensures
        old(ctx).rejection() matches Some(e) ==> res == Err::<(), HuiFiError>(e) && *final(ctx)
            == *old(ctx),
        old(ctx).rejection() is None ==> {
            &&& res is Ok
            &&& final(ctx).group_account@ == pool_with_member(
                old(ctx).group_account@,
                old(ctx).user,
            )
            &&& final(ctx).member_account == MemberAccount::fresh(
                old(ctx).user,
                old(ctx).group_account.key,
            )
            &&& final(ctx).user == old(ctx).user
        },
        old(ctx).group_account@.wf() ==> final(ctx).group_account@.wf(),
{
    match check_admission(&ctx.group_account) {
        Ok(()) => {},
        Err(e) => {
            return Err(e);
        },
    }
    if !ctx.group_account.config.is_native_sol {
        return Err(HuiFiError::InvalidPoolType);
    }
    match check_newcomer(&ctx.group_account, &ctx.user) {
        Ok(()) => {},
        Err(e) => {
            return Err(e);
        },
    }
    seat_member(&mut ctx.group_account, &mut ctx.member_account, ctx.user);
    Ok(())
}

/// Admits a participant to a pool that settles in a token.
///
/// The participant is admitted when the pool is being set up, has a seat
/// left and settles in a token, the participant holds at least one
/// contribution in that token, is not a member yet and is on the pool's
/// whitelist, if the pool has one. It then takes the next seat with a new
/// record. A refused request changes nothing. A pool that keeps the rules
/// for pools before keeps them after.
pub fn join_spl_pool(ctx: &mut JoinSplPool) -> (res: Result<(), HuiFiError>)
    ensures
        old(ctx).rejection() matches Some(e) ==> res == Err::<(), HuiFiError>(e) && *final(ctx)
            == *old(ctx),
        old(ctx).rejection() is None ==> {
            &&& res is Ok
            &&& final(ctx).group_account@ == pool_with_member(
                old(ctx).group_account@,
                old(ctx).user,
            )
            &&& final(ctx).member_account == MemberAccount::fresh(
                old(ctx).user,
                old(ctx).group_account.key,
            )
            &&& final(ctx).user == old(ctx).user
            &&& final(ctx).user_token_account == old(ctx).user_token_account
        },
        old(ctx).group_account@.wf() ==> final(ctx).group_account@.wf(),
{
    match check_admission(&ctx.group_account) {
        Ok(()) => {},
        Err(e) => {
            return Err(e);
        },
    }
    if ctx.group_account.config.is_native_sol {
        return Err(HuiFiError::InvalidPoolType);
    }
    match check_funding(&ctx.group_account, &ctx.user_token_account, &ctx.user) {
        Ok(()) => {},
        Err(e) => {
            return Err(e);
        },
    }
    match check_newcomer(&ctx.group_account, &ctx.user) {
        Ok(()) => {},
        Err(e) => {
            return Err(e);
        },
    }
    seat_member(&mut ctx.group_account, &mut ctx.member_account, ctx.user);
    Ok(())
}

/// Admits a participant to a pool, whatever it settles in.
///
/// The participant is admitted when the pool is being set up and has a seat
/// left, the participant holds at least one contribution in the pool's
/// asset, is not a member yet and is on the pool's whitelist, if the pool
/// has one. It then takes the next seat with a new record. A refused request
/// changes nothing. A pool that keeps the rules for pools before keeps them
/// after.
pub fn join_pool(ctx: &mut JoinPool) -> (res: Result<(), HuiFiError>)
    ensures
        old(ctx).rejection() matches Some(e) ==> res == Err::<(), HuiFiError>(e) && *final(ctx)
            == *old(ctx),
        old(ctx).rejection() is None ==> {
            &&& res is Ok
            &&& final(ctx).group_account@ == pool_with_member(
                old(ctx).group_account@,
                old(ctx).user,
            )
            &&& final(ctx).member_account == MemberAccount::fresh(
                old(ctx).user,
                old(ctx).group_account.key,
            )
            &&& final(ctx).user == old(ctx).user
            &&& final(ctx).user_token_account == old(ctx).user_token_account
        },
        old(ctx).group_account@.wf() ==> final(ctx).group_account@.wf(),
{
    match check_admission(&ctx.group_account) {
        Ok(()) => {},
        Err(e) => {
            return Err(e);
        },
    }
    match check_funding(&ctx.group_account, &ctx.user_token_account, &ctx.user) {
        Ok(()) => {},
        Err(e) => {
            return Err(e);
        },
    }
    match check_newcomer(&ctx.group_account, &ctx.user) {
        Ok(()) => {},
        Err(e) => {
            return Err(e);
        },
    }
    seat_member(&mut ctx.group_account, &mut ctx.member_account, ctx.user);
    Ok(())
}

} // verus!
