//! Setting up the protocol and changing what it charges.

use vstd::prelude::*;
use crate::constants::MAX_PROTOCOL_FEE_BPS;
use crate::errors::HuiFiError;
use crate::state::holding::TokenHolding;
use crate::state::protocol::{ProtocolSettings, ProtocolSettingsView, TreasuryAccount};
use crate::state::pubkey::Pubkey;

verus! {

/// What the protocol is set up with.
#[derive(Clone, Debug, PartialEq, Eq)]
pub struct InitializeProtocol {
    /// Who sets the protocol up, and administers it from then on.
    pub admin: Pubkey,
    /// The settings to fill.
    pub protocol_settings: ProtocolSettings,
    /// Where fees in the native asset go.
    pub treasury_sol: Pubkey,
    pub treasury_usdc: Pubkey,
    pub treasury_usdt: Pubkey,
    pub treasury_jitosol: Pubkey,
    pub mint_usdc: Pubkey,
    pub mint_usdt: Pubkey,
    pub mint_jitosol: Pubkey,
}

/// What a treasury for one more token is registered with.
#[derive(Clone, Debug, PartialEq, Eq)]
pub struct UpdateTreasuryAccount {
    /// Who asks.
    pub admin: Pubkey,
    pub protocol_settings: ProtocolSettings,
    /// The holding area that is to collect the token.
    pub new_treasury_account: TokenHolding,
    /// The token to collect.
    pub new_mint: Pubkey,
    /// The program that keeps token holding areas.
    pub token_program: Pubkey,
}

/// What the protocol fee is changed with.
#[derive(Clone, Debug, PartialEq, Eq)]
pub struct UpdateProtocolFee {
    /// Who asks.
    pub admin: Pubkey,
    pub protocol_settings: ProtocolSettings,
}

/// What the price of creating a pool is changed with.
#[derive(Clone, Debug, PartialEq, Eq)]
pub struct UpdateCreatePoolFee {
    /// Who asks.
    pub admin: Pubkey,
    pub protocol_settings: ProtocolSettings,
}

/// What the penalty rate is changed with.
#[derive(Clone, Debug, PartialEq, Eq)]
pub struct UpdatePenaltyFee {
    /// Who asks.
    pub admin: Pubkey,
    pub protocol_settings: ProtocolSettings,
}

impl InitializeProtocol {
    /// The treasuries a new protocol has: one for the native asset and one
    /// for each of the three tokens, all empty.
    pub open spec fn first_treasuries(&self) -> Seq<TreasuryAccount> {
        seq![
            TreasuryAccount {
                token_mint: None,
                treasury: self.treasury_sol,
                total_collected: 0,
                is_native_sol: true,
            },
            TreasuryAccount {
                token_mint: Some(self.mint_usdc),
                treasury: self.treasury_usdc,
                total_collected: 0,
                is_native_sol: false,
            },
            TreasuryAccount {
                token_mint: Some(self.mint_usdt),
                treasury: self.treasury_usdt,
                total_collected: 0,
                is_native_sol: false,
            },
            TreasuryAccount {
                token_mint: Some(self.mint_jitosol),
                treasury: self.treasury_jitosol,
                total_collected: 0,
                is_native_sol: false,
            },
        ]
    }
}

/// Sets the protocol up.
///
/// With a fee of at most ten percent the settings are filled: the requester
/// administers the protocol, the rates and the price of a pool are as given,
/// nothing has been collected, and there is one empty treasury for the native
/// asset and one for each of the three tokens, in that order. With a higher
/// fee the request is refused and nothing changes.
pub fn initialize_protocol(
    ctx: &mut InitializeProtocol,
    protocol_fee_bps: u16,
    create_pool_fee: u64,
    penalty_bps: u16,
) -> (res: Result<(), HuiFiError>)
    ensures
        protocol_fee_bps > MAX_PROTOCOL_FEE_BPS ==> res == Err::<(), HuiFiError>(
            HuiFiError::InvalidPoolConfig,
        ) && *final(ctx) == *old(ctx),
        protocol_fee_bps <= MAX_PROTOCOL_FEE_BPS ==> {
            &&& res is Ok
            &&& final(ctx).protocol_settings@ == (ProtocolSettingsView {
                authority: old(ctx).admin,
                treasury_accounts: old(ctx).first_treasuries(),
                penalty_bps,
                fee_bps: protocol_fee_bps,
                create_pool_fee,
                total_fees_collected: 0,
                yield_generated: 0,
                reserve_buffer: 0,
            })
            &&& final(ctx).admin == old(ctx).admin
            &&& final(ctx).treasury_sol == old(ctx).treasury_sol
            &&& final(ctx).treasury_usdc == old(ctx).treasury_usdc
            &&& final(ctx).treasury_usdt == old(ctx).treasury_usdt
            &&& final(ctx).treasury_jitosol == old(ctx).treasury_jitosol
            &&& final(ctx).mint_usdc == old(ctx).mint_usdc
            &&& final(ctx).mint_usdt == old(ctx).mint_usdt
            &&& final(ctx).mint_jitosol == old(ctx).mint_jitosol
        },
{
    if protocol_fee_bps > MAX_PROTOCOL_FEE_BPS {
        return Err(HuiFiError::InvalidPoolConfig);
    }
    let mut treasury_accounts: Vec<TreasuryAccount> = Vec::new();
    treasury_accounts.push(
        TreasuryAccount {
            token_mint: None,
            treasury: ctx.treasury_sol,
            total_collected: 0,
            is_native_sol: true,
        },
    );
    treasury_accounts.push(
        TreasuryAccount {
            token_mint: Some(ctx.mint_usdc),
            treasury: ctx.treasury_usdc,
            total_collected: 0,
            is_native_sol: false,
        },
    );
    treasury_accounts.push(
        TreasuryAccount {
            token_mint: Some(ctx.mint_usdt),
            treasury: ctx.treasury_usdt,
            total_collected: 0,
            is_native_sol: false,
        },
    );
    treasury_accounts.push(
        TreasuryAccount {
            token_mint: Some(ctx.mint_jitosol),
            treasury: ctx.treasury_jitosol,
            total_collected: 0,
            is_native_sol: false,
        },
    );
    assert(treasury_accounts@ =~= old(ctx).first_treasuries());
    ctx.protocol_settings = ProtocolSettings {
        authority: ctx.admin,
        treasury_accounts,
        penalty_bps,
        fee_bps: protocol_fee_bps,
        create_pool_fee,
        total_fees_collected: 0,
        yield_generated: 0,
        reserve_buffer: 0,
    };
    Ok(())
}

impl UpdateTreasuryAccount {
    /// Why the treasury is not registered, if it is not: the first of the
    /// conditions below that fails.
    pub open spec fn rejection(&self) -> Option<HuiFiError> {
        let settings = self.protocol_settings@;
        if settings.authority != self.admin {
            Some(HuiFiError::Unauthorized)
        } else if settings.collects(self.new_mint) {
            Some(HuiFiError::TreasuryAccountAlreadyExists)
        } else if self.new_treasury_account.mint != self.new_mint {
            Some(HuiFiError::InvalidTreasuryAccount)
        } else if self.new_treasury_account.program != self.token_program {
            Some(HuiFiError::InvalidTreasuryAccount)
        } else {
            None
        }
    }
}

/// Whether some treasury in `settings` already collects the token `mint`.
fn collects_token(settings: &ProtocolSettings, mint: &Pubkey) -> (found: bool)
    ensures
        found == settings@.collects(*mint),
{
    let mut i: usize = 0;
    while i < settings.treasury_accounts.len()
        invariant
            i <= settings.treasury_accounts.len(),
            forall|j: int|
                0 <= j < i ==> (#[trigger] settings.treasury_accounts@[j]).token_mint != Some(
                    *mint,
                ),
        decreases settings.treasury_accounts.len() - i,
    {
        let collected = match settings.treasury_accounts[i].token_mint {
            Some(token) => token == *mint,
            None => false,
        };
        if collected {
            return true;
        }
        i += 1;
    }
    false
}

/// Registers a treasury for one more token.
///
/// The treasury is registered when the requester administers the protocol,
/// no treasury collects the token yet, and the holding area holds that token
/// and is kept by the token program. It is then added, empty, after the
/// treasuries already there. A refused request changes nothing.
pub fn update_treasury_account(ctx: &mut UpdateTreasuryAccount) -> (res: Result<(), HuiFiError>)
    ensures
        old(ctx).rejection() matches Some(e) ==> res == Err::<(), HuiFiError>(e) && *final(ctx)
            == *old(ctx),
        old(ctx).rejection() is None ==> {
            &&& res is Ok
            &&& final(ctx).protocol_settings@ == (ProtocolSettingsView {
                treasury_accounts: old(ctx).protocol_settings@.treasury_accounts.push(
                    TreasuryAccount {
                        token_mint: Some(old(ctx).new_mint),
                        treasury: old(ctx).new_treasury_account.key,
                        total_collected: 0,
                        is_native_sol: false,
                    },
                ),
                ..old(ctx).protocol_settings@
            })
            &&& final(ctx).admin == old(ctx).admin
            &&& final(ctx).new_treasury_account == old(ctx).new_treasury_account
            &&& final(ctx).new_mint == old(ctx).new_mint
            &&& final(ctx).token_program == old(ctx).token_program
        },
{
    if ctx.protocol_settings.authority != ctx.admin {
        return Err(HuiFiError::Unauthorized);
    }
    if collects_token(&ctx.protocol_settings, &ctx.new_mint) {
        return Err(HuiFiError::TreasuryAccountAlreadyExists);
    }
    if ctx.new_treasury_account.mint != ctx.new_mint {
        return Err(HuiFiError::InvalidTreasuryAccount);
    }
    if ctx.new_treasury_account.program != ctx.token_program {
        return Err(HuiFiError::InvalidTreasuryAccount);
    }
    ctx.protocol_settings.treasury_accounts.push(
        TreasuryAccount {
            token_mint: Some(ctx.new_mint),
            treasury: ctx.new_treasury_account.key,
            total_collected: 0,
            is_native_sol: false,
        },
    );
    Ok(())
}

/// Why a change of a rate to `rate` by `admin` is refused, if it is.
pub open spec fn rate_rejection(settings: ProtocolSettingsView, admin: Pubkey, rate: u16) -> Option<
    HuiFiError,
> {
    if settings.authority != admin {
        Some(HuiFiError::Unauthorized)
    } else if rate > MAX_PROTOCOL_FEE_BPS {
        Some(HuiFiError::InvalidPoolConfig)
    } else {
        None
    }
}

/// Changes the protocol fee, provided the requester administers the
/// protocol and the new fee is at most ten percent. A refused request
/// changes nothing.
pub fn update_protocol_fee(ctx: &mut UpdateProtocolFee, new_fee_bps: u16) -> (res: Result<
    (),
    HuiFiError,
>)
    ensures
        rate_rejection(old(ctx).protocol_settings@, old(ctx).admin, new_fee_bps) matches Some(e)
            ==> res == Err::<(), HuiFiError>(e) && *final(ctx) == *old(ctx),
        rate_rejection(old(ctx).protocol_settings@, old(ctx).admin, new_fee_bps) is None ==> {
            &&& res is Ok
            &&& final(ctx).protocol_settings@ == (ProtocolSettingsView {
                fee_bps: new_fee_bps,
                ..old(ctx).protocol_settings@
            })
            &&& final(ctx).admin == old(ctx).admin
        },
{
    if ctx.protocol_settings.authority != ctx.admin {
        return Err(HuiFiError::Unauthorized);
    }
    if new_fee_bps > MAX_PROTOCOL_FEE_BPS {
        return Err(HuiFiError::InvalidPoolConfig);
    }
    ctx.protocol_settings.fee_bps = new_fee_bps;
    Ok(())
}

/// Changes what creating a pool costs, provided the requester administers
/// the protocol. A refused request changes nothing.
pub fn update_create_pool_fee(ctx: &mut UpdateCreatePoolFee, new_fee_lamports: u64) -> (res:
    Result<(), HuiFiError>)
    ensures
        old(ctx).protocol_settings.authority != old(ctx).admin ==> res == Err::<(), HuiFiError>(
            HuiFiError::Unauthorized,
        ) && *final(ctx) == *old(ctx),
        old(ctx).protocol_settings.authority == old(ctx).admin ==> {
            &&& res is Ok
            &&& final(ctx).protocol_settings@ == (ProtocolSettingsView {
                create_pool_fee: new_fee_lamports,
                ..old(ctx).protocol_settings@
            })
            &&& final(ctx).admin == old(ctx).admin
        },
{
    if ctx.protocol_settings.authority != ctx.admin {
        return Err(HuiFiError::Unauthorized);
    }
    ctx.protocol_settings.create_pool_fee = new_fee_lamports;
    Ok(())
}

/// Changes the penalty rate, provided the requester administers the
/// protocol and the new rate is at most ten percent. A refused request
/// changes nothing.
pub fn update_penalty_fee(ctx: &mut UpdatePenaltyFee, new_penalty_bps: u16) -> (res: Result<
    (),
    HuiFiError,
>)
    ensures
        rate_rejection(old(ctx).protocol_settings@, old(ctx).admin, new_penalty_bps) matches Some(
            e,
        ) ==> res == Err::<(), HuiFiError>(e) && *final(ctx) == *old(ctx),
        rate_rejection(old(ctx).protocol_settings@, old(ctx).admin, new_penalty_bps) is None ==> {
            &&& res is Ok
            &&& final(ctx).protocol_settings@ == (ProtocolSettingsView {
                penalty_bps: new_penalty_bps,
                ..old(ctx).protocol_settings@
            })
            &&& final(ctx).admin == old(ctx).admin
        },
{
    if ctx.protocol_settings.authority != ctx.admin {
        return Err(HuiFiError::Unauthorized);
    }
    if new_penalty_bps > MAX_PROTOCOL_FEE_BPS {
        return Err(HuiFiError::InvalidPoolConfig);
    }
    ctx.protocol_settings.penalty_bps = new_penalty_bps;
    Ok(())
}

} // verus!
