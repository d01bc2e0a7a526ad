//! Settings that hold for every pool: who administers the protocol, what it
//! charges, and where its fees go.

use vstd::prelude::*;
use crate::state::pubkey::Pubkey;

verus! {

/// Where the fees in one asset are collected.
#[derive(Clone, Copy, Debug, PartialEq, Eq)]
pub struct TreasuryAccount {
    /// The token collected here; `None` for the native asset.
    pub token_mint: Option<Pubkey>,
    /// The holding area.
    pub treasury: Pubkey,
    pub total_collected: u64,
    pub is_native_sol: bool,
}

/// The protocol's settings.
#[derive(Clone, Debug, PartialEq, Eq)]
pub struct ProtocolSettings {
    /// Who may change the settings.
    pub authority: Pubkey,
    /// One treasury per asset.
    pub treasury_accounts: Vec<TreasuryAccount>,
    /// Penalty on a defaulted payout, in basis points.
    pub penalty_bps: u16,
    /// Protocol fee, in basis points.
    pub fee_bps: u16,
    /// What creating a pool costs.
    pub create_pool_fee: u64,
    pub total_fees_collected: u64,
    pub yield_generated: u64,
    pub reserve_buffer: u64,
}

/// The protocol's settings as a mathematical value.
pub struct ProtocolSettingsView {
    pub authority: Pubkey,
    pub treasury_accounts: Seq<TreasuryAccount>,
    pub penalty_bps: u16,
    pub fee_bps: u16,
    pub create_pool_fee: u64,
    pub total_fees_collected: u64,
    pub yield_generated: u64,
    pub reserve_buffer: u64,
}

impl View for ProtocolSettings {
    type V = ProtocolSettingsView;

    open spec fn view(&self) -> ProtocolSettingsView {
        ProtocolSettingsView {
            authority: self.authority,
            treasury_accounts: self.treasury_accounts@,
            penalty_bps: self.penalty_bps,
            fee_bps: self.fee_bps,
            create_pool_fee: self.create_pool_fee,
            total_fees_collected: self.total_fees_collected,
            yield_generated: self.yield_generated,
            reserve_buffer: self.reserve_buffer,
        }
    }
}

impl ProtocolSettingsView {
    /// Whether some treasury already collects the token `mint`.
    pub open spec fn collects(self, mint: Pubkey) -> bool {
        exists|i: int|
            0 <= i < self.treasury_accounts.len() && (#[trigger] self.treasury_accounts[i]).token_mint
                == Some(mint)
    }
}

} // verus!
