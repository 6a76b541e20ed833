use vstd::prelude::*;

use crate::pubkey::Pubkey;

verus! {

/// The ledger record of the market: what is traded, under which cap, and how
/// much was bought and sold so far.
#[derive(Clone, Copy, Debug, PartialEq, Eq)]
pub struct MarketState {
    /// The token that the market trades. Never changes.
    pub usdc_mint: Pubkey,
    /// The bump that, with the vault seed and `usdc_mint`, derives the vault
    /// authority. Never changes.
    pub vault_authority_bump: u8,
    /// Base units bought so far. Never decreases.
    pub total_bought: u64,
    /// Base units sold back so far. Never decreases.
    pub total_sold: u64,
    /// The cap on each of the two counters. Never changes.
    pub max_supply: u64,
}

impl MarketState {
    /// The bytes that the record takes when stored: the mint, the bump and the
    /// three 64-bit numbers.
    pub const INIT_SPACE: usize = 32 + 1 + 8 + 8 + 8;

    /// The record of a market that was just created.
    pub open spec fn created(usdc_mint: Pubkey, vault_authority_bump: u8, max_supply: u64)
        -> MarketState {
        MarketState {
            usdc_mint,
            vault_authority_bump,
            total_bought: 0,
            total_sold: 0,
            max_supply,
        }
    }

    /// Neither counter is past the cap.
    pub open spec fn wf(self) -> bool {
        &&& self.total_bought <= self.max_supply
        &&& self.total_sold <= self.max_supply
    }

    /// The record after `amount` more base units were bought.
    pub open spec fn after_buy(self, amount: u64) -> MarketState {
        MarketState { total_bought: (self.total_bought + amount) as u64, ..self }
    }

    /// The record after `amount` more base units were sold back.
    pub open spec fn after_sell(self, amount: u64) -> MarketState {
        MarketState { total_sold: (self.total_sold + amount) as u64, ..self }
    }

    /// What one operation may make of the record: the token, the bump and the
    /// cap stay, and either nothing else changes, or one of the two counters
    /// grows and stays within the cap.
    pub open spec fn steps_to(self, next: MarketState) -> bool {
        &&& next.usdc_mint == self.usdc_mint
        &&& next.vault_authority_bump == self.vault_authority_bump
        &&& next.max_supply == self.max_supply
        &&& {
            ||| next == self
            ||| next.total_sold == self.total_sold && self.total_bought < next.total_bought
                <= self.max_supply
            ||| next.total_bought == self.total_bought && self.total_sold < next.total_sold
                <= self.max_supply
        }
    }
}

} // verus!
