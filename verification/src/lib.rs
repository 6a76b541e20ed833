//! A fixed-price, two-way exchange between lamports and one token, bounded by
//! a supply cap.
//!
//! The market is a single ledger record ([`MarketState`]) that counts what was
//! bought and sold, a token vault controlled by a program-derived authority,
//! and two operations, [`buy_usdc`] and [`sell_usdc`], each of which either
//! takes effect as a whole or leaves every balance, every counter and the
//! audit log as they were.

pub mod account;
pub mod authority;
pub mod error;
pub mod event;
pub mod exchange;
pub mod laws;
pub mod pricing;
pub mod pubkey;
pub mod state;

pub use account::{transfer_lamports, transfer_tokens, MarketAccount, Signer, TokenAccount};
pub use authority::{find_vault_authority, vault_authority, vault_signer_seeds, VAULT_SEED};
pub use error::{ExchangeError, HostError, UsdcBuySellError};
pub use event::{AuditLog, BuyEvent, MarketEvent, SellEvent};
pub use exchange::{
    buy_usdc, buy_usdc_with_signer, initialize, initialize_with_authority, sell_usdc, BuyUsdc,
    Initialize, SellUsdc,
};
pub use pricing::{required_lamports, LAMPORTS_PER_USDC_UNIT};
pub use pubkey::{id, Pubkey, ID};
pub use state::MarketState;
