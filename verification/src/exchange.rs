use vstd::prelude::*;

use crate::account::{
    lamports_transferred, tokens_transferred, transfer_lamports, transfer_tokens, MarketAccount,
    Signer, TokenAccount,
};
use crate::authority::{
    derived_vault_authority, find_vault_authority, found_vault_authority, vault_authority,
};
use crate::error::{ExchangeError, HostError, UsdcBuySellError};
use crate::event::{AuditLog, BuyEvent, MarketEvent, SellEvent};
use crate::pricing::{price, required_lamports};
use crate::pubkey::Pubkey;
use crate::state::MarketState;

verus! {

/// The accounts of `initialize`.
#[derive(Clone, Copy, Debug, PartialEq, Eq)]
pub struct Initialize {
    /// The token that the market will trade.
    pub usdc_mint: Pubkey,
    /// The place of the ledger record: `None` as long as the market does not
    /// exist.
    pub market_state: Option<MarketAccount>,
    /// The token account of the vault: `None` where it has yet to be opened.
    pub vault_token: Option<TokenAccount>,
}

impl Initialize {
    /// What `initialize` makes of the accounts, given what the search for the
    /// vault authority found.
    ///
    /// The market must not exist yet and the search must have found an
    /// authority. A vault token account that is there already must be owned by
    /// that authority; where there is none, an empty one is opened for it. The
    /// new record holds the token, the bump that was found, the cap, and two
    /// counters at zero; the new ledger account holds no lamports.
    pub open spec fn outcome(self, max_supply: u64, found: Option<(Pubkey, u8)>) -> Result<
        Initialize,
        ExchangeError,
    > {
        if self.market_state is Some {
            Err(ExchangeError::Host(HostError::AccountAlreadyInUse))
        } else {
            match found {
                None => Err(ExchangeError::Host(HostError::InvalidSeeds)),
                Some((authority, bump)) => {
                    if self.vault_token matches Some(vault) && vault.owner != authority {
                        Err(ExchangeError::Host(HostError::IllegalOwner))
                    } else {
                        Ok(
                            Initialize {
                                usdc_mint: self.usdc_mint,
                                market_state: Some(
                                    MarketAccount {
                                        lamports: 0,
                                        data: MarketState::created(
                                            self.usdc_mint,
                                            bump,
                                            max_supply,
                                        ),
                                    },
                                ),
                                vault_token: Some(
                                    match self.vault_token {
                                        Some(vault) => vault,
                                        None => TokenAccount { owner: authority, amount: 0 },
                                    },
                                ),
                            },
                        )
                    }
                },
            }
        }
    }
}

/// Creates the market with the vault authority that was found for its token:
/// `initialize` after the search. On failure nothing changes.
pub fn initialize_with_authority(
    ctx: &mut Initialize,
    max_supply: u64,
    found: Option<(Pubkey, u8)>,
) -> (res: Result<(), ExchangeError>)
    ensures
        match old(ctx).outcome(max_supply, found) {
            Ok(next) => res is Ok && *final(ctx) == next,
            Err(e) => res == Err::<(), ExchangeError>(e) && *final(ctx) == *old(ctx),
        },
{
    if ctx.market_state.is_some() {
        return Err(ExchangeError::Host(HostError::AccountAlreadyInUse));
    }
    let (authority, bump) = match found {
        Some(pair) => pair,
        None => {
            return Err(ExchangeError::Host(HostError::InvalidSeeds));
        },
    };
    let vault_token = match ctx.vault_token {
        Some(vault) => {
            if vault.owner != authority {
                return Err(ExchangeError::Host(HostError::IllegalOwner));
            }
            vault
        },
        None => TokenAccount { owner: authority, amount: 0 },
    };
    ctx.market_state = Some(
        MarketAccount {
            lamports: 0,
            data: MarketState {
                usdc_mint: ctx.usdc_mint,
                vault_authority_bump: bump,
                total_bought: 0,
                total_sold: 0,
                max_supply,
            },
        },
    );
    ctx.vault_token = Some(vault_token);
    Ok(())
}

/// Creates the market for the token of `ctx` with the cap `max_supply`.
///
/// It searches the vault authority of the token and stores the bump that was
/// found, so that every later buy can derive the authority again. The market
/// must not exist yet: a second call on the same accounts fails with
/// `AccountAlreadyInUse`. On failure nothing changes.
pub fn initialize(ctx: &mut Initialize, max_supply: u64) -> (res: Result<(), ExchangeError>)
    ensures
        match old(ctx).outcome(max_supply, found_vault_authority(old(ctx).usdc_mint)) {
            Ok(next) => res is Ok && *final(ctx) == next,
            Err(e) => res == Err::<(), ExchangeError>(e) && *final(ctx) == *old(ctx),
        },
        old(ctx).market_state is Some ==> res == Err::<(), ExchangeError>(
            ExchangeError::Host(HostError::AccountAlreadyInUse),
        ),
        res is Ok ==> {
            &&& final(ctx).market_state matches Some(market)
            &&& final(ctx).vault_token matches Some(vault)
            &&& market.data.usdc_mint == old(ctx).usdc_mint
            &&& market.data.max_supply == max_supply
            &&& market.data.total_bought == 0
            &&& market.data.total_sold == 0
            &&& market.data.wf()
            &&& derived_vault_authority(market.data.usdc_mint, market.data.vault_authority_bump)
                == Some(vault.owner)
        },
{
    let found = find_vault_authority(&ctx.usdc_mint);
    initialize_with_authority(ctx, max_supply, found)
}

/// The accounts of `buy_usdc`.
#[derive(Clone, Copy, Debug, PartialEq, Eq)]
pub struct BuyUsdc {
    /// The party that pays lamports and receives tokens.
    pub buyer: Signer,
    /// The token account of the vault, controlled by the vault authority.
    pub vault_token: TokenAccount,
    /// The token account that receives what is bought.
    pub buyer_token: TokenAccount,
    /// The ledger account.
    pub market_state: MarketAccount,
}

impl BuyUsdc {
    /// Why the exchange refuses to sell `amount` base units, if it does. The
    /// conditions are tested in this order, and the first that fails decides.
    pub open spec fn rejection(self, amount: u64) -> Option<UsdcBuySellError> {
        let market = self.market_state.data;
        if amount == 0 {
            Some(UsdcBuySellError::InvalidAmount)
        } else if market.total_bought + amount > u64::MAX {
            Some(UsdcBuySellError::MathOverflow)
        } else if market.total_bought + amount > market.max_supply {
            Some(UsdcBuySellError::CapExceeded)
        } else if self.vault_token.amount < amount {
            Some(UsdcBuySellError::InsufficientUsdcInVault)
        } else if price(amount) > u64::MAX {
            Some(UsdcBuySellError::MathOverflow)
        } else if self.buyer_token.owner != self.buyer.key {
            Some(UsdcBuySellError::InvalidBuyerTokenAccount)
        } else {
            None
        }
    }

    /// The accounts after a buy of `amount` that the exchange accepts: the
    /// price goes from the buyer to the ledger account, then the tokens go
    /// from the vault to the buyer in the name of `signer`, and the counter of
    /// what was bought grows by `amount`. An error where the host refuses one
    /// of the two transfers.
    pub open spec fn settled(self, amount: u64, signer: Option<Pubkey>) -> Result<
        BuyUsdc,
        HostError,
    > {
        match lamports_transferred(
            self.buyer.lamports,
            self.market_state.lamports,
            price(amount) as u64,
        ) {
            Err(e) => Err(e),
            Ok((buyer_lamports, market_lamports)) => match tokens_transferred(
                self.vault_token,
                self.buyer_token,
                signer,
                amount,
            ) {
                Err(e) => Err(e),
                Ok((vault_token, buyer_token)) => Ok(
                    BuyUsdc {
                        buyer: Signer { lamports: buyer_lamports, ..self.buyer },
                        vault_token,
                        buyer_token,
                        market_state: MarketAccount {
                            lamports: market_lamports,
                            data: self.market_state.data.after_buy(amount),
                        },
                    },
                ),
            },
        }
    }

    /// The notification of a buy of `amount`.
    pub open spec fn event(self, amount: u64) -> BuyEvent {
        BuyEvent { buyer: self.buyer.key, amount, lamports_spent: price(amount) as u64 }
    }

    /// What a buy of `amount` comes to: the accounts afterwards and the
    /// notification, or the error with which the whole operation is undone.
    pub open spec fn outcome(self, amount: u64, signer: Option<Pubkey>) -> Result<
        (BuyUsdc, BuyEvent),
        ExchangeError,
    > {
        match self.rejection(amount) {
            Some(e) => Err(ExchangeError::Program(e)),
            None => match self.settled(amount, signer) {
                Err(e) => Err(ExchangeError::Host(e)),
                Ok(next) => Ok((next, self.event(amount))),
            },
        }
    }
}

/// Tests what the exchange asks of a buy, and returns its price in lamports.
fn check_buy(ctx: &BuyUsdc, amount: u64) -> (res: Result<u64, UsdcBuySellError>)
    ensures
        match ctx.rejection(amount) {
            Some(e) => res == Err::<u64, UsdcBuySellError>(e),
            None => res == Ok::<u64, UsdcBuySellError>(price(amount) as u64) && price(amount)
                <= u64::MAX,
        },
{
    if amount == 0 {
        return Err(UsdcBuySellError::InvalidAmount);
    }
    match ctx.market_state.data.total_bought.checked_add(amount) {
        None => {
            return Err(UsdcBuySellError::MathOverflow);
        },
        Some(total) => {
            if total > ctx.market_state.data.max_supply {
                return Err(UsdcBuySellError::CapExceeded);
            }
        },
    }
    if ctx.vault_token.amount < amount {
        return Err(UsdcBuySellError::InsufficientUsdcInVault);
    }
    let lamports = match required_lamports(amount) {
        Ok(lamports) => lamports,
        Err(e) => {
            return Err(e);
        },
    };
    if ctx.buyer_token.owner != ctx.buyer.key {
        return Err(UsdcBuySellError::InvalidBuyerTokenAccount);
    }
    Ok(lamports)
}

/// Buys `amount` base units of the token with `signer` as the identity that
/// the stored bump derives: `buy_usdc` after the derivation.
///
/// Either the whole operation takes effect and its notification is added to
/// `log`, or the accounts and the log stay as they were.
pub fn buy_usdc_with_signer(
    ctx: &mut BuyUsdc,
    amount: u64,
    signer: Option<Pubkey>,
    log: &mut AuditLog,
) -> (res: Result<(), ExchangeError>)
    ensures
        match old(ctx).outcome(amount, signer) {
            Ok((next, event)) => {
                &&& res is Ok
                &&& *final(ctx) == next
                &&& final(log)@ == old(log)@.push(MarketEvent::Buy(event))
            },
            Err(e) => {
                &&& res == Err::<(), ExchangeError>(e)
                &&& *final(ctx) == *old(ctx)
                &&& final(log)@ == old(log)@
            },
        },
        // An amount of zero is refused, and nothing happens.
        amount == 0 ==> res == Err::<(), ExchangeError>(
            ExchangeError::Program(UsdcBuySellError::InvalidAmount),
        ),
        // The ledger record changes as one operation may change it, and the
        // counters stay within the cap.
        old(ctx).market_state.data.steps_to(final(ctx).market_state.data),
        old(ctx).market_state.data.wf() ==> final(ctx).market_state.data.wf(),
        // A buy that takes effect moves exactly `amount` base units and
        // exactly ten lamports for each.
        res is Ok ==> {
            &&& final(ctx).vault_token.amount == old(ctx).vault_token.amount - amount
            &&& final(ctx).buyer_token.amount == old(ctx).buyer_token.amount + amount
            &&& final(ctx).buyer.lamports == old(ctx).buyer.lamports - 10 * amount
            &&& final(ctx).market_state.lamports == old(ctx).market_state.lamports + 10 * amount
        },
{
    let lamports = match check_buy(ctx, amount) {
        Ok(lamports) => lamports,
        Err(e) => {
            return Err(ExchangeError::Program(e));
        },
    };
    let (buyer_lamports, market_lamports) = match transfer_lamports(
        ctx.buyer.lamports,
        ctx.market_state.lamports,
        lamports,
    ) {
        Ok(balances) => balances,
        Err(e) => {
            return Err(ExchangeError::Host(e));
        },
    };
    let (vault_token, buyer_token) = match transfer_tokens(
        ctx.vault_token,
        ctx.buyer_token,
        signer,
        amount,
    ) {
        Ok(accounts) => accounts,
        Err(e) => {
            return Err(ExchangeError::Host(e));
        },
    };
    ctx.buyer.lamports = buyer_lamports;
    ctx.market_state.lamports = market_lamports;
    ctx.vault_token = vault_token;
    ctx.buyer_token = buyer_token;
    ctx.market_state.data.total_bought = ctx.market_state.data.total_bought + amount;
    log.record(
        MarketEvent::Buy(BuyEvent { buyer: ctx.buyer.key, amount, lamports_spent: lamports }),
    );
    Ok(())
}

/// Buys `amount` base units of the token for ten lamports each.
///
/// The exchange refuses, in this order: an amount of zero (`InvalidAmount`); a
/// total bought that would not fit in 64 bits (`MathOverflow`) or would pass
/// the cap (`CapExceeded`); a vault that holds less than `amount`
/// (`InsufficientUsdcInVault`); a price that does not fit in 64 bits
/// (`MathOverflow`); a receiving token account that the buyer does not own
/// (`InvalidBuyerTokenAccount`). Then the price moves from the buyer to the
/// ledger account, and the tokens move from the vault to the buyer in the name
/// of the vault authority, which is derived again from the token and the bump
/// in the ledger record. The counter of what was bought grows by `amount`, and
/// the notification is added to `log`.
///
/// Whatever fails, the accounts and the log stay as they were.
pub fn buy_usdc(ctx: &mut BuyUsdc, amount: u64, log: &mut AuditLog) -> (res: Result<
    (),
    ExchangeError,
>)
    ensures
        match old(ctx).outcome(
            amount,
            derived_vault_authority(
                old(ctx).market_state.data.usdc_mint,
                old(ctx).market_state.data.vault_authority_bump,
            ),
        ) {
            Ok((next, event)) => {
                &&& res is Ok
                &&& *final(ctx) == next
                &&& final(log)@ == old(log)@.push(MarketEvent::Buy(event))
            },
            Err(e) => {
                &&& res == Err::<(), ExchangeError>(e)
                &&& *final(ctx) == *old(ctx)
                &&& final(log)@ == old(log)@
            },
        },
        // A refusal by the exchange does not depend on the derivation.
        old(ctx).rejection(amount) matches Some(e) ==> res == Err::<(), ExchangeError>(
            ExchangeError::Program(e),
        ),
        // An amount of zero is refused, and nothing happens.
        amount == 0 ==> {
            &&& res == Err::<(), ExchangeError>(
                ExchangeError::Program(UsdcBuySellError::InvalidAmount),
            )
            &&& *final(ctx) == *old(ctx)
            &&& final(log)@ == old(log)@
        },
        // The ledger record changes as one operation may change it, and the
        // counters stay within the cap.
        old(ctx).market_state.data.steps_to(final(ctx).market_state.data),
        old(ctx).market_state.data.wf() ==> final(ctx).market_state.data.wf(),
        // A buy that takes effect moves exactly `amount` base units and
        // exactly ten lamports for each.
        res is Ok ==> {
            &&& final(ctx).vault_token.amount == old(ctx).vault_token.amount - amount
            &&& final(ctx).buyer_token.amount == old(ctx).buyer_token.amount + amount
            &&& final(ctx).buyer.lamports == old(ctx).buyer.lamports - 10 * amount
            &&& final(ctx).market_state.lamports == old(ctx).market_state.lamports + 10 * amount
            &&& final(ctx).market_state.data.total_bought == old(ctx).market_state.data.total_bought
                + amount
            &&& final(ctx).market_state.data.total_sold == old(ctx).market_state.data.total_sold
        },
        // A price that does not fit in 64 bits is refused before any transfer,
        // where nothing that is tested earlier fails.
        amount > u64::MAX / 10 && old(ctx).market_state.data.total_bought + amount <= old(
            ctx,
        ).market_state.data.max_supply && old(ctx).vault_token.amount >= amount ==> {
            &&& res == Err::<(), ExchangeError>(
                ExchangeError::Program(UsdcBuySellError::MathOverflow),
            )
            &&& *final(ctx) == *old(ctx)
        },
{
    let signer = vault_authority(
        &ctx.market_state.data.usdc_mint,
        ctx.market_state.data.vault_authority_bump,
    );
    buy_usdc_with_signer(ctx, amount, signer, log)
}

/// The accounts of `sell_usdc`.
#[derive(Clone, Copy, Debug, PartialEq, Eq)]
pub struct SellUsdc {
    /// The party that gives tokens back and receives lamports.
    pub seller: Signer,
    /// The token account of the vault.
    pub vault_token: TokenAccount,
    /// The token account that the tokens are taken from.
    pub seller_token: TokenAccount,
    /// The ledger account, which pays the lamports out.
    pub market_state: MarketAccount,
}

impl SellUsdc {
    /// Why the exchange refuses a sell of `amount` before anything moves, if
    /// it does. The conditions are tested in this order.
    pub open spec fn rejection(self, amount: u64) -> Option<UsdcBuySellError> {
        if amount == 0 {
            Some(UsdcBuySellError::InvalidAmount)
        } else if price(amount) > u64::MAX {
            Some(UsdcBuySellError::MathOverflow)
        } else if self.market_state.lamports < price(amount) {
            Some(UsdcBuySellError::InsufficientSolInVault)
        } else {
            None
        }
    }

    /// The accounts after the two transfers of a sell: the tokens go from the
    /// seller to the vault in the seller's own name, then the price goes from
    /// the ledger account to the seller. The ledger record is as before. An
    /// error where the host refuses one of the two.
    pub open spec fn transferred(self, amount: u64) -> Result<SellUsdc, HostError> {
        match tokens_transferred(
            self.seller_token,
            self.vault_token,
            Some(self.seller.key),
            amount,
        ) {
            Err(e) => Err(e),
            Ok((seller_token, vault_token)) => match lamports_transferred(
                self.market_state.lamports,
                self.seller.lamports,
                price(amount) as u64,
            ) {
                Err(e) => Err(e),
                Ok((market_lamports, seller_lamports)) => Ok(
                    SellUsdc {
                        seller: Signer { lamports: seller_lamports, ..self.seller },
                        vault_token,
                        seller_token,
                        market_state: MarketAccount { lamports: market_lamports, ..self.market_state },
                    },
                ),
            },
        }
    }

    /// Why the exchange refuses a sell of `amount` after the transfers, if it
    /// does: the cap on what was sold is tested last.
    pub open spec fn cap_rejection(self, amount: u64) -> Option<UsdcBuySellError> {
        let market = self.market_state.data;
        if market.total_sold + amount > u64::MAX {
            Some(UsdcBuySellError::MathOverflow)
        } else if market.total_sold + amount > market.max_supply {
            Some(UsdcBuySellError::CapExceeded)
        } else {
            None
        }
    }

    /// The notification of a sell of `amount`.
    pub open spec fn event(self, amount: u64) -> SellEvent {
        SellEvent { seller: self.seller.key, amount, lamports_received: price(amount) as u64 }
    }

    /// What a sell of `amount` comes to: the accounts afterwards and the
    /// notification, or the error with which the whole operation is undone.
    pub open spec fn outcome(self, amount: u64) -> Result<(SellUsdc, SellEvent), ExchangeError> {
        match self.rejection(amount) {
            Some(e) => Err(ExchangeError::Program(e)),
            None => match self.transferred(amount) {
                Err(e) => Err(ExchangeError::Host(e)),
                Ok(moved) => match self.cap_rejection(amount) {
                    Some(e) => Err(ExchangeError::Program(e)),
                    None => Ok(
                        (
                            SellUsdc {
                                market_state: MarketAccount {
                                    data: self.market_state.data.after_sell(amount),
                                    ..moved.market_state
                                },
                                ..moved
                            },
                            self.event(amount),
                        ),
                    ),
                },
            },
        }
    }
}

/// Sells `amount` base units of the token back for ten lamports each.
///
/// The exchange refuses, in this order: an amount of zero (`InvalidAmount`); a
/// price that does not fit in 64 bits (`MathOverflow`); a ledger account that
/// holds less than the price (`InsufficientSolInVault`). Then the tokens move
/// from the seller to the vault in the seller's own name, and the price moves
/// from the ledger account to the seller. Only then the cap is tested: a total
/// sold that would not fit in 64 bits (`MathOverflow`) or would pass the cap
/// (`CapExceeded`) undoes the two transfers. Otherwise the counter of what was
/// sold grows by `amount`, and the notification is added to `log`.
///
/// Whatever fails, the accounts and the log stay as they were.
pub fn sell_usdc(ctx: &mut SellUsdc, amount: u64, log: &mut AuditLog) -> (res: Result<
    (),
    ExchangeError,
>)
    ensures
        match old(ctx).outcome(amount) {
            Ok((next, event)) => {
                &&& res is Ok
                &&& *final(ctx) == next
                &&& final(log)@ == old(log)@.push(MarketEvent::Sell(event))
            },
            Err(e) => {
                &&& res == Err::<(), ExchangeError>(e)
                &&& *final(ctx) == *old(ctx)
                &&& final(log)@ == old(log)@
            },
        },
        // An amount of zero is refused, and nothing happens.
        amount == 0 ==> {
            &&& res == Err::<(), ExchangeError>(
                ExchangeError::Program(UsdcBuySellError::InvalidAmount),
            )
            &&& *final(ctx) == *old(ctx)
            &&& final(log)@ == old(log)@
        },
        // A price that does not fit in 64 bits is refused before any transfer.
        amount > u64::MAX / 10 ==> res == Err::<(), ExchangeError>(
            ExchangeError::Program(UsdcBuySellError::MathOverflow),
        ),
        // A ledger account that cannot pay the price refuses, and no token
        // moves.
        0 < amount <= u64::MAX / 10 && old(ctx).market_state.lamports < 10 * amount ==> {
            &&& res == Err::<(), ExchangeError>(
                ExchangeError::Program(UsdcBuySellError::InsufficientSolInVault),
            )
            &&& *final(ctx) == *old(ctx)
        },
        // The ledger record changes as one operation may change it, and the
        // counters stay within the cap.
        old(ctx).market_state.data.steps_to(final(ctx).market_state.data),
        old(ctx).market_state.data.wf() ==> final(ctx).market_state.data.wf(),
        // A sell that takes effect moves exactly `amount` base units and
        // exactly ten lamports for each.
        res is Ok ==> {
            &&& final(ctx).seller_token.amount == old(ctx).seller_token.amount - amount
            &&& final(ctx).vault_token.amount == old(ctx).vault_token.amount + amount
            &&& final(ctx).seller.lamports == old(ctx).seller.lamports + 10 * amount
            &&& final(ctx).market_state.lamports == old(ctx).market_state.lamports - 10 * amount
            &&& final(ctx).market_state.data.total_sold == old(ctx).market_state.data.total_sold
                + amount
            &&& final(ctx).market_state.data.total_bought
                == old(ctx).market_state.data.total_bought
        },
{
    if amount == 0 {
        return Err(ExchangeError::Program(UsdcBuySellError::InvalidAmount));
    }
    let lamports = match required_lamports(amount) {
        Ok(lamports) => lamports,
        Err(e) => {
            return Err(ExchangeError::Program(e));
        },
    };
    if ctx.market_state.lamports < lamports {
        return Err(ExchangeError::Program(UsdcBuySellError::InsufficientSolInVault));
    }
    let (seller_token, vault_token) = match transfer_tokens(
        ctx.seller_token,
        ctx.vault_token,
        Some(ctx.seller.key),
        amount,
    ) {
        Ok(accounts) => accounts,
        Err(e) => {
            return Err(ExchangeError::Host(e));
        },
    };
    let (market_lamports, seller_lamports) = match transfer_lamports(
        ctx.market_state.lamports,
        ctx.seller.lamports,
        lamports,
    ) {
        Ok(balances) => balances,
        Err(e) => {
            return Err(ExchangeError::Host(e));
        },
    };
    let total_sold = match ctx.market_state.data.total_sold.checked_add(amount) {
        Some(total) => total,
        None => {
            return Err(ExchangeError::Program(UsdcBuySellError::MathOverflow));
        },
    };
    if total_sold > ctx.market_state.data.max_supply {
        return Err(ExchangeError::Program(UsdcBuySellError::CapExceeded));
    }
    ctx.seller_token = seller_token;
    ctx.vault_token = vault_token;
    ctx.market_state.lamports = market_lamports;
    ctx.seller.lamports = seller_lamports;
    ctx.market_state.data.total_sold = total_sold;
    log.record(
        MarketEvent::Sell(
            SellEvent { seller: ctx.seller.key, amount, lamports_received: lamports },
        ),
    );
    Ok(())
}

} // verus!
