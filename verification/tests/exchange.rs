use usdc_buy_sell::{
    buy_usdc, buy_usdc_with_signer, find_vault_authority, initialize, initialize_with_authority,
    sell_usdc, AuditLog, BuyEvent, BuyUsdc, ExchangeError, HostError, Initialize, MarketAccount,
    MarketEvent, MarketState, Pubkey, SellEvent, SellUsdc, Signer, TokenAccount,
    UsdcBuySellError,
};

fn key(byte: u8) -> Pubkey {
    Pubkey::new_from_array([byte; 32])
}

fn mint() -> Pubkey {
    key(7)
}

/// A market for `mint()` with the cap `max_supply`, and a vault that holds
/// `vault_tokens`.
fn market(max_supply: u64, vault_tokens: u64) -> (MarketAccount, TokenAccount) {
    let mut ctx = Initialize { usdc_mint: mint(), market_state: None, vault_token: None };
    assert_eq!(initialize(&mut ctx, max_supply), Ok(()));
    let mut vault = ctx.vault_token.unwrap();
    vault.amount = vault_tokens;
    (ctx.market_state.unwrap(), vault)
}

fn buyer_accounts(
    market_state: MarketAccount,
    vault_token: TokenAccount,
    who: u8,
    lamports: u64,
) -> BuyUsdc {
    BuyUsdc {
        buyer: Signer { key: key(who), lamports },
        vault_token,
        buyer_token: TokenAccount { owner: key(who), amount: 0 },
        market_state,
    }
}

fn program(error: UsdcBuySellError) -> Result<(), ExchangeError> {
    Err(ExchangeError::Program(error))
}

fn host(error: HostError) -> Result<(), ExchangeError> {
    Err(ExchangeError::Host(error))
}

#[test]
fn initialize_creates_the_record() {
    let mut ctx = Initialize { usdc_mint: mint(), market_state: None, vault_token: None };
    assert_eq!(initialize(&mut ctx, 1_000_000), Ok(()));
    let (authority, bump) = find_vault_authority(&mint()).unwrap();
    let market = ctx.market_state.unwrap();
    assert_eq!(market.lamports, 0);
    assert_eq!(
        market.data,
        MarketState {
            usdc_mint: mint(),
            vault_authority_bump: bump,
            total_bought: 0,
            total_sold: 0,
            max_supply: 1_000_000,
        }
    );
    assert_eq!(ctx.vault_token, Some(TokenAccount { owner: authority, amount: 0 }));
    assert_eq!(ctx.usdc_mint, mint());
}

#[test]
fn initialize_keeps_a_vault_that_is_there() {
    let (authority, _) = find_vault_authority(&mint()).unwrap();
    let vault = TokenAccount { owner: authority, amount: 42 };
    let mut ctx = Initialize { usdc_mint: mint(), market_state: None, vault_token: Some(vault) };
    assert_eq!(initialize(&mut ctx, 5), Ok(()));
    assert_eq!(ctx.vault_token, Some(vault));
}

#[test]
fn initialize_runs_once() {
    let mut ctx = Initialize { usdc_mint: mint(), market_state: None, vault_token: None };
    assert_eq!(initialize(&mut ctx, 1_000_000), Ok(()));
    let before = ctx;
    assert_eq!(initialize(&mut ctx, 2_000_000), host(HostError::AccountAlreadyInUse));
    assert_eq!(ctx, before);
}

#[test]
fn initialize_refuses_a_vault_of_another_owner() {
    let vault = TokenAccount { owner: key(9), amount: 0 };
    let mut ctx = Initialize { usdc_mint: mint(), market_state: None, vault_token: Some(vault) };
    let before = ctx;
    assert_eq!(initialize(&mut ctx, 1_000_000), host(HostError::IllegalOwner));
    assert_eq!(ctx, before);
}

#[test]
fn initialize_without_an_authority_fails() {
    let mut ctx = Initialize { usdc_mint: mint(), market_state: None, vault_token: None };
    let before = ctx;
    assert_eq!(initialize_with_authority(&mut ctx, 1_000_000, None), host(HostError::InvalidSeeds));
    assert_eq!(ctx, before);
}

#[test]
fn initialize_with_authority_stores_the_bump() {
    let mut ctx = Initialize { usdc_mint: mint(), market_state: None, vault_token: None };
    assert_eq!(initialize_with_authority(&mut ctx, 0, Some((key(3), 200))), Ok(()));
    assert_eq!(ctx.market_state.unwrap().data.vault_authority_bump, 200);
    assert_eq!(ctx.market_state.unwrap().data.max_supply, 0);
    assert_eq!(ctx.vault_token, Some(TokenAccount { owner: key(3), amount: 0 }));
}

#[test]
fn a_market_with_a_cap_of_zero_sells_nothing() {
    let (market_state, vault) = market(0, 100);
    let mut ctx = buyer_accounts(market_state, vault, 1, 1_000);
    let mut log = AuditLog::new();
    assert_eq!(buy_usdc(&mut ctx, 1, &mut log), program(UsdcBuySellError::CapExceeded));
    assert_eq!(log.len(), 0);
}

#[test]
fn buy_within_the_cap_then_past_it() {
    let (market_state, vault) = market(1_000_000, 5_000_000);
    let mut ctx = buyer_accounts(market_state, vault, 1, 100_000_000);
    let mut log = AuditLog::new();
    assert_eq!(buy_usdc(&mut ctx, 500_000, &mut log), Ok(()));
    assert_eq!(ctx.market_state.data.total_bought, 500_000);
    let before = ctx;
    assert_eq!(buy_usdc(&mut ctx, 600_000, &mut log), program(UsdcBuySellError::CapExceeded));
    assert_eq!(ctx.market_state.data.total_bought, 500_000);
    assert_eq!(ctx, before);
    assert_eq!(log.len(), 1);
}

#[test]
fn buy_up_to_the_cap_exactly() {
    let (market_state, vault) = market(1_000_000, 5_000_000);
    let mut ctx = buyer_accounts(market_state, vault, 1, 100_000_000);
    let mut log = AuditLog::new();
    assert_eq!(buy_usdc(&mut ctx, 1_000_000, &mut log), Ok(()));
    assert_eq!(ctx.market_state.data.total_bought, 1_000_000);
    assert_eq!(buy_usdc(&mut ctx, 1, &mut log), program(UsdcBuySellError::CapExceeded));
}

#[test]
fn buy_of_a_million_units_costs_ten_million_lamports() {
    let (market_state, vault) = market(1_000_000, 1_000_000);
    let mut ctx = buyer_accounts(market_state, vault, 1, 10_000_000);
    let mut log = AuditLog::new();
    assert_eq!(buy_usdc(&mut ctx, 1_000_000, &mut log), Ok(()));
    assert_eq!(ctx.buyer.lamports, 0);
    assert_eq!(ctx.market_state.lamports, 10_000_000);
    assert_eq!(
        log.get(0),
        Some(MarketEvent::Buy(BuyEvent {
            buyer: key(1),
            amount: 1_000_000,
            lamports_spent: 10_000_000,
        }))
    );
    assert_eq!(log.get(1), None);
}

#[test]
fn buy_moves_exactly_the_amount() {
    let (market_state, vault) = market(1_000, 700);
    let mut ctx = buyer_accounts(market_state, vault, 1, 5_000);
    ctx.buyer_token.amount = 11;
    let mut log = AuditLog::new();
    assert_eq!(buy_usdc(&mut ctx, 300, &mut log), Ok(()));
    assert_eq!(ctx.vault_token.amount, 400);
    assert_eq!(ctx.buyer_token.amount, 311);
    assert_eq!(ctx.buyer.lamports, 2_000);
    assert_eq!(ctx.market_state.lamports, 3_000);
    assert_eq!(ctx.market_state.data.total_bought, 300);
    assert_eq!(ctx.market_state.data.total_sold, 0);
    assert_eq!(ctx.vault_token.owner, vault.owner);
    assert_eq!(ctx.buyer_token.owner, key(1));
    assert_eq!(ctx.buyer.key, key(1));
}

#[test]
fn buy_of_nothing_is_refused() {
    let (market_state, vault) = market(1_000, 700);
    let mut ctx = buyer_accounts(market_state, vault, 1, 5_000);
    let before = ctx;
    let mut log = AuditLog::new();
    assert_eq!(buy_usdc(&mut ctx, 0, &mut log), program(UsdcBuySellError::InvalidAmount));
    assert_eq!(ctx, before);
    assert_eq!(log.len(), 0);
}

#[test]
fn buy_of_nothing_is_refused_before_anything_else() {
    let (market_state, _) = market(0, 0);
    let mut ctx = BuyUsdc {
        buyer: Signer { key: key(1), lamports: 0 },
        vault_token: TokenAccount { owner: key(2), amount: 0 },
        buyer_token: TokenAccount { owner: key(3), amount: 0 },
        market_state,
    };
    let mut log = AuditLog::new();
    assert_eq!(buy_usdc(&mut ctx, 0, &mut log), program(UsdcBuySellError::InvalidAmount));
}

#[test]
fn buy_from_a_vault_that_holds_too_little() {
    let (market_state, vault) = market(1_000, 299);
    let mut ctx = buyer_accounts(market_state, vault, 1, 5_000);
    let before = ctx;
    let mut log = AuditLog::new();
    assert_eq!(
        buy_usdc(&mut ctx, 300, &mut log),
        program(UsdcBuySellError::InsufficientUsdcInVault)
    );
    assert_eq!(ctx, before);
    assert_eq!(buy_usdc(&mut ctx, 299, &mut log), Ok(()));
}

#[test]
fn buy_into_an_account_of_another_owner() {
    let (market_state, vault) = market(1_000, 700);
    let mut ctx = buyer_accounts(market_state, vault, 1, 5_000);
    ctx.buyer_token.owner = key(2);
    let before = ctx;
    let mut log = AuditLog::new();
    assert_eq!(
        buy_usdc(&mut ctx, 300, &mut log),
        program(UsdcBuySellError::InvalidBuyerTokenAccount)
    );
    assert_eq!(ctx, before);
    assert_eq!(log.len(), 0);
}

#[test]
fn buy_whose_price_overflows() {
    let (market_state, vault) = market(u64::MAX, u64::MAX);
    let mut ctx = buyer_accounts(market_state, vault, 1, u64::MAX);
    let before = ctx;
    let mut log = AuditLog::new();
    let too_much = u64::MAX / 10 + 1;
    assert_eq!(buy_usdc(&mut ctx, too_much, &mut log), program(UsdcBuySellError::MathOverflow));
    assert_eq!(ctx, before);
    assert_eq!(buy_usdc(&mut ctx, u64::MAX / 10, &mut log), Ok(()));
    assert_eq!(ctx.buyer.lamports, u64::MAX - (u64::MAX / 10) * 10);
}

#[test]
fn buy_whose_price_overflows_is_refused_before_the_owner_is_tested() {
    let (market_state, vault) = market(u64::MAX, u64::MAX);
    let mut ctx = buyer_accounts(market_state, vault, 1, u64::MAX);
    ctx.buyer_token.owner = key(2);
    let mut log = AuditLog::new();
    assert_eq!(
        buy_usdc(&mut ctx, u64::MAX / 10 + 1, &mut log),
        program(UsdcBuySellError::MathOverflow)
    );
}

#[test]
fn buy_whose_total_overflows() {
    let (mut market_state, vault) = market(u64::MAX, 100);
    market_state.data.total_bought = u64::MAX - 5;
    let mut ctx = buyer_accounts(market_state, vault, 1, 1_000);
    let before = ctx;
    let mut log = AuditLog::new();
    assert_eq!(buy_usdc(&mut ctx, 6, &mut log), program(UsdcBuySellError::MathOverflow));
    assert_eq!(ctx, before);
    assert_eq!(buy_usdc(&mut ctx, 5, &mut log), Ok(()));
    assert_eq!(ctx.market_state.data.total_bought, u64::MAX);
}

#[test]
fn buy_past_the_cap_is_refused_before_the_vault_is_tested() {
    let (market_state, vault) = market(10, 5);
    let mut ctx = buyer_accounts(market_state, vault, 1, 1_000);
    let mut log = AuditLog::new();
    assert_eq!(buy_usdc(&mut ctx, 11, &mut log), program(UsdcBuySellError::CapExceeded));
}

#[test]
fn buy_by_a_buyer_without_the_lamports() {
    let (market_state, vault) = market(1_000, 700);
    let mut ctx = buyer_accounts(market_state, vault, 1, 2_999);
    let before = ctx;
    let mut log = AuditLog::new();
    assert_eq!(buy_usdc(&mut ctx, 300, &mut log), host(HostError::InsufficientFunds));
    assert_eq!(ctx, before);
    assert_eq!(log.len(), 0);
}

#[test]
fn buy_into_a_ledger_account_that_is_full() {
    let (mut market_state, vault) = market(1_000, 700);
    market_state.lamports = u64::MAX - 9;
    let mut ctx = buyer_accounts(market_state, vault, 1, 5_000);
    let before = ctx;
    let mut log = AuditLog::new();
    assert_eq!(buy_usdc(&mut ctx, 1, &mut log), host(HostError::BalanceOverflow));
    assert_eq!(ctx, before);
}

#[test]
fn buy_into_a_token_account_that_is_full() {
    let (market_state, vault) = market(1_000, 700);
    let mut ctx = buyer_accounts(market_state, vault, 1, 5_000);
    ctx.buyer_token.amount = u64::MAX;
    let before = ctx;
    let mut log = AuditLog::new();
    assert_eq!(buy_usdc(&mut ctx, 1, &mut log), host(HostError::BalanceOverflow));
    assert_eq!(ctx, before);
}

#[test]
fn buy_from_a_vault_that_the_authority_does_not_control() {
    let (market_state, mut vault) = market(1_000, 700);
    vault.owner = key(9);
    let mut ctx = buyer_accounts(market_state, vault, 1, 5_000);
    let before = ctx;
    let mut log = AuditLog::new();
    assert_eq!(buy_usdc(&mut ctx, 300, &mut log), host(HostError::MissingRequiredSignature));
    assert_eq!(ctx, before);
    assert_eq!(log.len(), 0);
}

#[test]
fn buy_with_a_bump_that_is_not_the_stored_one() {
    let (mut market_state, vault) = market(1_000, 700);
    market_state.data.vault_authority_bump = market_state.data.vault_authority_bump.wrapping_sub(1);
    let mut ctx = buyer_accounts(market_state, vault, 1, 5_000);
    let before = ctx;
    let mut log = AuditLog::new();
    assert_eq!(buy_usdc(&mut ctx, 300, &mut log), host(HostError::MissingRequiredSignature));
    assert_eq!(ctx, before);
}

#[test]
fn buy_with_signer_takes_the_signer_it_is_given() {
    let (market_state, mut vault) = market(1_000, 700);
    vault.owner = key(9);
    let mut ctx = buyer_accounts(market_state, vault, 1, 5_000);
    let mut log = AuditLog::new();
    assert_eq!(
        buy_usdc_with_signer(&mut ctx, 300, None, &mut log),
        host(HostError::MissingRequiredSignature)
    );
    assert_eq!(
        buy_usdc_with_signer(&mut ctx, 300, Some(key(8)), &mut log),
        host(HostError::MissingRequiredSignature)
    );
    assert_eq!(buy_usdc_with_signer(&mut ctx, 300, Some(key(9)), &mut log), Ok(()));
    assert_eq!(ctx.vault_token.amount, 400);
    assert_eq!(log.len(), 1);
}

fn seller_accounts(bought: BuyUsdc) -> SellUsdc {
    SellUsdc {
        seller: bought.buyer,
        vault_token: bought.vault_token,
        seller_token: bought.buyer_token,
        market_state: bought.market_state,
    }
}

#[test]
fn sell_gives_back_what_a_buy_took() {
    let (market_state, vault) = market(1_000, 700);
    let mut buy = buyer_accounts(market_state, vault, 1, 5_000);
    buy.buyer_token.amount = 11;
    let before = buy;
    let mut log = AuditLog::new();
    assert_eq!(buy_usdc(&mut buy, 300, &mut log), Ok(()));
    let mut sell = seller_accounts(buy);
    assert_eq!(sell_usdc(&mut sell, 300, &mut log), Ok(()));
    assert_eq!(sell.seller, before.buyer);
    assert_eq!(sell.seller_token, before.buyer_token);
    assert_eq!(sell.vault_token, before.vault_token);
    assert_eq!(sell.market_state.lamports, before.market_state.lamports);
    assert_eq!(sell.market_state.data.total_bought, 300);
    assert_eq!(sell.market_state.data.total_sold, 300);
    assert_eq!(log.len(), 2);
    assert_eq!(
        log.get(1),
        Some(MarketEvent::Sell(SellEvent { seller: key(1), amount: 300, lamports_received: 3_000 }))
    );
}

#[test]
fn sell_moves_exactly_the_amount() {
    let (mut market_state, vault) = market(1_000, 700);
    market_state.lamports = 10_000;
    let mut ctx = SellUsdc {
        seller: Signer { key: key(4), lamports: 5 },
        vault_token: vault,
        seller_token: TokenAccount { owner: key(4), amount: 250 },
        market_state,
    };
    let mut log = AuditLog::new();
    assert_eq!(sell_usdc(&mut ctx, 200, &mut log), Ok(()));
    assert_eq!(ctx.seller_token.amount, 50);
    assert_eq!(ctx.vault_token.amount, 900);
    assert_eq!(ctx.seller.lamports, 2_005);
    assert_eq!(ctx.market_state.lamports, 8_000);
    assert_eq!(ctx.market_state.data.total_sold, 200);
    assert_eq!(ctx.market_state.data.total_bought, 0);
}

#[test]
fn sell_of_nothing_is_refused() {
    let (mut market_state, vault) = market(1_000, 700);
    market_state.lamports = 10_000;
    let mut ctx = SellUsdc {
        seller: Signer { key: key(4), lamports: 5 },
        vault_token: vault,
        seller_token: TokenAccount { owner: key(4), amount: 250 },
        market_state,
    };
    let before = ctx;
    let mut log = AuditLog::new();
    assert_eq!(sell_usdc(&mut ctx, 0, &mut log), program(UsdcBuySellError::InvalidAmount));
    assert_eq!(ctx, before);
    assert_eq!(log.len(), 0);
}

#[test]
fn sell_to_a_ledger_account_that_cannot_pay() {
    let (mut market_state, vault) = market(1_000, 700);
    market_state.lamports = 1_999;
    let mut ctx = SellUsdc {
        seller: Signer { key: key(4), lamports: 5 },
        vault_token: vault,
        seller_token: TokenAccount { owner: key(4), amount: 250 },
        market_state,
    };
    let before = ctx;
    let mut log = AuditLog::new();
    assert_eq!(
        sell_usdc(&mut ctx, 200, &mut log),
        program(UsdcBuySellError::InsufficientSolInVault)
    );
    assert_eq!(ctx.seller_token.amount, 250);
    assert_eq!(ctx.vault_token.amount, 700);
    assert_eq!(ctx, before);
    assert_eq!(log.len(), 0);
    ctx.market_state.lamports = 2_000;
    assert_eq!(sell_usdc(&mut ctx, 200, &mut log), Ok(()));
    assert_eq!(ctx.market_state.lamports, 0);
}

#[test]
fn sell_whose_price_overflows() {
    let (mut market_state, vault) = market(u64::MAX, 0);
    market_state.lamports = u64::MAX;
    let mut ctx = SellUsdc {
        seller: Signer { key: key(4), lamports: 0 },
        vault_token: vault,
        seller_token: TokenAccount { owner: key(4), amount: u64::MAX },
        market_state,
    };
    let before = ctx;
    let mut log = AuditLog::new();
    assert_eq!(
        sell_usdc(&mut ctx, u64::MAX / 10 + 1, &mut log),
        program(UsdcBuySellError::MathOverflow)
    );
    assert_eq!(ctx, before);
    assert_eq!(sell_usdc(&mut ctx, u64::MAX / 10, &mut log), Ok(()));
    assert_eq!(ctx.seller.lamports, (u64::MAX / 10) * 10);
}

#[test]
fn sell_past_the_cap_undoes_the_transfers() {
    let (mut market_state, vault) = market(1_000, 700);
    market_state.lamports = 100_000;
    market_state.data.total_sold = 900;
    let mut ctx = SellUsdc {
        seller: Signer { key: key(4), lamports: 5 },
        vault_token: vault,
        seller_token: TokenAccount { owner: key(4), amount: 250 },
        market_state,
    };
    let before = ctx;
    let mut log = AuditLog::new();
    assert_eq!(sell_usdc(&mut ctx, 101, &mut log), program(UsdcBuySellError::CapExceeded));
    assert_eq!(ctx, before);
    assert_eq!(log.len(), 0);
    assert_eq!(sell_usdc(&mut ctx, 100, &mut log), Ok(()));
    assert_eq!(ctx.market_state.data.total_sold, 1_000);
}

#[test]
fn sell_whose_total_overflows() {
    let (mut market_state, vault) = market(u64::MAX, 0);
    market_state.lamports = 100_000;
    market_state.data.total_sold = u64::MAX - 5;
    let mut ctx = SellUsdc {
        seller: Signer { key: key(4), lamports: 5 },
        vault_token: vault,
        seller_token: TokenAccount { owner: key(4), amount: 250 },
        market_state,
    };
    let before = ctx;
    let mut log = AuditLog::new();
    assert_eq!(sell_usdc(&mut ctx, 6, &mut log), program(UsdcBuySellError::MathOverflow));
    assert_eq!(ctx, before);
}

#[test]
fn sell_is_refused_by_the_host_before_the_cap_is_tested() {
    let (mut market_state, vault) = market(1_000, 700);
    market_state.lamports = 100_000;
    market_state.data.total_sold = 1_000;
    let mut ctx = SellUsdc {
        seller: Signer { key: key(4), lamports: 5 },
        vault_token: vault,
        seller_token: TokenAccount { owner: key(4), amount: 0 },
        market_state,
    };
    let mut log = AuditLog::new();
    assert_eq!(sell_usdc(&mut ctx, 1, &mut log), host(HostError::InsufficientFunds));
}

#[test]
fn sell_of_tokens_that_the_seller_does_not_hold() {
    let (mut market_state, vault) = market(1_000, 700);
    market_state.lamports = 100_000;
    let mut ctx = SellUsdc {
        seller: Signer { key: key(4), lamports: 5 },
        vault_token: vault,
        seller_token: TokenAccount { owner: key(4), amount: 99 },
        market_state,
    };
    let before = ctx;
    let mut log = AuditLog::new();
    assert_eq!(sell_usdc(&mut ctx, 100, &mut log), host(HostError::InsufficientFunds));
    assert_eq!(ctx, before);
    assert_eq!(log.len(), 0);
}

#[test]
fn sell_from_an_account_of_another_owner() {
    let (mut market_state, vault) = market(1_000, 700);
    market_state.lamports = 100_000;
    let mut ctx = SellUsdc {
        seller: Signer { key: key(4), lamports: 5 },
        vault_token: vault,
        seller_token: TokenAccount { owner: key(5), amount: 250 },
        market_state,
    };
    let before = ctx;
    let mut log = AuditLog::new();
    assert_eq!(sell_usdc(&mut ctx, 100, &mut log), host(HostError::MissingRequiredSignature));
    assert_eq!(ctx, before);
}

#[test]
fn sell_into_accounts_that_are_full() {
    let (mut market_state, mut vault) = market(1_000, 700);
    market_state.lamports = 100_000;
    let mut ctx = SellUsdc {
        seller: Signer { key: key(4), lamports: u64::MAX - 999 },
        vault_token: vault,
        seller_token: TokenAccount { owner: key(4), amount: 250 },
        market_state,
    };
    let before = ctx;
    let mut log = AuditLog::new();
    assert_eq!(sell_usdc(&mut ctx, 100, &mut log), host(HostError::BalanceOverflow));
    assert_eq!(ctx, before);
    vault.amount = u64::MAX - 99;
    ctx.vault_token = vault;
    ctx.seller.lamports = 0;
    assert_eq!(sell_usdc(&mut ctx, 100, &mut log), host(HostError::BalanceOverflow));
    assert_eq!(sell_usdc(&mut ctx, 99, &mut log), Ok(()));
}

#[test]
fn two_buys_past_the_cap_do_not_both_take_effect() {
    for first_goes_first in [true, false] {
        let (market_state, vault) = market(1_000, 5_000);
        let mut one = buyer_accounts(market_state, vault, 1, 100_000);
        let mut log = AuditLog::new();
        let (a, b) = if first_goes_first { (600, 500) } else { (500, 600) };
        assert_eq!(buy_usdc(&mut one, a, &mut log), Ok(()));
        let mut two = buyer_accounts(one.market_state, one.vault_token, 2, 100_000);
        assert_eq!(buy_usdc(&mut two, b, &mut log), program(UsdcBuySellError::CapExceeded));
        assert_eq!(two.market_state.data.total_bought, a);
        assert_eq!(log.len(), 1);
    }
}

#[test]
fn the_counters_stay_within_the_cap() {
    let (market_state, vault) = market(1_000, 10_000);
    let mut buy = buyer_accounts(market_state, vault, 1, 1_000_000);
    let mut log = AuditLog::new();
    let amounts: [u64; 8] = [400, 0, 700, 600, 1, 300, 299, 1];
    let mut bought = 0;
    let mut sold = 0;
    for amount in amounts {
        if buy_usdc(&mut buy, amount, &mut log).is_ok() {
            bought += amount;
        }
        let mut sell = seller_accounts(buy);
        if sell_usdc(&mut sell, amount / 2, &mut log).is_ok() {
            sold += amount / 2;
        }
        buy = BuyUsdc {
            buyer: sell.seller,
            vault_token: sell.vault_token,
            buyer_token: sell.seller_token,
            market_state: sell.market_state,
        };
        let data = buy.market_state.data;
        assert!(data.total_bought <= data.max_supply);
        assert!(data.total_sold <= data.max_supply);
        assert_eq!(data.total_bought, bought);
        assert_eq!(data.total_sold, sold);
        assert_eq!(data.max_supply, 1_000);
        assert_eq!(data.usdc_mint, mint());
    }
    assert_eq!(bought, 1_000);
    assert_eq!(sold, 799);
    assert_eq!(log.len(), 6);
}
