use vstd::prelude::*;

use crate::account::{Signer, TokenAccount};
use crate::error::{ExchangeError, UsdcBuySellError};
use crate::exchange::{BuyUsdc, SellUsdc};
use crate::pubkey::Pubkey;
use crate::state::MarketState;

verus! {

/// A history of one ledger record: every record but the first is what one
/// operation, whether it took effect or not, made of the record before it.
pub open spec fn is_history(records: Seq<MarketState>) -> bool {
    forall|i: int| 0 < i < records.len() ==> records[i - 1].steps_to(#[trigger] records[i])
}

/// Through every history of a market whose counters start within the cap, the
/// counters stay within the cap and never decrease, and the token, the bump
/// and the cap never change.
pub proof fn lemma_history_keeps_the_cap(records: Seq<MarketState>, at: int)
    requires
        is_history(records),
        0 <= at < records.len(),
        records[0].wf(),
    ensures
        records[at].wf(),
        records[at].total_bought <= records[at].max_supply,
        records[at].total_sold <= records[at].max_supply,
        records[at].total_bought >= records[0].total_bought,
        records[at].total_sold >= records[0].total_sold,
        records[at].max_supply == records[0].max_supply,
        records[at].usdc_mint == records[0].usdc_mint,
        records[at].vault_authority_bump == records[0].vault_authority_bump,
    decreases at,
{
    if at > 0 {
        lemma_history_keeps_the_cap(records, at - 1);
        assert(records[at - 1].steps_to(records[at]));
    }
}

/// The accounts with which the buyer of `bought` sells back to the same
/// market: the buyer is the seller, and sells from the token account that
/// received the buy.
pub open spec fn sell_back(bought: BuyUsdc) -> SellUsdc {
    SellUsdc {
        seller: bought.buyer,
        vault_token: bought.vault_token,
        seller_token: bought.buyer_token,
        market_state: bought.market_state,
    }
}

/// A buy followed by a sell of the same amount by the same party is refused
/// only by the cap on what was sold. Where it is not refused, the party, its
/// token account, the vault and the lamports of the ledger account are as they
/// were before the buy, and both counters have grown by the amount.
pub proof fn lemma_buy_then_sell_restores_balances(
    ctx: BuyUsdc,
    amount: u64,
    signer: Option<Pubkey>,
)
    requires
        ctx.outcome(amount, signer) is Ok,
    ensures
        ({
            let bought = ctx.outcome(amount, signer).unwrap().0;
            let market = ctx.market_state.data;
            let back = sell_back(bought).outcome(amount);
            &&& back is Ok <==> market.total_sold + amount <= market.max_supply
            &&& back matches Err(e) ==> e == ExchangeError::Program(
                if market.total_sold + amount > u64::MAX {
                    UsdcBuySellError::MathOverflow
                } else {
                    UsdcBuySellError::CapExceeded
                },
            )
            &&& back matches Ok((sold, event)) ==> {
                &&& sold.seller == ctx.buyer
                &&& sold.seller_token == ctx.buyer_token
                &&& sold.vault_token == ctx.vault_token
                &&& sold.market_state.lamports == ctx.market_state.lamports
                &&& sold.market_state.data.total_bought == market.total_bought + amount
                &&& sold.market_state.data.total_sold == market.total_sold + amount
                &&& event.lamports_received == ctx.event(amount).lamports_spent
            }
        }),
{
}

/// Of two buys that would each take effect on a market, and that together
/// would take the counter past the cap, the one that comes second is refused:
/// with `CapExceeded`, or with `MathOverflow` where the sum of the counter and
/// the two amounts does not even fit in 64 bits. So never both take effect,
/// whichever comes first.
pub proof fn lemma_buys_past_the_cap_exclude_each_other(
    first: BuyUsdc,
    first_amount: u64,
    second_buyer: Signer,
    second_token: TokenAccount,
    second_amount: u64,
    signer: Option<Pubkey>,
)
    requires
        first.outcome(first_amount, signer) is Ok,
        (BuyUsdc { buyer: second_buyer, buyer_token: second_token, ..first }).outcome(
            second_amount,
            signer,
        ) is Ok,
        first.market_state.data.total_bought + first_amount + second_amount
            > first.market_state.data.max_supply,
    ensures
        ({
            let after = first.outcome(first_amount, signer).unwrap().0;
            let second = BuyUsdc { buyer: second_buyer, buyer_token: second_token, ..after };
            second.outcome(second_amount, signer) == Err::<
                (BuyUsdc, crate::event::BuyEvent),
                ExchangeError,
            >(
                ExchangeError::Program(
                    if first.market_state.data.total_bought + first_amount + second_amount
                        > u64::MAX {
                        UsdcBuySellError::MathOverflow
                    } else {
                        UsdcBuySellError::CapExceeded
                    },
                ),
            )
        }),
{
}

} // verus!
