use vstd::prelude::*;

use crate::error::HostError;
use crate::pubkey::Pubkey;
use crate::state::MarketState;

verus! {

/// A party that signed the operation, with the lamports it holds.
#[derive(Clone, Copy, Debug, PartialEq, Eq)]
pub struct Signer {
    pub key: Pubkey,
    pub lamports: u64,
}

/// An account that holds the token of the market for its owner.
#[derive(Clone, Copy, Debug, PartialEq, Eq)]
pub struct TokenAccount {
    /// The identity that may move tokens out of the account.
    pub owner: Pubkey,
    /// The base units held.
    pub amount: u64,
}

/// The account that stores the ledger record. Its own lamports are the
/// market's native-currency vault.
#[derive(Clone, Copy, Debug, PartialEq, Eq)]
pub struct MarketAccount {
    pub lamports: u64,
    pub data: MarketState,
}

/// What a transfer of `amount` lamports makes of the two balances: the source
/// must hold the amount, and the destination must be able to hold it too.
pub open spec fn lamports_transferred(source: u64, destination: u64, amount: u64) -> Result<
    (u64, u64),
    HostError,
> {
    if source < amount {
        Err(HostError::InsufficientFunds)
    } else if destination + amount > u64::MAX {
        Err(HostError::BalanceOverflow)
    } else {
        Ok(((source - amount) as u64, (destination + amount) as u64))
    }
}

/// What a transfer of `amount` base units makes of the two token accounts. The
/// `authority` is the identity in whose name the tokens move, `None` where
/// there is none: it must be the owner of the source.
pub open spec fn tokens_transferred(
    source: TokenAccount,
    destination: TokenAccount,
    authority: Option<Pubkey>,
    amount: u64,
) -> Result<(TokenAccount, TokenAccount), HostError> {
    if authority != Some(source.owner) {
        Err(HostError::MissingRequiredSignature)
    } else if source.amount < amount {
        Err(HostError::InsufficientFunds)
    } else if destination.amount + amount > u64::MAX {
        Err(HostError::BalanceOverflow)
    } else {
        Ok(
            (
                TokenAccount { amount: (source.amount - amount) as u64, ..source },
                TokenAccount { amount: (destination.amount + amount) as u64, ..destination },
            ),
        )
    }
}

/// Moves `amount` lamports from one balance to another and returns the two new
/// balances, source first.
pub fn transfer_lamports(source: u64, destination: u64, amount: u64) -> (res: Result<
    (u64, u64),
    HostError,
>)
    ensures
        res == lamports_transferred(source, destination, amount),
{
    if source < amount {
        return Err(HostError::InsufficientFunds);
    }
    match destination.checked_add(amount) {
        Some(credited) => Ok((source - amount, credited)),
        None => Err(HostError::BalanceOverflow),
    }
}

/// Moves `amount` base units from one token account to another in the name of
/// `authority`, and returns the two accounts as they are afterwards, source
/// first.
pub fn transfer_tokens(
    source: TokenAccount,
    destination: TokenAccount,
    authority: Option<Pubkey>,
    amount: u64,
) -> (res: Result<(TokenAccount, TokenAccount), HostError>)
    ensures
        res == tokens_transferred(source, destination, authority, amount),
{
    let authorized = match authority {
        Some(signer) => signer == source.owner,
        None => false,
    };
    if !authorized {
        return Err(HostError::MissingRequiredSignature);
    }
    if source.amount < amount {
        return Err(HostError::InsufficientFunds);
    }
    match destination.amount.checked_add(amount) {
        Some(credited) => Ok(
            (
                TokenAccount { owner: source.owner, amount: source.amount - amount },
                TokenAccount { owner: destination.owner, amount: credited },
            ),
        ),
        None => Err(HostError::BalanceOverflow),
    }
}

} // verus!
