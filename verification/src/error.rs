use vstd::prelude::*;

verus! {

/// Why the exchange itself refuses an operation.
#[derive(Clone, Copy, Debug, PartialEq, Eq, Structural)]
pub enum UsdcBuySellError {
    /// The amount is zero.
    InvalidAmount,
    /// The operation would take a counter past the supply cap.
    CapExceeded,
    /// The cap addition or the price multiplication does not fit in 64 bits.
    MathOverflow,
    /// The vault holds fewer tokens than a buy asks for.
    InsufficientUsdcInVault,
    /// The ledger holds fewer lamports than a sell pays out.
    InsufficientSolInVault,
    /// The token account that receives a buy is not owned by the buyer.
    InvalidBuyerTokenAccount,
}

impl UsdcBuySellError {
    /// The message of each error.
    pub open spec fn spec_message(self) -> Seq<char> {
        match self {
            UsdcBuySellError::InvalidAmount => "Amount must be greater than zero"@,
            UsdcBuySellError::CapExceeded => "Total cap exceeded"@,
            UsdcBuySellError::MathOverflow => "Math overflow"@,
            UsdcBuySellError::InsufficientUsdcInVault => "Insufficient USDC in vault"@,
            UsdcBuySellError::InsufficientSolInVault => "Insufficient SOL in vault"@,
            UsdcBuySellError::InvalidBuyerTokenAccount => "Invalid buyer token account"@,
        }
    }

    /// The message shown to the caller.
    pub fn message(&self) -> (res: &'static str)
        ensures
            res@ == self.spec_message(),
    {
        match self {
            UsdcBuySellError::InvalidAmount => "Amount must be greater than zero",
            UsdcBuySellError::CapExceeded => "Total cap exceeded",
            UsdcBuySellError::MathOverflow => "Math overflow",
            UsdcBuySellError::InsufficientUsdcInVault => "Insufficient USDC in vault",
            UsdcBuySellError::InsufficientSolInVault => "Insufficient SOL in vault",
            UsdcBuySellError::InvalidBuyerTokenAccount => "Invalid buyer token account",
        }
    }
}

/// Why the host refuses a step of an operation. None of these is a decision of
/// the exchange: they come from the primitives that hold the balances and the
/// records.
#[derive(Clone, Copy, Debug, PartialEq, Eq, Structural)]
pub enum HostError {
    /// The ledger record exists already.
    AccountAlreadyInUse,
    /// No vault authority can be derived for the token.
    InvalidSeeds,
    /// The token account offered as the vault is not owned by the vault
    /// authority.
    IllegalOwner,
    /// The authority presented for a transfer does not control its source.
    MissingRequiredSignature,
    /// The source of a transfer holds less than the amount.
    InsufficientFunds,
    /// The destination of a transfer cannot hold the amount on top of its
    /// balance.
    BalanceOverflow,
}

/// The failure of an operation: a refusal by the exchange, or by the host.
#[derive(Clone, Copy, Debug, PartialEq, Eq, Structural)]
pub enum ExchangeError {
    Program(UsdcBuySellError),
    Host(HostError),
}

} // verus!
