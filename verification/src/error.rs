use vstd::prelude::*;

verus! {

/// Why a message to the pool was refused.
#[derive(Clone, Debug, PartialEq, Eq)]
pub enum ContractError {
    /// An addition, subtraction or multiplication left the range of `u128`.
    Overflow,
    /// A division by zero was asked for.
    DivideByZero,
    /// A swap was asked of a pool with an empty reserve.
    NoLiquidityError,
    /// The message carried an expiration that the current block has reached.
    MsgExpirationError,
    /// The funds sent hold no coin of the pool's native denomination.
    NoNativeFunds { required: String },
    /// Fewer liquidity shares would be minted than the caller asked for.
    MinLiquidityError { min_liquidity: u128, liquidity_available: u128 },
    /// More tokens would be taken from the caller than it allowed.
    MaxTokenError { max_token: u128, tokens_required: u128 },
    /// The caller asked to redeem more shares than it holds.
    InsufficientLiquidityError { requested: u128, available: u128 },
    /// Redeeming would pay out less of the native coin than asked for.
    MinNative { min_native: u128, native_available: u128 },
    /// Redeeming would pay out fewer tokens than asked for.
    MinToken { min_token: u128, tokens_available: u128 },
    /// A swap would pay out less than the caller's minimum.
    SwapMinError { min: u128, available: u128 },
    /// Liquidity shares were to be minted or burned in a zero amount.
    InvalidZeroAmount,
}

} // verus!
