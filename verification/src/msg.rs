use vstd::prelude::*;

use crate::chain::Expiration;

verus! {

/// Sets up a pool for one native denomination and one cw20 token.
#[derive(Clone, Debug, PartialEq, Eq)]
pub struct InstantiateMsg {
    pub native_denom: String,
    pub token_denom: String,
    pub token_address: String,
}

/// The messages that change the pool.
#[derive(Clone, Debug, PartialEq, Eq)]
pub enum ExecuteMsg {
    /// Deposit the native coins sent and the matching tokens for shares.
    AddLiquidity { min_liquidity: u128, max_token: u128, expiration: Option<Expiration> },
    /// Redeem `amount` shares for their part of both reserves.
    RemoveLiquidity {
        amount: u128,
        min_native: u128,
        min_token: u128,
        expiration: Option<Expiration>,
    },
    /// Sell the native coins sent for tokens.
    SwapToken1ForToken2 { min_token: u128, expiration: Option<Expiration> },
    /// Sell `token_amount` tokens for native coins.
    SwapToken2ForToken1 { token_amount: u128, min_native: u128, expiration: Option<Expiration> },
    /// Sell tokens for native coins here, and those coins for the token of
    /// the pool at `output_arcswap_address`.
    SwapTokenForToken {
        output_arcswap_address: String,
        input_token_amount: u128,
        output_min_token: u128,
        expiration: Option<Expiration>,
    },
    /// Sell the native coins sent for tokens paid to `recipient`.
    SwapNativeForTokenTo { recipient: String, min_token: u128, expiration: Option<Expiration> },
}

/// The questions the pool answers.
#[derive(Clone, Debug, PartialEq, Eq)]
pub enum QueryMsg {
    /// The share balance of an address, 0 if it holds none.
    Balance { address: String },
    /// The pool's reserves, denominations and share supply.
    Info,
    /// Tokens that `native_amount` native coins would buy now.
    NativeForTokenPrice { native_amount: u128 },
    /// Native coins that `token_amount` tokens would buy now.
    TokenForNativePrice { token_amount: u128 },
}

/// Answer to `QueryMsg::Info`.
#[derive(Clone, Debug, PartialEq, Eq)]
pub struct InfoResponse {
    pub native_reserve: u128,
    pub native_denom: String,
    pub token_reserve: u128,
    pub token_denom: String,
    pub token_address: String,
    pub lp_token_supply: u128,
}

/// Answer to `QueryMsg::NativeForTokenPrice`.
#[derive(Clone, Debug, PartialEq, Eq)]
pub struct NativeForTokenPriceResponse {
    pub token_amount: u128,
}

/// Answer to `QueryMsg::TokenForNativePrice`.
#[derive(Clone, Debug, PartialEq, Eq)]
pub struct TokenForNativePriceResponse {
    pub native_amount: u128,
}

} // verus!
