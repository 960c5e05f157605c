use vstd::prelude::*;

verus! {

/// The pool's own record: its two reserves and what it trades.
#[derive(Clone, Debug, PartialEq, Eq)]
pub struct Token {
    /// Native coins the pool holds for trading.
    pub native_reserve: u128,
    /// Denomination of the native coin traded.
    pub native_denom: String,
    /// Address of the cw20 token contract traded.
    pub token_address: String,
    /// Symbol of the cw20 token traded.
    pub token_denom: String,
    /// Tokens the pool holds for trading.
    pub token_reserve: u128,
}

/// Everything the pool's decisions read: its record and the number of
/// liquidity shares in circulation.
#[derive(Clone, Debug, PartialEq, Eq)]
pub struct Pool {
    pub token: Token,
    pub lp_token_supply: u128,
}

/// `pool` with new reserves and share supply, everything else unchanged.
pub open spec fn with_amounts(pool: Pool, native_reserve: u128, token_reserve: u128, supply: u128) -> Pool {
    Pool {
        token: Token {
            native_reserve: native_reserve,
            native_denom: pool.token.native_denom,
            token_address: pool.token.token_address,
            token_denom: pool.token.token_denom,
            token_reserve: token_reserve,
        },
        lp_token_supply: supply,
    }
}

/// Builds `pool` with new reserves and share supply.
pub fn set_amounts(pool: &Pool, native_reserve: u128, token_reserve: u128, supply: u128) -> (res: Pool)
    ensures
        res == with_amounts(*pool, native_reserve, token_reserve, supply),
{
    Pool {
        token: Token {
            native_reserve,
            native_denom: pool.token.native_denom.clone(),
            token_address: pool.token.token_address.clone(),
            token_denom: pool.token.token_denom.clone(),
            token_reserve,
        },
        lp_token_supply: supply,
    }
}

} // verus!
