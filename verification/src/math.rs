use vstd::prelude::*;

use vstd::arithmetic::div_mod::{lemma_fundamental_div_mod, lemma_mod_pos_bound};

use crate::error::ContractError;

verus! {

/// The input side counts for 997/1000 of its amount: the 0.3% kept as a fee.
pub const FEE_NUMERATOR: u128 = 997;

/// Denominator of the fee ratio.
pub const FEE_DENOMINATOR: u128 = 1000;

/// Constant-product price with fee: what `input` buys from a pool holding
/// `input_reserve` of the sold side and `output_reserve` of the bought side.
pub open spec fn input_price_value(input: int, input_reserve: int, output_reserve: int) -> int {
    (input * 997 * output_reserve) / (input_reserve * 1000 + input * 997)
}

/// Every intermediate product and sum of the price stays within `u128`.
pub open spec fn input_price_in_range(input: u128, input_reserve: u128, output_reserve: u128) -> bool {
    &&& input * 997 <= u128::MAX
    &&& input * 997 * output_reserve <= u128::MAX
    &&& input_reserve * 1000 <= u128::MAX
    &&& input_reserve * 1000 + input * 997 <= u128::MAX
}

/// The outcome of pricing a swap: refused on an empty reserve, refused when
/// an intermediate value leaves `u128`, else the constant-product price.
pub open spec fn spec_input_price(input: u128, input_reserve: u128, output_reserve: u128) -> Result<
    u128,
    ContractError,
> {
    if input_reserve == 0 || output_reserve == 0 {
        Err(ContractError::NoLiquidityError)
    } else if !input_price_in_range(input, input_reserve, output_reserve) {
        Err(ContractError::Overflow)
    } else {
        Ok(input_price_value(input as int, input_reserve as int, output_reserve as int) as u128)
    }
}

/// Liquidity shares minted for a deposit of `native`: the deposit itself when
/// no share exists yet, else its proportion of the native reserve, rounded down.
pub open spec fn spec_liquidity_amount(native: u128, supply: u128, native_reserve: u128) -> Result<
    u128,
    ContractError,
> {
    if supply == 0 {
        Ok(native)
    } else if native * supply > u128::MAX {
        Err(ContractError::Overflow)
    } else if native_reserve == 0 {
        Err(ContractError::DivideByZero)
    } else {
        Ok((native * supply / (native_reserve as int)) as u128)
    }
}

/// Tokens that must come with a deposit of `native`: the caller's `max_token`
/// when no share exists yet, else the deposit's proportion of the token
/// reserve, rounded down, plus one.
pub open spec fn spec_token_amount(
    max_token: u128,
    native: u128,
    supply: u128,
    token_reserve: u128,
    native_reserve: u128,
) -> Result<u128, ContractError> {
    if supply == 0 {
        Ok(max_token)
    } else if native * token_reserve > u128::MAX {
        Err(ContractError::Overflow)
    } else if native_reserve == 0 {
        Err(ContractError::DivideByZero)
    } else if native * token_reserve / (native_reserve as int) + 1 > u128::MAX {
        Err(ContractError::Overflow)
    } else {
        Ok((native * token_reserve / (native_reserve as int) + 1) as u128)
    }
}

/// What `shares` liquidity shares redeem of a reserve: their proportion of
/// it, rounded down.
pub open spec fn spec_withdraw_amount(shares: u128, reserve: u128, supply: u128) -> Result<
    u128,
    ContractError,
> {
    if shares * reserve > u128::MAX {
        Err(ContractError::Overflow)
    } else if supply == 0 {
        Err(ContractError::DivideByZero)
    } else {
        Ok((shares * reserve / (supply as int)) as u128)
    }
}

/// Prices a swap of `input_amount` against the two reserves.
pub fn get_input_price(input_amount: u128, input_reserve: u128, output_reserve: u128) -> (res:
    Result<u128, ContractError>)
    ensures
        res == spec_input_price(input_amount, input_reserve, output_reserve),
{
    if input_reserve == 0 || output_reserve == 0 {
        return Err(ContractError::NoLiquidityError);
    }
    let with_fee = match input_amount.checked_mul(FEE_NUMERATOR) {
        Some(v) => v,
        None => return Err(ContractError::Overflow),
    };
    let numerator = match with_fee.checked_mul(output_reserve) {
        Some(v) => v,
        None => {
            assert(input_amount * 997 * output_reserve > u128::MAX);
            return Err(ContractError::Overflow);
        },
    };
    let scaled_reserve = match input_reserve.checked_mul(FEE_DENOMINATOR) {
        Some(v) => v,
        None => return Err(ContractError::Overflow),
    };
    let denominator = match scaled_reserve.checked_add(with_fee) {
        Some(v) => v,
        None => return Err(ContractError::Overflow),
    };
    Ok(numerator / denominator)
}

/// Shares minted for a deposit of `native_amount`.
pub fn get_liquidity_amount(native_amount: u128, liquidity_supply: u128, native_reserve: u128) -> (res:
    Result<u128, ContractError>)
    ensures
        res == spec_liquidity_amount(native_amount, liquidity_supply, native_reserve),
{
    if liquidity_supply == 0 {
        return Ok(native_amount);
    }
    let product = match native_amount.checked_mul(liquidity_supply) {
        Some(v) => v,
        None => return Err(ContractError::Overflow),
    };
    if native_reserve == 0 {
        return Err(ContractError::DivideByZero);
    }
    Ok(product / native_reserve)
}

/// Tokens required alongside a deposit of `native_amount`.
pub fn get_token_amount(
    max_token: u128,
    native_amount: u128,
    liquidity_supply: u128,
    token_reserve: u128,
    native_reserve: u128,
) -> (res: Result<u128, ContractError>)
    ensures
        res == spec_token_amount(
            max_token,
            native_amount,
            liquidity_supply,
            token_reserve,
            native_reserve,
        ),
{
    if liquidity_supply == 0 {
        return Ok(max_token);
    }
    let product = match native_amount.checked_mul(token_reserve) {
        Some(v) => v,
        None => return Err(ContractError::Overflow),
    };
    if native_reserve == 0 {
        return Err(ContractError::DivideByZero);
    }
    let quotient = product / native_reserve;
    match quotient.checked_add(1) {
        Some(v) => Ok(v),
        None => Err(ContractError::Overflow),
    }
}

/// What `shares` redeem of `reserve` when `liquidity_supply` shares exist.
pub fn get_withdraw_amount(shares: u128, reserve: u128, liquidity_supply: u128) -> (res: Result<
    u128,
    ContractError,
>)
    ensures
        res == spec_withdraw_amount(shares, reserve, liquidity_supply),
{
    let product = match shares.checked_mul(reserve) {
        Some(v) => v,
        None => return Err(ContractError::Overflow),
    };
    if liquidity_supply == 0 {
        return Err(ContractError::DivideByZero);
    }
    Ok(product / liquidity_supply)
}

/// The quotient `x / d` brackets `x` between two consecutive multiples of `d`.
pub proof fn lemma_div_bounds(x: int, d: int)
    requires
        x >= 0,
        d > 0,
    ensures
        0 <= x / d,
        (x / d) * d <= x,
        x < (x / d) * d + d,
{
    lemma_fundamental_div_mod(x, d);
    lemma_mod_pos_bound(x, d);
    let q = x / d;
    assert(d * q == q * d) by (nonlinear_arith);
    assert(q >= 0) by (nonlinear_arith)
        requires
            x == q * d + x % d,
            0 <= x % d < d,
            x >= 0,
            d > 0,
    ;
}

/// A swap against two non-empty reserves pays out less than the whole
/// reserve of the bought side.
pub proof fn lemma_input_price_below_reserve(input: u128, input_reserve: u128, output_reserve: u128)
    requires
        input_reserve > 0,
        output_reserve > 0,
    ensures
        0 <= input_price_value(input as int, input_reserve as int, output_reserve as int)
            < output_reserve,
{
    let a = input * 997;
    let d = input_reserve * 1000 + a;
    let x = a * output_reserve;
    assert(x >= 0) by (nonlinear_arith)
        requires
            a >= 0,
            output_reserve >= 0,
            x == a * output_reserve,
    ;
    lemma_div_bounds(x, d);
    let q = x / d;
    assert(q < output_reserve) by (nonlinear_arith)
        requires
            q * d <= x,
            x == a * output_reserve,
            a < d,
            output_reserve > 0,
            d > 0,
    ;
}

/// An integer whose multiple by `d` stays within `x` is at most `x / d`.
pub proof fn lemma_le_floor(q: int, x: int, d: int)
    requires
        x >= 0,
        d > 0,
        q * d <= x,
    ensures
        q <= x / d,
{
    lemma_div_bounds(x, d);
    let f = x / d;
    assert(q <= f) by (nonlinear_arith)
        requires
            q * d <= x,
            x < f * d + d,
            d > 0,
    ;
}

/// Selling `input` into a pool never lowers the product of its reserves:
/// the bought amount `p` satisfies `(ir + input) * (or - p) >= ir * or`,
/// strictly when something is sold, because of the fee.
pub proof fn lemma_swap_keeps_product(input: u128, input_reserve: u128, output_reserve: u128)
    requires
        input_reserve > 0,
        output_reserve > 0,
    ensures
        (input_reserve + input) * (output_reserve - input_price_value(
            input as int,
            input_reserve as int,
            output_reserve as int,
        )) >= input_reserve * output_reserve,
        input > 0 ==> (input_reserve + input) * (output_reserve - input_price_value(
            input as int,
            input_reserve as int,
            output_reserve as int,
        )) > input_reserve * output_reserve,
{
    lemma_input_price_below_reserve(input, input_reserve, output_reserve);
    let a = input * 997;
    let d = input_reserve * 1000 + a;
    let x = a * output_reserve;
    assert(x >= 0) by (nonlinear_arith)
        requires
            a >= 0,
            output_reserve >= 0,
            x == a * output_reserve,
    ;
    lemma_div_bounds(x, d);
    let q = x / d;
    let i = input as int;
    let ir = input_reserve as int;
    let or = output_reserve as int;
    assert(q * (ir + i) <= i * or) by (nonlinear_arith)
        requires
            q * d <= x,
            x == a * or,
            a == i * 997,
            d == ir * 1000 + a,
            0 <= q < or,
            i >= 0,
    ;
    assert((ir + i) * (or - q) >= ir * or) by (nonlinear_arith)
        requires
            q * (ir + i) <= i * or,
    ;
    if i > 0 {
        assert(q * (ir + i) < i * or) by (nonlinear_arith)
            requires
                q * d <= x,
                x == a * or,
                a == i * 997,
                d == ir * 1000 + a,
                0 <= q < or,
                i > 0,
        ;
        assert((ir + i) * (or - q) > ir * or) by (nonlinear_arith)
            requires
                q * (ir + i) < i * or,
        ;
    }
}

/// Buying more never buys less: the price is monotone in the amount sold.
pub proof fn lemma_input_price_monotone(
    small: u128,
    large: u128,
    input_reserve: u128,
    output_reserve: u128,
)
    requires
        small <= large,
        input_reserve > 0,
        output_reserve > 0,
    ensures
        input_price_value(small as int, input_reserve as int, output_reserve as int)
            <= input_price_value(large as int, input_reserve as int, output_reserve as int),
{
    lemma_input_price_below_reserve(small, input_reserve, output_reserve);
    let ir = input_reserve as int;
    let or = output_reserve as int;
    let a1 = small * 997;
    let a2 = large * 997;
    let d1 = ir * 1000 + a1;
    let d2 = ir * 1000 + a2;
    let x1 = a1 * or;
    let x2 = a2 * or;
    assert(x1 >= 0 && x2 >= 0) by (nonlinear_arith)
        requires
            a1 >= 0,
            a2 >= 0,
            or >= 0,
            x1 == a1 * or,
            x2 == a2 * or,
    ;
    lemma_div_bounds(x1, d1);
    let q1 = x1 / d1;
    assert(q1 * d2 <= x2) by (nonlinear_arith)
        requires
            q1 * d1 <= x1,
            x1 == a1 * or,
            x2 == a2 * or,
            d1 == ir * 1000 + a1,
            d2 == ir * 1000 + a2,
            a1 <= a2,
            0 <= q1 < or,
    ;
    lemma_le_floor(q1, x2, d2);
}

} // verus!
