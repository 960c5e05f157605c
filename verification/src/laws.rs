//! Properties that hold of the pool across its operations.
use vstd::prelude::*;

use crate::chain::{amount_sent, expiration_passed, reached, BlockInfo, Coin, Env, Expiration};
use crate::contract::{spec_execute, spec_instantiate, spec_swap_native_for_token, Action};
use crate::error::ContractError;
use crate::math::{spec_liquidity_amount, spec_token_amount, spec_withdraw_amount, input_price_value, lemma_div_bounds, lemma_input_price_below_reserve, lemma_input_price_monotone, lemma_swap_keeps_product, spec_input_price};
use crate::msg::{ExecuteMsg, InstantiateMsg};
use crate::state::Pool;

verus! {

/// The expiration a message carries.
pub open spec fn msg_expiration(msg: ExecuteMsg) -> Option<Expiration> {
    match msg {
        ExecuteMsg::AddLiquidity { expiration, .. } => expiration,
        ExecuteMsg::RemoveLiquidity { expiration, .. } => expiration,
        ExecuteMsg::SwapToken1ForToken2 { expiration, .. } => expiration,
        ExecuteMsg::SwapToken2ForToken1 { expiration, .. } => expiration,
        ExecuteMsg::SwapTokenForToken { expiration, .. } => expiration,
        ExecuteMsg::SwapNativeForTokenTo { expiration, .. } => expiration,
    }
}

/// What a swap message sells to the pool: the native coins sent for a
/// purchase of tokens, the tokens named for a sale.
pub open spec fn amount_sold(msg: ExecuteMsg, funds: Seq<Coin>, denom: Seq<char>) -> int {
    match msg {
        ExecuteMsg::SwapToken1ForToken2 { .. } | ExecuteMsg::SwapNativeForTokenTo { .. } => match amount_sent(
            funds,
            denom,
        ) {
            Some(a) => a as int,
            None => 0,
        },
        ExecuteMsg::SwapToken2ForToken1 { token_amount, .. } => token_amount as int,
        ExecuteMsg::SwapTokenForToken { input_token_amount, .. } => input_token_amount as int,
        _ => 0,
    }
}

/// The pool after an accepted message.
pub open spec fn next_pool(res: Result<(Pool, Seq<Action>), ContractError>) -> Pool {
    res->Ok_0.0
}

/// The product of a pool's two reserves.
pub open spec fn reserves_product(pool: Pool) -> int {
    pool.token.native_reserve * pool.token.token_reserve
}

/// Whether a message trades one side of the pool against the other.
pub open spec fn is_swap(msg: ExecuteMsg) -> bool {
    ||| msg is SwapToken1ForToken2
    ||| msg is SwapToken2ForToken1
    ||| msg is SwapTokenForToken
    ||| msg is SwapNativeForTokenTo
}

/// Once reached, an expiration stays reached in every later block.
pub proof fn law_expiration_stays_reached(e: Expiration, earlier: BlockInfo, later: BlockInfo)
    requires
        reached(e, earlier),
        later.height >= earlier.height,
        later.time >= earlier.time,
    ensures
        reached(e, later),
{
}

/// A message whose expiration the current block has reached is refused with
/// `MsgExpirationError`, whatever else it asks.
pub proof fn law_expired_messages_are_refused(
    pool: Pool,
    env: Env,
    sender: String,
    funds: Seq<Coin>,
    sender_shares: u128,
    msg: ExecuteMsg,
)
    requires
        expiration_passed(msg_expiration(msg), env.block),
    ensures
        spec_execute(pool, env, sender, funds, sender_shares, msg) == Err::<
            (Pool, Seq<Action>),
            ContractError,
        >(ContractError::MsgExpirationError),
{
}

proof fn lemma_native_swap_keeps_product(
    pool: Pool,
    env: Env,
    funds: Seq<Coin>,
    recipient: String,
    min_token: u128,
    expiration: Option<Expiration>,
)
    requires
        spec_swap_native_for_token(pool, env, funds, recipient, min_token, expiration) is Ok,
    ensures
        spec_swap_native_for_token(pool, env, funds, recipient, min_token, expiration) matches Ok(
            (next, _),
        ) && reserves_product(next) >= reserves_product(pool) && next.lp_token_supply
            == pool.lp_token_supply && (amount_sent(funds, pool.token.native_denom@)->Some_0 > 0
            ==> reserves_product(next) > reserves_product(pool)),
{
    let t = pool.token;
    let native = amount_sent(funds, t.native_denom@).unwrap();
    lemma_swap_keeps_product(native, t.native_reserve, t.token_reserve);
    lemma_input_price_below_reserve(native, t.native_reserve, t.token_reserve);
}

/// A swap never lowers the product of the two reserves, and leaves the
/// number of shares as it was; when it sells anything the product strictly
/// grows: the fee stays in the pool for its share holders.
pub proof fn law_swaps_keep_constant_product(
    pool: Pool,
    env: Env,
    sender: String,
    funds: Seq<Coin>,
    sender_shares: u128,
    msg: ExecuteMsg,
)
    requires
        is_swap(msg),
        spec_execute(pool, env, sender, funds, sender_shares, msg) is Ok,
    ensures
        reserves_product(next_pool(spec_execute(pool, env, sender, funds, sender_shares, msg)))
            >= reserves_product(pool),
        next_pool(spec_execute(pool, env, sender, funds, sender_shares, msg)).lp_token_supply
            == pool.lp_token_supply,
        amount_sold(msg, funds, pool.token.native_denom@) > 0 ==> reserves_product(
            next_pool(spec_execute(pool, env, sender, funds, sender_shares, msg)),
        ) > reserves_product(pool),
{
    let t = pool.token;
    let next = next_pool(spec_execute(pool, env, sender, funds, sender_shares, msg));
    match msg {
        ExecuteMsg::SwapToken1ForToken2 { min_token, expiration } => {
            lemma_native_swap_keeps_product(pool, env, funds, sender, min_token, expiration);
            assert(next == next_pool(spec_swap_native_for_token(pool, env, funds, sender, min_token, expiration)));
            assert(reserves_product(next) >= reserves_product(pool));
        },
        ExecuteMsg::SwapNativeForTokenTo { recipient, min_token, expiration } => {
            lemma_native_swap_keeps_product(pool, env, funds, recipient, min_token, expiration);
            assert(next == next_pool(spec_swap_native_for_token(pool, env, funds, recipient, min_token, expiration)));
            assert(reserves_product(next) >= reserves_product(pool));
        },
        ExecuteMsg::SwapToken2ForToken1 { token_amount, .. } => {
            lemma_swap_keeps_product(token_amount, t.token_reserve, t.native_reserve);
            lemma_input_price_below_reserve(token_amount, t.token_reserve, t.native_reserve);
            let p = input_price_value(token_amount as int, t.token_reserve as int, t.native_reserve as int);
            let nr = next.token.native_reserve as int;
            let tr = next.token.token_reserve as int;
            assert(nr == t.native_reserve - p && tr == t.token_reserve + token_amount);
            assert(nr * tr >= t.native_reserve * t.token_reserve) by (nonlinear_arith)
                requires
                    nr == t.native_reserve - p,
                    tr == t.token_reserve + token_amount,
                    (t.token_reserve + token_amount) * (t.native_reserve - p) >= t.token_reserve
                        * t.native_reserve,
            ;
            if token_amount > 0 {
                assert(nr * tr > t.native_reserve * t.token_reserve) by (nonlinear_arith)
                    requires
                        nr == t.native_reserve - p,
                        tr == t.token_reserve + token_amount,
                        (t.token_reserve + token_amount) * (t.native_reserve - p) > t.token_reserve
                            * t.native_reserve,
                ;
            }
        },
        ExecuteMsg::SwapTokenForToken { input_token_amount, .. } => {
            lemma_swap_keeps_product(input_token_amount, t.token_reserve, t.native_reserve);
            lemma_input_price_below_reserve(input_token_amount, t.token_reserve, t.native_reserve);
            let p = input_price_value(input_token_amount as int, t.token_reserve as int, t.native_reserve as int);
            let nr = next.token.native_reserve as int;
            let tr = next.token.token_reserve as int;
            assert(nr == t.native_reserve - p && tr == t.token_reserve + input_token_amount);
            assert(nr * tr >= t.native_reserve * t.token_reserve) by (nonlinear_arith)
                requires
                    nr == t.native_reserve - p,
                    tr == t.token_reserve + input_token_amount,
                    (t.token_reserve + input_token_amount) * (t.native_reserve - p) >= t.token_reserve
                        * t.native_reserve,
            ;
            if input_token_amount > 0 {
                assert(nr * tr > t.native_reserve * t.token_reserve) by (nonlinear_arith)
                    requires
                        nr == t.native_reserve - p,
                        tr == t.token_reserve + input_token_amount,
                        (t.token_reserve + input_token_amount) * (t.native_reserve - p) > t.token_reserve
                            * t.native_reserve,
                ;
            }
        },
        _ => {},
    }
}

/// Native coins that an action takes out of the pool.
pub open spec fn native_out(a: Action) -> int {
    match a {
        Action::BankSend { amount, .. } => amount as int,
        Action::SwapNativeForTokenTo { amount, .. } => amount as int,
        _ => 0,
    }
}

/// Tokens that an action brings into the pool.
pub open spec fn tokens_in(a: Action) -> int {
    match a {
        Action::Cw20TransferFrom { amount, .. } => amount as int,
        _ => 0,
    }
}

/// Tokens that an action takes out of the pool.
pub open spec fn tokens_out(a: Action) -> int {
    match a {
        Action::Cw20Transfer { amount, .. } => amount as int,
        _ => 0,
    }
}

/// Shares that an action creates.
pub open spec fn shares_minted(a: Action) -> int {
    match a {
        Action::MintLiquidity { amount, .. } => amount as int,
        _ => 0,
    }
}

/// Shares that an action destroys.
pub open spec fn shares_burned(a: Action) -> int {
    match a {
        Action::BurnLiquidity { amount, .. } => amount as int,
        _ => 0,
    }
}

/// The sum of `f` over a list of actions.
pub open spec fn total(actions: Seq<Action>, f: spec_fn(Action) -> int) -> int
    decreases actions.len(),
{
    if actions.len() == 0 {
        0
    } else {
        f(actions[0]) + total(actions.drop_first(), f)
    }
}

/// Native coins that a message brings into the pool's reserve: the coins of
/// the pool's denomination sent with a deposit or a purchase of tokens.
pub open spec fn native_in(msg: ExecuteMsg, funds: Seq<Coin>, denom: Seq<char>) -> int {
    let sent = match amount_sent(funds, denom) {
        Some(a) => a as int,
        None => 0,
    };
    match msg {
        ExecuteMsg::AddLiquidity { .. } => sent,
        ExecuteMsg::SwapToken1ForToken2 { .. } => sent,
        ExecuteMsg::SwapNativeForTokenTo { .. } => sent,
        _ => 0,
    }
}

/// Every action moves only what the pool trades: cw20 moves are of the
/// pool's token, tokens drawn from allowances come to the pool itself, and
/// native coins leave in the pool's denomination.
pub open spec fn moves_only_pool_assets(actions: Seq<Action>, pool: Pool, env: Env) -> bool {
    forall|i: int|
        0 <= i < actions.len() ==> match #[trigger] actions[i] {
            Action::Cw20TransferFrom { contract, recipient, .. } => contract == pool.token.token_address
                && recipient == env.contract.address,
            Action::Cw20Transfer { contract, .. } => contract == pool.token.token_address,
            Action::BankSend { denom, .. } => denom == pool.token.native_denom,
            Action::SwapNativeForTokenTo { denom, .. } => denom == pool.token.native_denom,
            _ => true,
        }
}

proof fn lemma_total_two(a: Action, b: Action, f: spec_fn(Action) -> int)
    ensures
        total(seq![a, b], f) == f(a) + f(b),
{
    assert(seq![a, b].drop_first() =~= seq![b]);
    assert(seq![b].drop_first() =~= Seq::<Action>::empty());
    reveal_with_fuel(total, 3);
}

proof fn lemma_total_three(a: Action, b: Action, c: Action, f: spec_fn(Action) -> int)
    ensures
        total(seq![a, b, c], f) == f(a) + f(b) + f(c),
{
    assert(seq![a, b, c].drop_first() =~= seq![b, c]);
    lemma_total_two(b, c, f);
}

proof fn lemma_total_one(a: Action, f: spec_fn(Action) -> int)
    ensures
        total(seq![a], f) == f(a),
{
    assert(seq![a].drop_first() =~= Seq::<Action>::empty());
    reveal_with_fuel(total, 2);
}

/// The pool's books follow its transfers: after any accepted message, each
/// reserve has moved by exactly what came in minus what the actions pay
/// out, the share supply by exactly what was minted minus what was burned,
/// and the pool's denominations and token are unchanged.
pub proof fn law_reserves_follow_transfers(
    pool: Pool,
    env: Env,
    sender: String,
    funds: Seq<Coin>,
    sender_shares: u128,
    msg: ExecuteMsg,
)
    requires
        spec_execute(pool, env, sender, funds, sender_shares, msg) is Ok,
    ensures
        spec_execute(pool, env, sender, funds, sender_shares, msg) matches Ok((next, actions)) && {
            &&& next.token.native_reserve == pool.token.native_reserve + native_in(
                msg,
                funds,
                pool.token.native_denom@,
            ) - total(actions, |a: Action| native_out(a))
            &&& next.token.token_reserve == pool.token.token_reserve + total(
                actions,
                |a: Action| tokens_in(a),
            ) - total(actions, |a: Action| tokens_out(a))
            &&& next.lp_token_supply == pool.lp_token_supply + total(
                actions,
                |a: Action| shares_minted(a),
            ) - total(actions, |a: Action| shares_burned(a))
            &&& next.token.native_denom == pool.token.native_denom
            &&& next.token.token_address == pool.token.token_address
            &&& next.token.token_denom == pool.token.token_denom
            &&& moves_only_pool_assets(actions, pool, env)
        },
{
    let r = spec_execute(pool, env, sender, funds, sender_shares, msg);
    let actions = r->Ok_0.1;
    let fno = |a: Action| native_out(a);
    let fti = |a: Action| tokens_in(a);
    let fto = |a: Action| tokens_out(a);
    let fmi = |a: Action| shares_minted(a);
    let fbu = |a: Action| shares_burned(a);
    if actions.len() == 1 {
        lemma_total_one(actions[0], fno);
        lemma_total_one(actions[0], fti);
        lemma_total_one(actions[0], fto);
        lemma_total_one(actions[0], fmi);
        lemma_total_one(actions[0], fbu);
        assert(actions =~= seq![actions[0]]);
    } else if actions.len() == 2 {
        lemma_total_two(actions[0], actions[1], fno);
        lemma_total_two(actions[0], actions[1], fti);
        lemma_total_two(actions[0], actions[1], fto);
        lemma_total_two(actions[0], actions[1], fmi);
        lemma_total_two(actions[0], actions[1], fbu);
        assert(actions =~= seq![actions[0], actions[1]]);
    } else {
        lemma_total_three(actions[0], actions[1], actions[2], fno);
        lemma_total_three(actions[0], actions[1], actions[2], fti);
        lemma_total_three(actions[0], actions[1], actions[2], fto);
        lemma_total_three(actions[0], actions[1], actions[2], fmi);
        lemma_total_three(actions[0], actions[1], actions[2], fbu);
        assert(actions =~= seq![actions[0], actions[1], actions[2]]);
    }
    match msg {
        ExecuteMsg::SwapToken1ForToken2 { .. } | ExecuteMsg::SwapNativeForTokenTo { .. } => {
            let native = amount_sent(funds, pool.token.native_denom@).unwrap();
            lemma_input_price_below_reserve(native, pool.token.native_reserve, pool.token.token_reserve);
        },
        ExecuteMsg::SwapToken2ForToken1 { token_amount, .. } => {
            lemma_input_price_below_reserve(token_amount, pool.token.token_reserve, pool.token.native_reserve);
        },
        ExecuteMsg::SwapTokenForToken { input_token_amount, .. } => {
            lemma_input_price_below_reserve(
                input_token_amount,
                pool.token.token_reserve,
                pool.token.native_reserve,
            );
        },
        _ => {},
    }
}

/// The pool's reserves are empty while no share is outstanding, and its
/// native reserve is non-empty while some share is.
pub open spec fn pool_valid(pool: Pool) -> bool {
    &&& pool.lp_token_supply == 0 ==> pool.token.native_reserve == 0 && pool.token.token_reserve
        == 0
    &&& pool.lp_token_supply > 0 ==> pool.token.native_reserve > 0
}

/// A new pool is valid.
pub proof fn law_new_pool_is_valid(msg: InstantiateMsg)
    ensures
        pool_valid(spec_instantiate(msg)),
{
}

/// Redeeming fewer shares than exist leaves part of a non-empty reserve.
proof fn lemma_partial_withdraw_leaves_some(shares: u128, reserve: u128, supply: u128)
    requires
        0 < shares < supply,
        reserve > 0,
        shares * reserve <= u128::MAX,
    ensures
        shares * reserve / (supply as int) < reserve,
{
    let x = shares * reserve;
    assert(x >= 0) by (nonlinear_arith)
        requires
            x == shares * reserve,
            shares >= 0,
            reserve >= 0,
    ;
    lemma_div_bounds(x, supply as int);
    let q = x / (supply as int);
    assert(q < reserve) by (nonlinear_arith)
        requires
            q * supply <= x,
            x == shares * reserve,
            shares < supply,
            reserve > 0,
    ;
}

/// Redeeming every share empties a reserve exactly.
proof fn lemma_full_withdraw_takes_all(reserve: u128, supply: u128)
    requires
        supply > 0,
        supply * reserve <= u128::MAX,
    ensures
        supply * reserve / (supply as int) == reserve,
{
    let x = supply * reserve;
    assert(x == reserve * supply) by (nonlinear_arith)
        requires
            x == supply * reserve,
    ;
    lemma_div_bounds(x, supply as int);
    let q = x / (supply as int);
    assert(q == reserve) by (nonlinear_arith)
        requires
            q * supply <= x,
            x < q * supply + supply,
            x == reserve * supply,
            supply > 0,
    ;
}

/// Every accepted message keeps a valid pool valid.
pub proof fn law_execute_keeps_pool_valid(
    pool: Pool,
    env: Env,
    sender: String,
    funds: Seq<Coin>,
    sender_shares: u128,
    msg: ExecuteMsg,
)
    requires
        pool_valid(pool),
        spec_execute(pool, env, sender, funds, sender_shares, msg) is Ok,
    ensures
        pool_valid(next_pool(spec_execute(pool, env, sender, funds, sender_shares, msg))),
{
    let t = pool.token;
    let next = next_pool(spec_execute(pool, env, sender, funds, sender_shares, msg));
    match msg {
        ExecuteMsg::RemoveLiquidity { amount, .. } => {
            if amount < pool.lp_token_supply {
                lemma_partial_withdraw_leaves_some(amount, t.native_reserve, pool.lp_token_supply);
                assert(next.lp_token_supply > 0);
                assert(next.token.native_reserve > 0);
            } else {
                lemma_full_withdraw_takes_all(t.native_reserve, pool.lp_token_supply);
                lemma_full_withdraw_takes_all(t.token_reserve, pool.lp_token_supply);
                assert(next.lp_token_supply == 0);
                assert(next.token.native_reserve == 0);
                assert(next.token.token_reserve == 0);
            }
        },
        ExecuteMsg::SwapToken2ForToken1 { token_amount, .. } => {
            lemma_input_price_below_reserve(token_amount, t.token_reserve, t.native_reserve);
        },
        ExecuteMsg::SwapTokenForToken { input_token_amount, .. } => {
            lemma_input_price_below_reserve(input_token_amount, t.token_reserve, t.native_reserve);
        },
        ExecuteMsg::SwapToken1ForToken2 { .. } | ExecuteMsg::SwapNativeForTokenTo { .. } => {
            let native = amount_sent(funds, t.native_denom@).unwrap();
            lemma_input_price_below_reserve(native, t.native_reserve, t.token_reserve);
        },
        _ => {},
    }
}

/// A quotient is at most `m` when the dividend is at most `m` times the divisor.
proof fn lemma_floor_at_most(x: int, d: int, m: int)
    requires
        x >= 0,
        d > 0,
        x <= m * d,
    ensures
        x / d <= m,
{
    lemma_div_bounds(x, d);
    let q = x / d;
    assert(q <= m) by (nonlinear_arith)
        requires
            q * d <= x,
            x <= m * d,
            d > 0,
    ;
}

/// A deposit priced by the pool's rules adds at least as much to each
/// reserve, per share, as the reserve already backs.
proof fn lemma_deposit_backing(n: int, s: int, r: int, t: int, liq: int, tok: int)
    requires
        s > 0,
        r > 0,
        n >= 0,
        t >= 0,
        liq * r <= n * s,
        tok * r > n * t,
    ensures
        (r + n) * s >= r * (s + liq),
        (t + tok) * s >= t * (s + liq),
        t * liq <= tok * s,
{
    assert((r + n) * s >= r * (s + liq)) by (nonlinear_arith)
        requires
            liq * r <= n * s,
    ;
    assert(t * (liq * r) <= t * (n * s)) by (nonlinear_arith)
        requires
            liq * r <= n * s,
            t >= 0,
    ;
    assert((n * t) * s <= (tok * r) * s) by (nonlinear_arith)
        requires
            tok * r > n * t,
            s > 0,
    ;
    assert((t * liq) * r <= (tok * s) * r) by (nonlinear_arith)
        requires
            t * (liq * r) <= t * (n * s),
            (n * t) * s <= (tok * r) * s,
    ;
    assert(t * liq <= tok * s) by (nonlinear_arith)
        requires
            (t * liq) * r <= (tok * s) * r,
            r > 0,
    ;
    assert((t + tok) * s >= t * (s + liq)) by (nonlinear_arith)
        requires
            t * liq <= tok * s,
    ;
}

/// A redemption priced by the pool's rules takes from a reserve no more, per
/// share, than the reserve backs.
proof fn lemma_withdraw_backing(a: int, s: int, x: int, w: int)
    requires
        s > 0,
        w * s <= a * x,
    ensures
        (x - w) * s >= x * (s - a),
{
    assert((x - w) * s >= x * (s - a)) by (nonlinear_arith)
        requires
            w * s <= a * x,
    ;
}

/// The facts that the rounding of a deposit's pricing gives.
proof fn lemma_deposit_rounding(n: u128, s: u128, r: u128, t: u128)
    requires
        r > 0,
        n * s <= u128::MAX,
        n * t <= u128::MAX,
    ensures
        (n * s / (r as int)) * r <= n * s,
        (n * t / (r as int) + 1) * r > n * t,
{
    let xs = n * s;
    let xt = n * t;
    assert(xs >= 0 && xt >= 0) by (nonlinear_arith)
        requires
            xs == n * s,
            xt == n * t,
            n >= 0,
            s >= 0,
            t >= 0,
    ;
    lemma_div_bounds(xs, r as int);
    lemma_div_bounds(xt, r as int);
    let q = xt / (r as int);
    assert((q + 1) * r > xt) by (nonlinear_arith)
        requires
            xt < q * r + r,
    ;
}

/// Deposits and redemptions never lower what each share is backed by: after
/// either, each reserve per share is at least what it was.
pub proof fn law_liquidity_changes_keep_share_backing(
    pool: Pool,
    env: Env,
    sender: String,
    funds: Seq<Coin>,
    sender_shares: u128,
    msg: ExecuteMsg,
)
    requires
        pool_valid(pool),
        msg is AddLiquidity || msg is RemoveLiquidity,
        spec_execute(pool, env, sender, funds, sender_shares, msg) is Ok,
    ensures
        next_pool(spec_execute(pool, env, sender, funds, sender_shares, msg)).token.native_reserve
            * pool.lp_token_supply >= pool.token.native_reserve * next_pool(
            spec_execute(pool, env, sender, funds, sender_shares, msg),
        ).lp_token_supply,
        next_pool(spec_execute(pool, env, sender, funds, sender_shares, msg)).token.token_reserve
            * pool.lp_token_supply >= pool.token.token_reserve * next_pool(
            spec_execute(pool, env, sender, funds, sender_shares, msg),
        ).lp_token_supply,
{
    let t = pool.token;
    let s = pool.lp_token_supply;
    let next = next_pool(spec_execute(pool, env, sender, funds, sender_shares, msg));
    let nr = next.token.native_reserve as int;
    let nt = next.token.token_reserve as int;
    let ns = next.lp_token_supply as int;
    match msg {
        ExecuteMsg::AddLiquidity { .. } => {
            let n = amount_sent(funds, t.native_denom@).unwrap();
            if s == 0 {
                assert(nr * s == 0 && t.native_reserve * ns == 0);
                assert(nt * s == 0 && t.token_reserve * ns == 0);
            } else {
                lemma_deposit_rounding(n, s, t.native_reserve, t.token_reserve);
                let liq = n * s / (t.native_reserve as int);
                let tok = n * t.token_reserve / (t.native_reserve as int) + 1;
                lemma_deposit_backing(n as int, s as int, t.native_reserve as int, t.token_reserve as int, liq, tok);
                assert(nr == t.native_reserve + n && nt == t.token_reserve + tok && ns == s + liq);
            }
        },
        ExecuteMsg::RemoveLiquidity { amount, .. } => {
            lemma_div_bounds(amount * t.native_reserve, s as int);
            lemma_div_bounds(amount * t.token_reserve, s as int);
            let wn = amount * t.native_reserve / (s as int);
            let wt = amount * t.token_reserve / (s as int);
            assert(wn * s <= amount * t.native_reserve);
            lemma_withdraw_backing(amount as int, s as int, t.native_reserve as int, wn);
            lemma_withdraw_backing(amount as int, s as int, t.token_reserve as int, wt);
            assert(nr == t.native_reserve - wn && nt == t.token_reserve - wt && ns == s - amount);
        },
        _ => {},
    }
}

/// Depositing and then at once redeeming the shares the deposit minted never
/// pays back more native coins, nor more tokens, than were deposited.
pub proof fn law_deposit_then_redeem_returns_no_more(
    pool: Pool,
    env: Env,
    sender: String,
    funds: Seq<Coin>,
    sender_shares: u128,
    min_liquidity: u128,
    max_token: u128,
    expiration: Option<Expiration>,
    later_env: Env,
    later_funds: Seq<Coin>,
    later_shares: u128,
    min_native: u128,
    min_token: u128,
    later_expiration: Option<Expiration>,
)
    requires
        pool_valid(pool),
        spec_execute(
            pool,
            env,
            sender,
            funds,
            sender_shares,
            ExecuteMsg::AddLiquidity { min_liquidity, max_token, expiration },
        ) is Ok,
    ensures
        ({
            let deposit = ExecuteMsg::AddLiquidity { min_liquidity, max_token, expiration };
            let first = spec_execute(pool, env, sender, funds, sender_shares, deposit);
            let redeem = ExecuteMsg::RemoveLiquidity {
                amount: total(first->Ok_0.1, |a: Action| shares_minted(a)) as u128,
                min_native,
                min_token,
                expiration: later_expiration,
            };
            spec_execute(first->Ok_0.0, later_env, sender, later_funds, later_shares, redeem) matches Ok(
                (_, paid),
            ) ==> total(paid, |a: Action| native_out(a)) <= native_in(
                deposit,
                funds,
                pool.token.native_denom@,
            ) && total(paid, |a: Action| tokens_out(a)) <= total(
                first->Ok_0.1,
                |a: Action| tokens_in(a),
            )
        }),
{
    let deposit = ExecuteMsg::AddLiquidity { min_liquidity, max_token, expiration };
    let first = spec_execute(pool, env, sender, funds, sender_shares, deposit);
    let p1 = first->Ok_0.0;
    let a1 = first->Ok_0.1;
    let t = pool.token;
    let s = pool.lp_token_supply;
    let n = amount_sent(funds, t.native_denom@).unwrap();
    lemma_total_two(a1[0], a1[1], |a: Action| shares_minted(a));
    lemma_total_two(a1[0], a1[1], |a: Action| tokens_in(a));
    assert(a1 =~= seq![a1[0], a1[1]]);
    let liq = total(a1, |a: Action| shares_minted(a));
    let tok = total(a1, |a: Action| tokens_in(a));
    let r1 = p1.token.native_reserve as int;
    let t1 = p1.token.token_reserve as int;
    let s1 = p1.lp_token_supply as int;
    assert(r1 == t.native_reserve + n && t1 == t.token_reserve + tok && s1 == s + liq);
    assert(liq * r1 <= n * s1 && liq * t1 <= tok * s1) by {
        if s == 0 {
            assert(liq == n && t.native_reserve == 0 && t.token_reserve == 0);
            assert(liq * r1 == n * s1);
            assert(liq * t1 == tok * s1) by (nonlinear_arith)
                requires
                    liq == n,
                    t1 == tok,
                    s1 == liq,
            ;
        } else {
            lemma_deposit_rounding(n, s, t.native_reserve, t.token_reserve);
            let l = n * s / (t.native_reserve as int);
            let k = n * t.token_reserve / (t.native_reserve as int) + 1;
            lemma_deposit_backing(n as int, s as int, t.native_reserve as int, t.token_reserve as int, l, k);
            assert(liq == l && tok == k);
            assert(liq * r1 <= n * s1) by (nonlinear_arith)
                requires
                    liq * t.native_reserve <= n * s,
                    r1 == t.native_reserve + n,
                    s1 == s + liq,
            ;
            assert(liq * t1 <= tok * s1) by (nonlinear_arith)
                requires
                    t.token_reserve * liq <= tok * s,
                    t1 == t.token_reserve + tok,
                    s1 == s + liq,
            ;
        }
    }
    let redeem = ExecuteMsg::RemoveLiquidity {
        amount: liq as u128,
        min_native,
        min_token,
        expiration: later_expiration,
    };
    let second = spec_execute(p1, later_env, sender, later_funds, later_shares, redeem);
    if second is Ok {
        let paid = second->Ok_0.1;
        lemma_total_three(paid[0], paid[1], paid[2], |a: Action| native_out(a));
        lemma_total_three(paid[0], paid[1], paid[2], |a: Action| tokens_out(a));
        assert(paid =~= seq![paid[0], paid[1], paid[2]]);
        let xn = liq * r1;
        let xt = liq * t1;
        assert(xn >= 0 && xt >= 0) by (nonlinear_arith)
            requires
                xn == liq * r1,
                xt == liq * t1,
                liq >= 0,
                r1 >= 0,
                t1 >= 0,
        ;
        lemma_floor_at_most(xn, s1, n as int);
        lemma_floor_at_most(xt, s1, tok);
    }
}

/// The native-for-token quote is what a purchase of tokens pays: an
/// accepted purchase with `native` coins of the pool's denomination pays out
/// exactly the quote for `native`, and a purchase whose minimum does not
/// exceed an available quote is accepted unless its expiration has passed
/// or the native reserve would leave `u128`.
pub proof fn law_native_quote_is_what_a_purchase_pays(
    pool: Pool,
    env: Env,
    sender: String,
    funds: Seq<Coin>,
    sender_shares: u128,
    min_token: u128,
    expiration: Option<Expiration>,
    native: u128,
)
    requires
        amount_sent(funds, pool.token.native_denom@) == Some(native),
    ensures
        ({
            let res = spec_execute(
                pool,
                env,
                sender,
                funds,
                sender_shares,
                ExecuteMsg::SwapToken1ForToken2 { min_token, expiration },
            );
            let quote = spec_input_price(native, pool.token.native_reserve, pool.token.token_reserve);
            &&& res is Ok ==> quote is Ok && total(res->Ok_0.1, |a: Action| tokens_out(a))
                == quote->Ok_0
            &&& (quote is Ok && min_token <= quote->Ok_0 && !expiration_passed(expiration, env.block)
                && pool.token.native_reserve + native <= u128::MAX) ==> res is Ok
        }),
{
    let res = spec_execute(
        pool,
        env,
        sender,
        funds,
        sender_shares,
        ExecuteMsg::SwapToken1ForToken2 { min_token, expiration },
    );
    if res is Ok {
        lemma_total_one(res->Ok_0.1[0], |a: Action| tokens_out(a));
        assert(res->Ok_0.1 =~= seq![res->Ok_0.1[0]]);
    }
}

/// The token-for-native quote is what a sale of tokens pays: an accepted
/// sale of `token_amount` tokens pays out exactly the quote for it, and a
/// sale whose minimum does not exceed an available quote is accepted unless
/// its expiration has passed or the token reserve would leave `u128`.
pub proof fn law_token_quote_is_what_a_sale_pays(
    pool: Pool,
    env: Env,
    sender: String,
    funds: Seq<Coin>,
    sender_shares: u128,
    token_amount: u128,
    min_native: u128,
    expiration: Option<Expiration>,
)
    ensures
        ({
            let res = spec_execute(
                pool,
                env,
                sender,
                funds,
                sender_shares,
                ExecuteMsg::SwapToken2ForToken1 { token_amount, min_native, expiration },
            );
            let quote = spec_input_price(token_amount, pool.token.token_reserve, pool.token.native_reserve);
            &&& res is Ok ==> quote is Ok && total(res->Ok_0.1, |a: Action| native_out(a))
                == quote->Ok_0
            &&& (quote is Ok && min_native <= quote->Ok_0 && !expiration_passed(expiration, env.block)
                && pool.token.token_reserve + token_amount <= u128::MAX) ==> res is Ok
        }),
{
    let res = spec_execute(
        pool,
        env,
        sender,
        funds,
        sender_shares,
        ExecuteMsg::SwapToken2ForToken1 { token_amount, min_native, expiration },
    );
    if res is Ok {
        lemma_total_two(res->Ok_0.1[0], res->Ok_0.1[1], |a: Action| native_out(a));
        assert(res->Ok_0.1 =~= seq![res->Ok_0.1[0], res->Ok_0.1[1]]);
    }
}

/// Selling more never buys less: wherever two amounts can both be priced
/// against the same reserves, the larger buys at least as much.
pub proof fn law_larger_sales_buy_no_less(
    small: u128,
    large: u128,
    input_reserve: u128,
    output_reserve: u128,
)
    requires
        small <= large,
        spec_input_price(small, input_reserve, output_reserve) is Ok,
        spec_input_price(large, input_reserve, output_reserve) is Ok,
    ensures
        spec_input_price(small, input_reserve, output_reserve)->Ok_0 <= spec_input_price(
            large,
            input_reserve,
            output_reserve,
        )->Ok_0,
{
    lemma_input_price_monotone(small, large, input_reserve, output_reserve);
    lemma_input_price_below_reserve(small, input_reserve, output_reserve);
    lemma_input_price_below_reserve(large, input_reserve, output_reserve);
}

/// Every accepted message honours the limits it set: a deposit mints at
/// least `min_liquidity` shares and draws at most `max_token` tokens, a
/// redemption pays at least `min_native` and `min_token`, and a swap pays at
/// least its minimum.
pub proof fn law_accepted_messages_honour_their_limits(
    pool: Pool,
    env: Env,
    sender: String,
    funds: Seq<Coin>,
    sender_shares: u128,
    msg: ExecuteMsg,
)
    requires
        spec_execute(pool, env, sender, funds, sender_shares, msg) is Ok,
    ensures
        ({
            let actions = spec_execute(pool, env, sender, funds, sender_shares, msg)->Ok_0.1;
            match msg {
                ExecuteMsg::AddLiquidity { min_liquidity, max_token, .. } => total(
                    actions,
                    |a: Action| shares_minted(a),
                ) >= min_liquidity && total(actions, |a: Action| tokens_in(a)) <= max_token,
                ExecuteMsg::RemoveLiquidity { min_native, min_token, .. } => total(
                    actions,
                    |a: Action| native_out(a),
                ) >= min_native && total(actions, |a: Action| tokens_out(a)) >= min_token,
                ExecuteMsg::SwapToken1ForToken2 { min_token, .. } => total(
                    actions,
                    |a: Action| tokens_out(a),
                ) >= min_token,
                ExecuteMsg::SwapNativeForTokenTo { min_token, .. } => total(
                    actions,
                    |a: Action| tokens_out(a),
                ) >= min_token,
                ExecuteMsg::SwapToken2ForToken1 { min_native, .. } => total(
                    actions,
                    |a: Action| native_out(a),
                ) >= min_native,
                ExecuteMsg::SwapTokenForToken { .. } => true,
            }
        }),
{
    law_reserves_follow_transfers(pool, env, sender, funds, sender_shares, msg);
    let actions = spec_execute(pool, env, sender, funds, sender_shares, msg)->Ok_0.1;
    if actions.len() == 1 {
        lemma_total_one(actions[0], |a: Action| shares_minted(a));
        lemma_total_one(actions[0], |a: Action| tokens_in(a));
        lemma_total_one(actions[0], |a: Action| native_out(a));
        lemma_total_one(actions[0], |a: Action| tokens_out(a));
        assert(actions =~= seq![actions[0]]);
    } else if actions.len() == 2 {
        lemma_total_two(actions[0], actions[1], |a: Action| shares_minted(a));
        lemma_total_two(actions[0], actions[1], |a: Action| tokens_in(a));
        lemma_total_two(actions[0], actions[1], |a: Action| native_out(a));
        lemma_total_two(actions[0], actions[1], |a: Action| tokens_out(a));
        assert(actions =~= seq![actions[0], actions[1]]);
    } else {
        lemma_total_three(actions[0], actions[1], actions[2], |a: Action| shares_minted(a));
        lemma_total_three(actions[0], actions[1], actions[2], |a: Action| tokens_in(a));
        lemma_total_three(actions[0], actions[1], actions[2], |a: Action| native_out(a));
        lemma_total_three(actions[0], actions[1], actions[2], |a: Action| tokens_out(a));
        assert(actions =~= seq![actions[0], actions[1], actions[2]]);
    }
}

/// A sale is priced exactly when both reserves hold something and every
/// intermediate value of the price fits in `u128`; the price is then the
/// largest `p` with `p * (ir * 1000 + i * 997) <= i * 997 * or`.
pub proof fn law_price_is_defined_exactly_when_it_fits(input: u128, input_reserve: u128, output_reserve: u128)
    ensures
        (spec_input_price(input, input_reserve, output_reserve) is Ok) <==> (input_reserve > 0
            && output_reserve > 0 && input * 997 * output_reserve <= u128::MAX && input_reserve
            * 1000 + input * 997 <= u128::MAX),
        (input_reserve == 0 || output_reserve == 0) ==> spec_input_price(
            input,
            input_reserve,
            output_reserve,
        ) == Err::<u128, ContractError>(ContractError::NoLiquidityError),
        (input_reserve > 0 && output_reserve > 0 && !(input * 997 * output_reserve <= u128::MAX
            && input_reserve * 1000 + input * 997 <= u128::MAX)) ==> spec_input_price(
            input,
            input_reserve,
            output_reserve,
        ) == Err::<u128, ContractError>(ContractError::Overflow),
        spec_input_price(input, input_reserve, output_reserve) is Ok ==> {
            let p = spec_input_price(input, input_reserve, output_reserve)->Ok_0;
            &&& p * (input_reserve * 1000 + input * 997) <= input * 997 * output_reserve
            &&& input * 997 * output_reserve < (p + 1) * (input_reserve * 1000 + input * 997)
        },
{
    let i = input as int;
    let ir = input_reserve as int;
    let or = output_reserve as int;
    if ir > 0 && or > 0 {
        assert(i * 997 <= i * 997 * or) by (nonlinear_arith)
            requires
                i >= 0,
                or >= 1,
        ;
        assert(i * 997 * or >= 0) by (nonlinear_arith)
            requires
                i >= 0,
                or >= 0,
        ;
        let x = i * 997 * or;
        let d = ir * 1000 + i * 997;
        lemma_div_bounds(x, d);
        let q = x / d;
        assert((q + 1) * d == q * d + d) by (nonlinear_arith);
        if spec_input_price(input, input_reserve, output_reserve) is Ok {
            assert(q <= u128::MAX) by (nonlinear_arith)
                requires
                    q * d <= x,
                    x <= u128::MAX,
                    d >= 1,
                    q >= 0,
            ;
        }
    }
}

/// A deposit into a pool that has shares mints the floor of its proportion
/// of the supply: it is refused as an overflow only when `native * supply`
/// leaves `u128`, and mints the largest `q` with `q * reserve <= native *
/// supply`. A first deposit mints the native amount itself.
pub proof fn law_minted_shares_are_the_proportional_floor(native: u128, supply: u128, native_reserve: u128)
    ensures
        supply == 0 ==> spec_liquidity_amount(native, supply, native_reserve) == Ok::<
            u128,
            ContractError,
        >(native),
        (supply > 0 && native_reserve > 0) ==> ((spec_liquidity_amount(
            native,
            supply,
            native_reserve,
        ) is Ok) <==> native * supply <= u128::MAX),
        (supply > 0 && spec_liquidity_amount(native, supply, native_reserve) is Ok) ==> {
            let q = spec_liquidity_amount(native, supply, native_reserve)->Ok_0;
            &&& native_reserve > 0
            &&& q * native_reserve <= native * supply
            &&& native * supply < (q + 1) * native_reserve
        },
{
    if supply > 0 && native_reserve > 0 && native * supply <= u128::MAX {
        let x = native * supply;
        let d = native_reserve as int;
        assert(x >= 0) by (nonlinear_arith)
            requires
                x == native * supply,
                native >= 0,
                supply >= 0,
        ;
        lemma_div_bounds(x, d);
        let q = x / d;
        assert((q + 1) * d == q * d + d) by (nonlinear_arith);
        assert(q <= u128::MAX) by (nonlinear_arith)
            requires
                q * d <= x,
                x <= u128::MAX,
                d >= 1,
                q >= 0,
        ;
    }
}

/// A deposit into a pool that has shares must bring the proportion of the
/// token reserve rounded up by one: it is refused as an overflow only when
/// `native * token_reserve` or that amount leaves `u128`, and requires the
/// `q` with `(q - 1) * reserve <= native * token_reserve < q * reserve`. A
/// first deposit takes the caller's maximum.
pub proof fn law_required_tokens_follow_the_ratio(
    max_token: u128,
    native: u128,
    supply: u128,
    token_reserve: u128,
    native_reserve: u128,
)
    ensures
        supply == 0 ==> spec_token_amount(max_token, native, supply, token_reserve, native_reserve)
            == Ok::<u128, ContractError>(max_token),
        (supply > 0 && native_reserve > 0) ==> ((spec_token_amount(
            max_token,
            native,
            supply,
            token_reserve,
            native_reserve,
        ) is Ok) <==> (native * token_reserve <= u128::MAX && native * token_reserve / (
        native_reserve as int) < u128::MAX)),
        (supply > 0 && spec_token_amount(max_token, native, supply, token_reserve, native_reserve)
            is Ok) ==> {
            let q = spec_token_amount(max_token, native, supply, token_reserve, native_reserve)->Ok_0;
            &&& native_reserve > 0
            &&& (q - 1) * native_reserve <= native * token_reserve
            &&& native * token_reserve < q * native_reserve
        },
{
    if supply > 0 && native_reserve > 0 && native * token_reserve <= u128::MAX {
        let x = native * token_reserve;
        let d = native_reserve as int;
        assert(x >= 0) by (nonlinear_arith)
            requires
                x == native * token_reserve,
                native >= 0,
                token_reserve >= 0,
        ;
        lemma_div_bounds(x, d);
        let f = x / d;
        assert((f + 1) * d == f * d + d) by (nonlinear_arith);
    }
}

/// Redeeming shares pays the floor of their proportion of a reserve: it is
/// refused as an overflow only when `shares * reserve` leaves `u128`, and
/// pays the largest `q` with `q * supply <= shares * reserve`.
pub proof fn law_redeemed_amount_is_the_proportional_floor(shares: u128, reserve: u128, supply: u128)
    ensures
        supply > 0 ==> ((spec_withdraw_amount(shares, reserve, supply) is Ok) <==> shares * reserve
            <= u128::MAX),
        (supply == 0 && shares * reserve <= u128::MAX) ==> spec_withdraw_amount(
            shares,
            reserve,
            supply,
        ) == Err::<u128, ContractError>(ContractError::DivideByZero),
        spec_withdraw_amount(shares, reserve, supply) is Ok ==> {
            let q = spec_withdraw_amount(shares, reserve, supply)->Ok_0;
            &&& supply > 0
            &&& q * supply <= shares * reserve
            &&& shares * reserve < (q + 1) * supply
        },
{
    if supply > 0 && shares * reserve <= u128::MAX {
        let x = shares * reserve;
        let d = supply as int;
        assert(x >= 0) by (nonlinear_arith)
            requires
                x == shares * reserve,
                shares >= 0,
                reserve >= 0,
        ;
        lemma_div_bounds(x, d);
        let q = x / d;
        assert((q + 1) * d == q * d + d) by (nonlinear_arith);
        assert(q <= u128::MAX) by (nonlinear_arith)
            requires
                q * d <= x,
                x <= u128::MAX,
                d >= 1,
                q >= 0,
        ;
    }
}

/// A token-for-token swap does not judge its output minimum: whether it is
/// accepted, and the pool it leaves, are the same for every
/// `output_min_token`, which only travels to the output pool in the
/// forwarded purchase. It is accepted whenever its expiration has not
/// passed, its input can be priced here and the token reserve stays in
/// `u128`, and forwards exactly the native coins the input is priced at.
pub proof fn law_token_for_token_leaves_the_output_minimum_to_the_output_pool(
    pool: Pool,
    env: Env,
    sender: String,
    funds: Seq<Coin>,
    sender_shares: u128,
    output_address: String,
    input_token_amount: u128,
    output_min_token: u128,
    other_min_token: u128,
    expiration: Option<Expiration>,
)
    ensures
        ({
            let res = spec_execute(
                pool,
                env,
                sender,
                funds,
                sender_shares,
                ExecuteMsg::SwapTokenForToken {
                    output_arcswap_address: output_address,
                    input_token_amount,
                    output_min_token,
                    expiration,
                },
            );
            let other = spec_execute(
                pool,
                env,
                sender,
                funds,
                sender_shares,
                ExecuteMsg::SwapTokenForToken {
                    output_arcswap_address: output_address,
                    input_token_amount,
                    output_min_token: other_min_token,
                    expiration,
                },
            );
            let price = spec_input_price(
                input_token_amount,
                pool.token.token_reserve,
                pool.token.native_reserve,
            );
            &&& (!expiration_passed(expiration, env.block) && price is Ok
                && pool.token.token_reserve + input_token_amount <= u128::MAX) ==> res is Ok
            &&& (res is Ok <==> other is Ok)
            &&& res is Ok ==> next_pool(res) == next_pool(other)
            &&& res is Ok ==> {
                let actions = res->Ok_0.1;
                &&& actions.len() == 2
                &&& actions[1] == Action::SwapNativeForTokenTo {
                    contract: output_address,
                    recipient: sender,
                    min_token: output_min_token,
                    expiration,
                    denom: pool.token.native_denom,
                    amount: price->Ok_0,
                }
            }
        }),
{
}

/// A redemption of at most the sender's shares and at most the supply, with
/// both products in range and both minimums met by the proportional floors,
/// is accepted, burns the shares and pays those floors.
pub proof fn law_redemption_in_range_is_accepted(
    pool: Pool,
    env: Env,
    sender: String,
    funds: Seq<Coin>,
    sender_shares: u128,
    amount: u128,
    min_native: u128,
    min_token: u128,
    expiration: Option<Expiration>,
)
    requires
        !expiration_passed(expiration, env.block),
        0 < amount <= sender_shares,
        amount <= pool.lp_token_supply,
        amount * pool.token.native_reserve <= u128::MAX,
        amount * pool.token.token_reserve <= u128::MAX,
        min_native <= amount * pool.token.native_reserve / (pool.lp_token_supply as int),
        min_token <= amount * pool.token.token_reserve / (pool.lp_token_supply as int),
    ensures
        ({
            let res = spec_execute(
                pool,
                env,
                sender,
                funds,
                sender_shares,
                ExecuteMsg::RemoveLiquidity { amount, min_native, min_token, expiration },
            );
            &&& res is Ok
            &&& total(res->Ok_0.1, |a: Action| native_out(a)) == amount * pool.token.native_reserve
                / (pool.lp_token_supply as int)
            &&& total(res->Ok_0.1, |a: Action| tokens_out(a)) == amount * pool.token.token_reserve
                / (pool.lp_token_supply as int)
            &&& total(res->Ok_0.1, |a: Action| shares_burned(a)) == amount
            &&& next_pool(res).lp_token_supply == pool.lp_token_supply - amount
        }),
{
    let s = pool.lp_token_supply as int;
    let r = pool.token.native_reserve as int;
    let t = pool.token.token_reserve as int;
    let a = amount as int;
    assert(a * r >= 0 && a * t >= 0) by (nonlinear_arith)
        requires
            a >= 0,
            r >= 0,
            t >= 0,
    ;
    assert(a * r <= r * s && a * t <= t * s) by (nonlinear_arith)
        requires
            a <= s,
            r >= 0,
            t >= 0,
    ;
    lemma_floor_at_most(a * r, s, r);
    lemma_floor_at_most(a * t, s, t);
    let res = spec_execute(
        pool,
        env,
        sender,
        funds,
        sender_shares,
        ExecuteMsg::RemoveLiquidity { amount, min_native, min_token, expiration },
    );
    let acts = res->Ok_0.1;
    lemma_total_three(acts[0], acts[1], acts[2], |x: Action| native_out(x));
    lemma_total_three(acts[0], acts[1], acts[2], |x: Action| tokens_out(x));
    lemma_total_three(acts[0], acts[1], acts[2], |x: Action| shares_burned(x));
    assert(acts =~= seq![acts[0], acts[1], acts[2]]);
}

/// A deposit into a pool that has shares is accepted whenever the native
/// coins are sent, the products and sums stay in `u128`, the proportional
/// shares are positive and at least `min_liquidity`, and the required tokens
/// are at most `max_token`; it then mints the floor of the proportion of the
/// supply and draws the proportion of the token reserve rounded up by one.
pub proof fn law_deposit_in_range_is_accepted(
    pool: Pool,
    env: Env,
    sender: String,
    funds: Seq<Coin>,
    sender_shares: u128,
    native: u128,
    min_liquidity: u128,
    max_token: u128,
    expiration: Option<Expiration>,
)
    requires
        !expiration_passed(expiration, env.block),
        amount_sent(funds, pool.token.native_denom@) == Some(native),
        pool.lp_token_supply > 0,
        pool.token.native_reserve > 0,
        native * pool.lp_token_supply <= u128::MAX,
        native * pool.token.token_reserve <= u128::MAX,
        ({
            let liq = native * pool.lp_token_supply / (pool.token.native_reserve as int);
            let tok = native * pool.token.token_reserve / (pool.token.native_reserve as int) + 1;
            &&& tok <= max_token
            &&& 0 < liq
            &&& min_liquidity <= liq
            &&& pool.token.token_reserve + tok <= u128::MAX
            &&& pool.token.native_reserve + native <= u128::MAX
            &&& pool.lp_token_supply + liq <= u128::MAX
        }),
    ensures
        ({
            let res = spec_execute(
                pool,
                env,
                sender,
                funds,
                sender_shares,
                ExecuteMsg::AddLiquidity { min_liquidity, max_token, expiration },
            );
            &&& res is Ok
            &&& total(res->Ok_0.1, |a: Action| shares_minted(a)) == native * pool.lp_token_supply
                / (pool.token.native_reserve as int)
            &&& total(res->Ok_0.1, |a: Action| tokens_in(a)) == native * pool.token.token_reserve
                / (pool.token.native_reserve as int) + 1
            &&& next_pool(res).token.native_reserve == pool.token.native_reserve + native
        }),
{
    law_minted_shares_are_the_proportional_floor(native, pool.lp_token_supply, pool.token.native_reserve);
    let res = spec_execute(
        pool,
        env,
        sender,
        funds,
        sender_shares,
        ExecuteMsg::AddLiquidity { min_liquidity, max_token, expiration },
    );
    let acts = res->Ok_0.1;
    lemma_total_two(acts[0], acts[1], |x: Action| shares_minted(x));
    lemma_total_two(acts[0], acts[1], |x: Action| tokens_in(x));
    assert(acts =~= seq![acts[0], acts[1]]);
}

/// Who is paid tokens by a message: the named recipient of a purchase for
/// someone else, the sender otherwise.
pub open spec fn token_payee(msg: ExecuteMsg, sender: String) -> String {
    match msg {
        ExecuteMsg::SwapNativeForTokenTo { recipient, .. } => recipient,
        _ => sender,
    }
}

/// Every action of an accepted message involves the right party: tokens are
/// drawn only from the sender, tokens are paid to the message's payee,
/// native coins and forwarded purchases go to the sender, and shares are
/// minted for and burned from the sender.
pub open spec fn actions_involve_the_right_parties(
    actions: Seq<Action>,
    msg: ExecuteMsg,
    sender: String,
) -> bool {
    forall|i: int|
        0 <= i < actions.len() ==> match #[trigger] actions[i] {
            Action::Cw20TransferFrom { owner, .. } => owner == sender,
            Action::Cw20Transfer { recipient, .. } => recipient == token_payee(msg, sender),
            Action::BankSend { to_address, .. } => to_address == sender,
            Action::MintLiquidity { recipient, .. } => recipient == sender,
            Action::BurnLiquidity { owner, .. } => owner == sender,
            Action::SwapNativeForTokenTo { recipient, .. } => recipient == sender,
        }
}

/// Accepted messages draw from, pay and credit only the parties they name.
pub proof fn law_accepted_messages_involve_the_right_parties(
    pool: Pool,
    env: Env,
    sender: String,
    funds: Seq<Coin>,
    sender_shares: u128,
    msg: ExecuteMsg,
)
    requires
        spec_execute(pool, env, sender, funds, sender_shares, msg) is Ok,
    ensures
        actions_involve_the_right_parties(
            spec_execute(pool, env, sender, funds, sender_shares, msg)->Ok_0.1,
            msg,
            sender,
        ),
{
}

/// Buying tokens for oneself is buying tokens paid to oneself: a purchase
/// naming the sender as recipient has the outcome of a plain purchase.
pub proof fn law_purchase_for_oneself_is_a_plain_purchase(
    pool: Pool,
    env: Env,
    sender: String,
    funds: Seq<Coin>,
    sender_shares: u128,
    min_token: u128,
    expiration: Option<Expiration>,
)
    ensures
        spec_execute(
            pool,
            env,
            sender,
            funds,
            sender_shares,
            ExecuteMsg::SwapNativeForTokenTo { recipient: sender, min_token, expiration },
        ) == spec_execute(
            pool,
            env,
            sender,
            funds,
            sender_shares,
            ExecuteMsg::SwapToken1ForToken2 { min_token, expiration },
        ),
{
}

} // verus!
