use vstd::prelude::*;

use crate::chain::{amount_sent, check_expired, expiration_passed, find_amount, Env, Expiration, MessageInfo};
use crate::error::ContractError;
use crate::math::{
    get_input_price, get_liquidity_amount, get_token_amount, get_withdraw_amount,
    spec_input_price, spec_liquidity_amount, spec_token_amount, spec_withdraw_amount,
};
use crate::msg::{
    ExecuteMsg, InfoResponse, InstantiateMsg, NativeForTokenPriceResponse,
    TokenForNativePriceResponse,
};
use crate::state::{set_amounts, with_amounts, Pool, Token};

verus! {

/// A transfer or call that the chain must carry out for the pool once a
/// message is accepted.
#[derive(Clone, Debug, PartialEq, Eq)]
pub enum Action {
    /// Move `amount` tokens of the cw20 contract `contract` from `owner` to
    /// `recipient`, under the allowance that `owner` gave the pool.
    Cw20TransferFrom { contract: String, owner: String, recipient: String, amount: u128 },
    /// Move `amount` of the pool's own tokens of `contract` to `recipient`.
    Cw20Transfer { contract: String, recipient: String, amount: u128 },
    /// Send `amount` native coins of `denom` from the pool to `to_address`.
    BankSend { to_address: String, denom: String, amount: u128 },
    /// Create `amount` liquidity shares for `recipient`.
    MintLiquidity { recipient: String, amount: u128 },
    /// Destroy `amount` liquidity shares of `owner`.
    BurnLiquidity { owner: String, amount: u128 },
    /// Ask the pool at `contract`, sending it `amount` native coins of
    /// `denom`, to sell them for its token, paid to `recipient`.
    SwapNativeForTokenTo {
        contract: String,
        recipient: String,
        min_token: u128,
        expiration: Option<Expiration>,
        denom: String,
        amount: u128,
    },
}

/// An accepted message: the pool's next state and what the chain must do.
#[derive(Clone, Debug, PartialEq, Eq)]
pub struct Outcome {
    pub pool: Pool,
    pub actions: Vec<Action>,
}

/// An outcome with its actions taken as a sequence.
pub open spec fn outcome_view(res: Result<Outcome, ContractError>) -> Result<(Pool, Seq<Action>), ContractError> {
    match res {
        Ok(out) => Ok((out.pool, out.actions@)),
        Err(e) => Err(e),
    }
}

/// A new pool: both reserves empty, no share issued.
pub open spec fn spec_instantiate(msg: InstantiateMsg) -> Pool {
    Pool {
        token: Token {
            native_reserve: 0,
            native_denom: msg.native_denom,
            token_address: msg.token_address,
            token_denom: msg.token_denom,
            token_reserve: 0,
        },
        lp_token_supply: 0,
    }
}

/// Sets up a pool.
pub fn instantiate(msg: InstantiateMsg) -> (pool: Pool)
    ensures
        pool == spec_instantiate(msg),
{
    Pool {
        token: Token {
            native_reserve: 0,
            native_denom: msg.native_denom,
            token_address: msg.token_address,
            token_denom: msg.token_denom,
            token_reserve: 0,
        },
        lp_token_supply: 0,
    }
}

/// Depositing the native coins sent, with the tokens that match them, for
/// liquidity shares.
pub open spec fn spec_add_liquidity(
    pool: Pool,
    env: Env,
    sender: String,
    funds: Seq<crate::chain::Coin>,
    min_liquidity: u128,
    max_token: u128,
    expiration: Option<Expiration>,
) -> Result<(Pool, Seq<Action>), ContractError> {
    let t = pool.token;
    if expiration_passed(expiration, env.block) {
        Err(ContractError::MsgExpirationError)
    } else {
        match amount_sent(funds, t.native_denom@) {
            None => Err(ContractError::NoNativeFunds { required: t.native_denom }),
            Some(native) => match spec_liquidity_amount(native, pool.lp_token_supply, t.native_reserve) {
                Err(e) => Err(e),
                Ok(liquidity) => match spec_token_amount(
                    max_token,
                    native,
                    pool.lp_token_supply,
                    t.token_reserve,
                    t.native_reserve,
                ) {
                    Err(e) => Err(e),
                    Ok(tokens) => if liquidity < min_liquidity {
                        Err(
                            ContractError::MinLiquidityError {
                                min_liquidity,
                                liquidity_available: liquidity,
                            },
                        )
                    } else if tokens > max_token {
                        Err(ContractError::MaxTokenError { max_token, tokens_required: tokens })
                    } else if t.token_reserve + tokens > u128::MAX || t.native_reserve + native
                        > u128::MAX {
                        Err(ContractError::Overflow)
                    } else if liquidity == 0 {
                        Err(ContractError::InvalidZeroAmount)
                    } else if pool.lp_token_supply + liquidity > u128::MAX {
                        Err(ContractError::Overflow)
                    } else {
                        Ok(
                            (
                                with_amounts(
                                    pool,
                                    (t.native_reserve + native) as u128,
                                    (t.token_reserve + tokens) as u128,
                                    (pool.lp_token_supply + liquidity) as u128,
                                ),
                                seq![
                                    Action::Cw20TransferFrom {
                                        contract: t.token_address,
                                        owner: sender,
                                        recipient: env.contract.address,
                                        amount: tokens,
                                    },
                                    Action::MintLiquidity { recipient: sender, amount: liquidity },
                                ],
                            ),
                        )
                    },
                },
            },
        }
    }
}

/// Deposits liquidity: the native coins sent and the matching tokens, for
/// new shares.
pub fn execute_add_liquidity(
    pool: &Pool,
    env: &Env,
    info: &MessageInfo,
    min_liquidity: u128,
    max_token: u128,
    expiration: Option<Expiration>,
) -> (res: Result<Outcome, ContractError>)
    ensures
        outcome_view(res) == spec_add_liquidity(
            *pool,
            *env,
            info.sender,
            info.funds@,
            min_liquidity,
            max_token,
            expiration,
        ),
{
    if check_expired(&expiration, &env.block) {
        return Err(ContractError::MsgExpirationError);
    }
    let native = match find_amount(&info.funds, &pool.token.native_denom) {
        Some(a) => a,
        None => {
            return Err(ContractError::NoNativeFunds { required: pool.token.native_denom.clone() })
        },
    };
    let liquidity = match get_liquidity_amount(
        native,
        pool.lp_token_supply,
        pool.token.native_reserve,
    ) {
        Ok(v) => v,
        Err(e) => return Err(e),
    };
    let tokens = match get_token_amount(
        max_token,
        native,
        pool.lp_token_supply,
        pool.token.token_reserve,
        pool.token.native_reserve,
    ) {
        Ok(v) => v,
        Err(e) => return Err(e),
    };
    if liquidity < min_liquidity {
        return Err(
            ContractError::MinLiquidityError { min_liquidity, liquidity_available: liquidity },
        );
    }
    if tokens > max_token {
        return Err(ContractError::MaxTokenError { max_token, tokens_required: tokens });
    }
    let token_reserve = match pool.token.token_reserve.checked_add(tokens) {
        Some(v) => v,
        None => return Err(ContractError::Overflow),
    };
    let native_reserve = match pool.token.native_reserve.checked_add(native) {
        Some(v) => v,
        None => return Err(ContractError::Overflow),
    };
    if liquidity == 0 {
        return Err(ContractError::InvalidZeroAmount);
    }
    let supply = match pool.lp_token_supply.checked_add(liquidity) {
        Some(v) => v,
        None => return Err(ContractError::Overflow),
    };
    let mut actions: Vec<Action> = Vec::new();
    actions.push(
        Action::Cw20TransferFrom {
            contract: pool.token.token_address.clone(),
            owner: info.sender.clone(),
            recipient: env.contract.address.clone(),
            amount: tokens,
        },
    );
    actions.push(Action::MintLiquidity { recipient: info.sender.clone(), amount: liquidity });
    let new_pool = set_amounts(pool, native_reserve, token_reserve, supply);
    assert(actions@ =~= seq![
        Action::Cw20TransferFrom {
            contract: pool.token.token_address,
            owner: info.sender,
            recipient: env.contract.address,
            amount: tokens,
        },
        Action::MintLiquidity { recipient: info.sender, amount: liquidity },
    ]);
    Ok(Outcome { pool: new_pool, actions })
}

/// Redeeming `amount` shares for their proportion of both reserves.
pub open spec fn spec_remove_liquidity(
    pool: Pool,
    env: Env,
    sender: String,
    sender_shares: u128,
    amount: u128,
    min_native: u128,
    min_token: u128,
    expiration: Option<Expiration>,
) -> Result<(Pool, Seq<Action>), ContractError> {
    let t = pool.token;
    if expiration_passed(expiration, env.block) {
        Err(ContractError::MsgExpirationError)
    } else if amount > sender_shares {
        Err(ContractError::InsufficientLiquidityError { requested: amount, available: sender_shares })
    } else {
        match spec_withdraw_amount(amount, t.native_reserve, pool.lp_token_supply) {
            Err(e) => Err(e),
            Ok(native) => if native < min_native {
                Err(ContractError::MinNative { min_native, native_available: native })
            } else {
                match spec_withdraw_amount(amount, t.token_reserve, pool.lp_token_supply) {
                    Err(e) => Err(e),
                    Ok(tokens) => if tokens < min_token {
                        Err(ContractError::MinToken { min_token, tokens_available: tokens })
                    } else if native > t.native_reserve || tokens > t.token_reserve {
                        Err(ContractError::Overflow)
                    } else if amount == 0 {
                        Err(ContractError::InvalidZeroAmount)
                    } else if amount > pool.lp_token_supply {
                        Err(ContractError::Overflow)
                    } else {
                        Ok(
                            (
                                with_amounts(
                                    pool,
                                    (t.native_reserve - native) as u128,
                                    (t.token_reserve - tokens) as u128,
                                    (pool.lp_token_supply - amount) as u128,
                                ),
                                seq![
                                    Action::BurnLiquidity { owner: sender, amount },
                                    Action::BankSend {
                                        to_address: sender,
                                        denom: t.native_denom,
                                        amount: native,
                                    },
                                    Action::Cw20Transfer {
                                        contract: t.token_address,
                                        recipient: sender,
                                        amount: tokens,
                                    },
                                ],
                            ),
                        )
                    },
                }
            },
        }
    }
}

/// Redeems `amount` of the sender's shares, who holds `sender_shares`.
pub fn execute_remove_liquidity(
    pool: &Pool,
    env: &Env,
    info: &MessageInfo,
    sender_shares: u128,
    amount: u128,
    min_native: u128,
    min_token: u128,
    expiration: Option<Expiration>,
) -> (res: Result<Outcome, ContractError>)
    ensures
        outcome_view(res) == spec_remove_liquidity(
            *pool,
            *env,
            info.sender,
            sender_shares,
            amount,
            min_native,
            min_token,
            expiration,
        ),
{
    if check_expired(&expiration, &env.block) {
        return Err(ContractError::MsgExpirationError);
    }
    if amount > sender_shares {
        return Err(
            ContractError::InsufficientLiquidityError { requested: amount, available: sender_shares },
        );
    }
    let native = match get_withdraw_amount(amount, pool.token.native_reserve, pool.lp_token_supply) {
        Ok(v) => v,
        Err(e) => return Err(e),
    };
    if native < min_native {
        return Err(ContractError::MinNative { min_native, native_available: native });
    }
    let tokens = match get_withdraw_amount(amount, pool.token.token_reserve, pool.lp_token_supply) {
        Ok(v) => v,
        Err(e) => return Err(e),
    };
    if tokens < min_token {
        return Err(ContractError::MinToken { min_token, tokens_available: tokens });
    }
    let native_reserve = match pool.token.native_reserve.checked_sub(native) {
        Some(v) => v,
        None => return Err(ContractError::Overflow),
    };
    let token_reserve = match pool.token.token_reserve.checked_sub(tokens) {
        Some(v) => v,
        None => return Err(ContractError::Overflow),
    };
    if amount == 0 {
        return Err(ContractError::InvalidZeroAmount);
    }
    let supply = match pool.lp_token_supply.checked_sub(amount) {
        Some(v) => v,
        None => return Err(ContractError::Overflow),
    };
    let mut actions: Vec<Action> = Vec::new();
    actions.push(Action::BurnLiquidity { owner: info.sender.clone(), amount });
    actions.push(
        Action::BankSend {
            to_address: info.sender.clone(),
            denom: pool.token.native_denom.clone(),
            amount: native,
        },
    );
    actions.push(
        Action::Cw20Transfer {
            contract: pool.token.token_address.clone(),
            recipient: info.sender.clone(),
            amount: tokens,
        },
    );
    let new_pool = set_amounts(pool, native_reserve, token_reserve, supply);
    assert(actions@ =~= seq![
        Action::BurnLiquidity { owner: info.sender, amount },
        Action::BankSend { to_address: info.sender, denom: pool.token.native_denom, amount: native },
        Action::Cw20Transfer {
            contract: pool.token.token_address,
            recipient: info.sender,
            amount: tokens,
        },
    ]);
    Ok(Outcome { pool: new_pool, actions })
}

/// Selling the native coins sent for tokens paid to `recipient`.
pub open spec fn spec_swap_native_for_token(
    pool: Pool,
    env: Env,
    funds: Seq<crate::chain::Coin>,
    recipient: String,
    min_token: u128,
    expiration: Option<Expiration>,
) -> Result<(Pool, Seq<Action>), ContractError> {
    let t = pool.token;
    if expiration_passed(expiration, env.block) {
        Err(ContractError::MsgExpirationError)
    } else {
        match amount_sent(funds, t.native_denom@) {
            None => Err(ContractError::NoNativeFunds { required: t.native_denom }),
            Some(native) => match spec_input_price(native, t.native_reserve, t.token_reserve) {
                Err(e) => Err(e),
                Ok(bought) => if min_token > bought {
                    Err(ContractError::SwapMinError { min: min_token, available: bought })
                } else if t.native_reserve + native > u128::MAX {
                    Err(ContractError::Overflow)
                } else {
                    Ok(
                        (
                            with_amounts(
                                pool,
                                (t.native_reserve + native) as u128,
                                (t.token_reserve - bought) as u128,
                                pool.lp_token_supply,
                            ),
                            seq![
                                Action::Cw20Transfer {
                                    contract: t.token_address,
                                    recipient,
                                    amount: bought,
                                },
                            ],
                        ),
                    )
                },
            },
        }
    }
}

/// Sells the native coins sent for tokens, paid to `recipient`.
pub fn execute_swap_native_for_token(
    pool: &Pool,
    env: &Env,
    info: &MessageInfo,
    recipient: String,
    min_token: u128,
    expiration: Option<Expiration>,
) -> (res: Result<Outcome, ContractError>)
    ensures
        outcome_view(res) == spec_swap_native_for_token(
            *pool,
            *env,
            info.funds@,
            recipient,
            min_token,
            expiration,
        ),
{
    if check_expired(&expiration, &env.block) {
        return Err(ContractError::MsgExpirationError);
    }
    let native = match find_amount(&info.funds, &pool.token.native_denom) {
        Some(a) => a,
        None => {
            return Err(ContractError::NoNativeFunds { required: pool.token.native_denom.clone() })
        },
    };
    let bought = match get_input_price(native, pool.token.native_reserve, pool.token.token_reserve) {
        Ok(v) => v,
        Err(e) => return Err(e),
    };
    if min_token > bought {
        return Err(ContractError::SwapMinError { min: min_token, available: bought });
    }
    let native_reserve = match pool.token.native_reserve.checked_add(native) {
        Some(v) => v,
        None => return Err(ContractError::Overflow),
    };
    proof {
        crate::math::lemma_input_price_below_reserve(
            native,
            pool.token.native_reserve,
            pool.token.token_reserve,
        );
    }
    let token_reserve = pool.token.token_reserve - bought;
    let mut actions: Vec<Action> = Vec::new();
    actions.push(
        Action::Cw20Transfer {
            contract: pool.token.token_address.clone(),
            recipient,
            amount: bought,
        },
    );
    let new_pool = set_amounts(pool, native_reserve, token_reserve, pool.lp_token_supply);
    assert(actions@ =~= seq![
        Action::Cw20Transfer { contract: pool.token.token_address, recipient, amount: bought },
    ]);
    Ok(Outcome { pool: new_pool, actions })
}

/// Selling `token_amount` tokens, drawn from the sender's allowance, for
/// native coins paid to the sender.
pub open spec fn spec_swap_token_for_native(
    pool: Pool,
    env: Env,
    sender: String,
    token_amount: u128,
    min_native: u128,
    expiration: Option<Expiration>,
) -> Result<(Pool, Seq<Action>), ContractError> {
    let t = pool.token;
    if expiration_passed(expiration, env.block) {
        Err(ContractError::MsgExpirationError)
    } else {
        match spec_input_price(token_amount, t.token_reserve, t.native_reserve) {
            Err(e) => Err(e),
            Ok(bought) => if min_native > bought {
                Err(ContractError::SwapMinError { min: min_native, available: bought })
            } else if t.token_reserve + token_amount > u128::MAX {
                Err(ContractError::Overflow)
            } else {
                Ok(
                    (
                        with_amounts(
                            pool,
                            (t.native_reserve - bought) as u128,
                            (t.token_reserve + token_amount) as u128,
                            pool.lp_token_supply,
                        ),
                        seq![
                            Action::Cw20TransferFrom {
                                contract: t.token_address,
                                owner: sender,
                                recipient: env.contract.address,
                                amount: token_amount,
                            },
                            Action::BankSend {
                                to_address: sender,
                                denom: t.native_denom,
                                amount: bought,
                            },
                        ],
                    ),
                )
            },
        }
    }
}

/// Sells `token_amount` of the sender's tokens for native coins.
pub fn execute_swap_token_for_native(
    pool: &Pool,
    env: &Env,
    info: &MessageInfo,
    token_amount: u128,
    min_native: u128,
    expiration: Option<Expiration>,
) -> (res: Result<Outcome, ContractError>)
    ensures
        outcome_view(res) == spec_swap_token_for_native(
            *pool,
            *env,
            info.sender,
            token_amount,
            min_native,
            expiration,
        ),
{
    if check_expired(&expiration, &env.block) {
        return Err(ContractError::MsgExpirationError);
    }
    let bought = match get_input_price(
        token_amount,
        pool.token.token_reserve,
        pool.token.native_reserve,
    ) {
        Ok(v) => v,
        Err(e) => return Err(e),
    };
    if min_native > bought {
        return Err(ContractError::SwapMinError { min: min_native, available: bought });
    }
    let token_reserve = match pool.token.token_reserve.checked_add(token_amount) {
        Some(v) => v,
        None => return Err(ContractError::Overflow),
    };
    proof {
        crate::math::lemma_input_price_below_reserve(
            token_amount,
            pool.token.token_reserve,
            pool.token.native_reserve,
        );
    }
    let native_reserve = pool.token.native_reserve - bought;
    let mut actions: Vec<Action> = Vec::new();
    actions.push(
        Action::Cw20TransferFrom {
            contract: pool.token.token_address.clone(),
            owner: info.sender.clone(),
            recipient: env.contract.address.clone(),
            amount: token_amount,
        },
    );
    actions.push(
        Action::BankSend {
            to_address: info.sender.clone(),
            denom: pool.token.native_denom.clone(),
            amount: bought,
        },
    );
    let new_pool = set_amounts(pool, native_reserve, token_reserve, pool.lp_token_supply);
    assert(actions@ =~= seq![
        Action::Cw20TransferFrom {
            contract: pool.token.token_address,
            owner: info.sender,
            recipient: env.contract.address,
            amount: token_amount,
        },
        Action::BankSend { to_address: info.sender, denom: pool.token.native_denom, amount: bought },
    ]);
    Ok(Outcome { pool: new_pool, actions })
}

/// Selling tokens for native coins here, and forwarding those coins to the
/// pool at `output_address` to buy its token for the sender.
pub open spec fn spec_swap_token_for_token(
    pool: Pool,
    env: Env,
    sender: String,
    output_address: String,
    input_token_amount: u128,
    output_min_token: u128,
    expiration: Option<Expiration>,
) -> Result<(Pool, Seq<Action>), ContractError> {
    let t = pool.token;
    if expiration_passed(expiration, env.block) {
        Err(ContractError::MsgExpirationError)
    } else {
        match spec_input_price(input_token_amount, t.token_reserve, t.native_reserve) {
            Err(e) => Err(e),
            Ok(native) => if t.token_reserve + input_token_amount > u128::MAX {
                Err(ContractError::Overflow)
            } else {
                Ok(
                    (
                        with_amounts(
                            pool,
                            (t.native_reserve - native) as u128,
                            (t.token_reserve + input_token_amount) as u128,
                            pool.lp_token_supply,
                        ),
                        seq![
                            Action::Cw20TransferFrom {
                                contract: t.token_address,
                                owner: sender,
                                recipient: env.contract.address,
                                amount: input_token_amount,
                            },
                            Action::SwapNativeForTokenTo {
                                contract: output_address,
                                recipient: sender,
                                min_token: output_min_token,
                                expiration,
                                denom: t.native_denom,
                                amount: native,
                            },
                        ],
                    ),
                )
            },
        }
    }
}

/// Swaps the sender's tokens for the token of the pool at `output_address`,
/// through the native coin.
pub fn execute_swap_token_for_token(
    pool: &Pool,
    env: &Env,
    info: &MessageInfo,
    output_address: String,
    input_token_amount: u128,
    output_min_token: u128,
    expiration: Option<Expiration>,
) -> (res: Result<Outcome, ContractError>)
    ensures
        outcome_view(res) == spec_swap_token_for_token(
            *pool,
            *env,
            info.sender,
            output_address,
            input_token_amount,
            output_min_token,
            expiration,
        ),
{
    if check_expired(&expiration, &env.block) {
        return Err(ContractError::MsgExpirationError);
    }
    let native = match get_input_price(
        input_token_amount,
        pool.token.token_reserve,
        pool.token.native_reserve,
    ) {
        Ok(v) => v,
        Err(e) => return Err(e),
    };
    let token_reserve = match pool.token.token_reserve.checked_add(input_token_amount) {
        Some(v) => v,
        None => return Err(ContractError::Overflow),
    };
    proof {
        crate::math::lemma_input_price_below_reserve(
            input_token_amount,
            pool.token.token_reserve,
            pool.token.native_reserve,
        );
    }
    let native_reserve = pool.token.native_reserve - native;
    let mut actions: Vec<Action> = Vec::new();
    actions.push(
        Action::Cw20TransferFrom {
            contract: pool.token.token_address.clone(),
            owner: info.sender.clone(),
            recipient: env.contract.address.clone(),
            amount: input_token_amount,
        },
    );
    actions.push(
        Action::SwapNativeForTokenTo {
            contract: output_address,
            recipient: info.sender.clone(),
            min_token: output_min_token,
            expiration,
            denom: pool.token.native_denom.clone(),
            amount: native,
        },
    );
    let new_pool = set_amounts(pool, native_reserve, token_reserve, pool.lp_token_supply);
    assert(actions@ =~= seq![
        Action::Cw20TransferFrom {
            contract: pool.token.token_address,
            owner: info.sender,
            recipient: env.contract.address,
            amount: input_token_amount,
        },
        Action::SwapNativeForTokenTo {
            contract: output_address,
            recipient: info.sender,
            min_token: output_min_token,
            expiration,
            denom: pool.token.native_denom,
            amount: native,
        },
    ]);
    Ok(Outcome { pool: new_pool, actions })
}

/// What any message does to the pool. `sender_shares` is the sender's share
/// balance, read only by `RemoveLiquidity`.
pub open spec fn spec_execute(
    pool: Pool,
    env: Env,
    sender: String,
    funds: Seq<crate::chain::Coin>,
    sender_shares: u128,
    msg: ExecuteMsg,
) -> Result<(Pool, Seq<Action>), ContractError> {
    match msg {
        ExecuteMsg::AddLiquidity { min_liquidity, max_token, expiration } => spec_add_liquidity(
            pool,
            env,
            sender,
            funds,
            min_liquidity,
            max_token,
            expiration,
        ),
        ExecuteMsg::RemoveLiquidity { amount, min_native, min_token, expiration } =>
            spec_remove_liquidity(
            pool,
            env,
            sender,
            sender_shares,
            amount,
            min_native,
            min_token,
            expiration,
        ),
        ExecuteMsg::SwapToken1ForToken2 { min_token, expiration } => spec_swap_native_for_token(
            pool,
            env,
            funds,
            sender,
            min_token,
            expiration,
        ),
        ExecuteMsg::SwapToken2ForToken1 { token_amount, min_native, expiration } =>
            spec_swap_token_for_native(pool, env, sender, token_amount, min_native, expiration),
        ExecuteMsg::SwapTokenForToken {
            output_arcswap_address,
            input_token_amount,
            output_min_token,
            expiration,
        } => spec_swap_token_for_token(
            pool,
            env,
            sender,
            output_arcswap_address,
            input_token_amount,
            output_min_token,
            expiration,
        ),
        ExecuteMsg::SwapNativeForTokenTo { recipient, min_token, expiration } =>
            spec_swap_native_for_token(pool, env, funds, recipient, min_token, expiration),
    }
}

/// Handles any message to the pool. `sender_shares` is the sender's share
/// balance.
pub fn execute(
    pool: &Pool,
    env: &Env,
    info: &MessageInfo,
    sender_shares: u128,
    msg: ExecuteMsg,
) -> (res: Result<Outcome, ContractError>)
    ensures
        outcome_view(res) == spec_execute(*pool, *env, info.sender, info.funds@, sender_shares, msg),
{
    match msg {
        ExecuteMsg::AddLiquidity { min_liquidity, max_token, expiration } => execute_add_liquidity(
            pool,
            env,
            info,
            min_liquidity,
            max_token,
            expiration,
        ),
        ExecuteMsg::RemoveLiquidity { amount, min_native, min_token, expiration } =>
            execute_remove_liquidity(
            pool,
            env,
            info,
            sender_shares,
            amount,
            min_native,
            min_token,
            expiration,
        ),
        ExecuteMsg::SwapToken1ForToken2 { min_token, expiration } => execute_swap_native_for_token(
            pool,
            env,
            info,
            info.sender.clone(),
            min_token,
            expiration,
        ),
        ExecuteMsg::SwapToken2ForToken1 { token_amount, min_native, expiration } =>
            execute_swap_token_for_native(pool, env, info, token_amount, min_native, expiration),
        ExecuteMsg::SwapTokenForToken {
            output_arcswap_address,
            input_token_amount,
            output_min_token,
            expiration,
        } => execute_swap_token_for_token(
            pool,
            env,
            info,
            output_arcswap_address,
            input_token_amount,
            output_min_token,
            expiration,
        ),
        ExecuteMsg::SwapNativeForTokenTo { recipient, min_token, expiration } =>
            execute_swap_native_for_token(pool, env, info, recipient, min_token, expiration),
    }
}

/// The pool's reserves, denominations and share supply.
pub open spec fn spec_query_info(pool: Pool) -> InfoResponse {
    InfoResponse {
        native_reserve: pool.token.native_reserve,
        native_denom: pool.token.native_denom,
        token_reserve: pool.token.token_reserve,
        token_denom: pool.token.token_denom,
        token_address: pool.token.token_address,
        lp_token_supply: pool.lp_token_supply,
    }
}

/// Answers `QueryMsg::Info`.
pub fn query_info(pool: &Pool) -> (res: InfoResponse)
    ensures
        res == spec_query_info(*pool),
{
    InfoResponse {
        native_reserve: pool.token.native_reserve,
        native_denom: pool.token.native_denom.clone(),
        token_reserve: pool.token.token_reserve,
        token_denom: pool.token.token_denom.clone(),
        token_address: pool.token.token_address.clone(),
        lp_token_supply: pool.lp_token_supply,
    }
}

/// Answers `QueryMsg::NativeForTokenPrice`: the tokens that `native_amount`
/// native coins would buy now.
pub fn query_native_for_token_price(pool: &Pool, native_amount: u128) -> (res: Result<
    NativeForTokenPriceResponse,
    ContractError,
>)
    ensures
        match res {
            Ok(r) => spec_input_price(
                native_amount,
                pool.token.native_reserve,
                pool.token.token_reserve,
            ) == Ok::<u128, ContractError>(r.token_amount),
            Err(e) => spec_input_price(
                native_amount,
                pool.token.native_reserve,
                pool.token.token_reserve,
            ) == Err::<u128, ContractError>(e),
        },
{
    match get_input_price(native_amount, pool.token.native_reserve, pool.token.token_reserve) {
        Ok(token_amount) => Ok(NativeForTokenPriceResponse { token_amount }),
        Err(e) => Err(e),
    }
}

/// Answers `QueryMsg::TokenForNativePrice`: the native coins that
/// `token_amount` tokens would buy now.
pub fn query_token_for_native_price(pool: &Pool, token_amount: u128) -> (res: Result<
    TokenForNativePriceResponse,
    ContractError,
>)
    ensures
        match res {
            Ok(r) => spec_input_price(
                token_amount,
                pool.token.token_reserve,
                pool.token.native_reserve,
            ) == Ok::<u128, ContractError>(r.native_amount),
            Err(e) => spec_input_price(
                token_amount,
                pool.token.token_reserve,
                pool.token.native_reserve,
            ) == Err::<u128, ContractError>(e),
        },
{
    match get_input_price(token_amount, pool.token.token_reserve, pool.token.native_reserve) {
        Ok(native_amount) => Ok(TokenForNativePriceResponse { native_amount }),
        Err(e) => Err(e),
    }
}

} // verus!
