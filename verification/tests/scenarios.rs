//! Whole-chain scenarios: a small ledger plays the part of the bank, of the
//! cw20 token contracts and of the share registry, carries out the actions
//! that the pool returns, and undoes a message's effects when any of its
//! actions fails.
use std::collections::HashMap;

use arcswap::chain::{BlockInfo, Coin, ContractInfo, Env, MessageInfo};
use arcswap::contract::{execute, instantiate, query_info, Action};
use arcswap::error::ContractError;
use arcswap::msg::{ExecuteMsg, InfoResponse, InstantiateMsg};
use arcswap::state::Pool;

#[derive(Debug)]
enum Failure {
    Pool(ContractError),
    Ledger(String),
}

#[derive(Clone, Default)]
struct Ledger {
    bank: HashMap<(String, String), u128>,
    cw20: HashMap<(String, String), u128>,
    allowances: HashMap<(String, String, String), u128>,
    symbols: HashMap<String, String>,
    pools: HashMap<String, Pool>,
    shares: HashMap<(String, String), u128>,
    next_contract: u32,
}

fn coins(amount: u128, denom: &str) -> Vec<Coin> {
    vec![Coin { denom: denom.to_string(), amount }]
}

impl Ledger {
    fn new_address(&mut self) -> String {
        let a = format!("contract{}", self.next_contract);
        self.next_contract += 1;
        a
    }

    fn set_bank_balance(&mut self, addr: &str, funds: Vec<Coin>) {
        for c in funds {
            self.bank.insert((addr.to_string(), c.denom), c.amount);
        }
    }

    fn create_cw20(&mut self, owner: &str, _name: &str, symbol: &str, balance: u128) -> String {
        let addr = self.new_address();
        self.symbols.insert(addr.clone(), symbol.to_string());
        self.cw20.insert((addr.clone(), owner.to_string()), balance);
        addr
    }

    fn create_arcswap(&mut self, token: &str, native_denom: &str) -> String {
        let addr = self.new_address();
        let pool = instantiate(InstantiateMsg {
            native_denom: native_denom.to_string(),
            token_denom: self.symbols[token].clone(),
            token_address: token.to_string(),
        });
        self.pools.insert(addr.clone(), pool);
        addr
    }

    fn increase_allowance(&mut self, owner: &str, token: &str, spender: &str, amount: u128) -> Vec<(String, String)> {
        *self
            .allowances
            .entry((token.to_string(), owner.to_string(), spender.to_string()))
            .or_insert(0) += amount;
        vec![
            ("action".to_string(), "increase_allowance".to_string()),
            ("owner".to_string(), owner.to_string()),
            ("spender".to_string(), spender.to_string()),
            ("amount".to_string(), amount.to_string()),
        ]
    }

    fn cw20_balance(&self, token: &str, holder: &str) -> u128 {
        *self.cw20.get(&(token.to_string(), holder.to_string())).unwrap_or(&0)
    }

    fn share_balance(&self, pool: &str, holder: &str) -> u128 {
        *self.shares.get(&(pool.to_string(), holder.to_string())).unwrap_or(&0)
    }

    fn bank_balance(&self, holder: &str, denom: &str) -> u128 {
        *self.bank.get(&(holder.to_string(), denom.to_string())).unwrap_or(&0)
    }

    fn info(&self, pool: &str) -> InfoResponse {
        query_info(&self.pools[pool])
    }

    fn debit(map: &mut HashMap<(String, String), u128>, key: (String, String), amount: u128) -> Result<(), Failure> {
        let have = *map.get(&key).unwrap_or(&0);
        if have < amount {
            return Err(Failure::Ledger(format!("{:?} holds {} < {}", key, have, amount)));
        }
        map.insert(key, have - amount);
        Ok(())
    }

    fn credit(map: &mut HashMap<(String, String), u128>, key: (String, String), amount: u128) {
        *map.entry(key).or_insert(0) += amount;
    }

    fn execute(&mut self, sender: &str, pool: &str, msg: ExecuteMsg, funds: Vec<Coin>) -> Result<(), Failure> {
        let before = self.clone();
        let res = self.run(sender, pool, msg, funds);
        if res.is_err() {
            *self = before;
        }
        res
    }

    fn run(&mut self, sender: &str, pool_addr: &str, msg: ExecuteMsg, funds: Vec<Coin>) -> Result<(), Failure> {
        for c in &funds {
            Self::debit(&mut self.bank, (sender.to_string(), c.denom.clone()), c.amount)?;
            Self::credit(&mut self.bank, (pool_addr.to_string(), c.denom.clone()), c.amount);
        }
        let pool = self.pools[pool_addr].clone();
        let env = Env {
            block: BlockInfo { height: 12_345, time: 1_571_797_419_879_305_533 },
            contract: ContractInfo { address: pool_addr.to_string() },
        };
        let info = MessageInfo { sender: sender.to_string(), funds };
        let held = self.share_balance(pool_addr, sender);
        let out = execute(&pool, &env, &info, held, msg).map_err(Failure::Pool)?;
        self.pools.insert(pool_addr.to_string(), out.pool);
        for action in out.actions {
            match action {
                Action::Cw20TransferFrom { contract, owner, recipient, amount } => {
                    let key = (contract.clone(), owner.clone(), pool_addr.to_string());
                    let allowed = *self.allowances.get(&key).unwrap_or(&0);
                    if allowed < amount {
                        return Err(Failure::Ledger("allowance too small".to_string()));
                    }
                    self.allowances.insert(key, allowed - amount);
                    Self::debit(&mut self.cw20, (contract.clone(), owner), amount)?;
                    Self::credit(&mut self.cw20, (contract, recipient), amount);
                },
                Action::Cw20Transfer { contract, recipient, amount } => {
                    if amount == 0 {
                        return Err(Failure::Ledger("zero transfer".to_string()));
                    }
                    Self::debit(&mut self.cw20, (contract.clone(), pool_addr.to_string()), amount)?;
                    Self::credit(&mut self.cw20, (contract, recipient), amount);
                },
                Action::BankSend { to_address, denom, amount } => {
                    Self::debit(&mut self.bank, (pool_addr.to_string(), denom.clone()), amount)?;
                    Self::credit(&mut self.bank, (to_address, denom), amount);
                },
                Action::MintLiquidity { recipient, amount } => {
                    Self::credit(&mut self.shares, (pool_addr.to_string(), recipient), amount);
                },
                Action::BurnLiquidity { owner, amount } => {
                    Self::debit(&mut self.shares, (pool_addr.to_string(), owner), amount)?;
                },
                Action::SwapNativeForTokenTo { contract, recipient, min_token, expiration, denom, amount } => {
                    self.run(
                        pool_addr,
                        &contract,
                        ExecuteMsg::SwapNativeForTokenTo { recipient, min_token, expiration },
                        coins(amount, &denom),
                    )?;
                },
            }
        }
        Ok(())
    }
}

#[test]
fn arcswap_add_and_remove_liquidity() {
    let mut router = Ledger::default();
    const NATIVE_TOKEN_DENOM: &str = "juno";
    let owner = "owner";
    router.set_bank_balance(owner, coins(2000, NATIVE_TOKEN_DENOM));

    let cw20_token = router.create_cw20(owner, "token", "CWTOKEN", 5000);
    let arcswap_addr = router.create_arcswap(&cw20_token, NATIVE_TOKEN_DENOM);
    assert_ne!(cw20_token, arcswap_addr);

    assert_eq!(router.cw20_balance(&cw20_token, owner), 5000);

    router.increase_allowance(owner, &cw20_token, &arcswap_addr, 100);
    router
        .execute(
            owner,
            &arcswap_addr,
            ExecuteMsg::AddLiquidity { min_liquidity: 100, max_token: 100, expiration: None },
            coins(100, NATIVE_TOKEN_DENOM),
        )
        .unwrap();

    assert_eq!(router.cw20_balance(&cw20_token, owner), 4900);
    assert_eq!(router.cw20_balance(&cw20_token, &arcswap_addr), 100);
    assert_eq!(router.share_balance(&arcswap_addr, owner), 100);

    let attributes = router.increase_allowance(owner, &cw20_token, &arcswap_addr, 51);
    assert_eq!(attributes.len(), 4);

    router
        .execute(
            owner,
            &arcswap_addr,
            ExecuteMsg::AddLiquidity { min_liquidity: 50, max_token: 51, expiration: None },
            coins(50, NATIVE_TOKEN_DENOM),
        )
        .unwrap();

    assert_eq!(router.cw20_balance(&cw20_token, owner), 4849);
    assert_eq!(router.cw20_balance(&cw20_token, &arcswap_addr), 151);
    assert_eq!(router.share_balance(&arcswap_addr, owner), 150);

    router
        .execute(
            owner,
            &arcswap_addr,
            ExecuteMsg::RemoveLiquidity { amount: 50, min_native: 50, min_token: 50, expiration: None },
            coins(50, NATIVE_TOKEN_DENOM),
        )
        .unwrap();

    assert_eq!(router.cw20_balance(&cw20_token, owner), 4899);
    assert_eq!(router.cw20_balance(&cw20_token, &arcswap_addr), 101);
    assert_eq!(router.share_balance(&arcswap_addr, owner), 100);
}

#[test]
fn swap_tokens_happy_path() {
    let mut router = Ledger::default();
    const NATIVE_TOKEN_DENOM: &str = "juno";
    let owner = "owner";
    router.set_bank_balance(owner, coins(2000, NATIVE_TOKEN_DENOM));

    let cw20_token = router.create_cw20(owner, "token", "CWTOKEN", 5000);
    let arcswap_addr = router.create_arcswap(&cw20_token, NATIVE_TOKEN_DENOM);
    assert_ne!(cw20_token, arcswap_addr);

    assert_eq!(router.cw20_balance(&cw20_token, owner), 5000);

    router.increase_allowance(owner, &cw20_token, &arcswap_addr, 100);
    router
        .execute(
            owner,
            &arcswap_addr,
            ExecuteMsg::AddLiquidity { min_liquidity: 100, max_token: 100, expiration: None },
            coins(100, NATIVE_TOKEN_DENOM),
        )
        .unwrap();

    let info = router.info(&arcswap_addr);
    assert_eq!(info.native_reserve, 100);
    assert_eq!(info.token_reserve, 100);

    let buyer = "buyer";
    router.set_bank_balance(buyer, coins(2000, NATIVE_TOKEN_DENOM));

    router
        .execute(
            buyer,
            &arcswap_addr,
            ExecuteMsg::SwapToken1ForToken2 { min_token: 9, expiration: None },
            coins(10, NATIVE_TOKEN_DENOM),
        )
        .unwrap();

    let info = router.info(&arcswap_addr);
    assert_eq!(info.native_reserve, 110);
    assert_eq!(info.token_reserve, 91);
    assert_eq!(router.cw20_balance(&cw20_token, buyer), 9);
    assert_eq!(router.bank_balance(buyer, NATIVE_TOKEN_DENOM), 1990);

    router
        .execute(
            buyer,
            &arcswap_addr,
            ExecuteMsg::SwapToken1ForToken2 { min_token: 7, expiration: None },
            coins(10, NATIVE_TOKEN_DENOM),
        )
        .unwrap();

    let info = router.info(&arcswap_addr);
    assert_eq!(info.native_reserve, 120);
    assert_eq!(info.token_reserve, 84);
    assert_eq!(router.cw20_balance(&cw20_token, buyer), 16);
    assert_eq!(router.bank_balance(buyer, NATIVE_TOKEN_DENOM), 1980);

    router.increase_allowance(buyer, &cw20_token, &arcswap_addr, 16);
    router
        .execute(
            buyer,
            &arcswap_addr,
            ExecuteMsg::SwapToken2ForToken1 { token_amount: 16, min_native: 19, expiration: None },
            vec![],
        )
        .unwrap();

    let info = router.info(&arcswap_addr);
    assert_eq!(info.native_reserve, 101);
    assert_eq!(info.token_reserve, 100);
    assert_eq!(router.cw20_balance(&cw20_token, buyer), 0);
    assert_eq!(router.bank_balance(buyer, NATIVE_TOKEN_DENOM), 1999);

    assert_eq!(router.cw20_balance(&cw20_token, owner), 4900);

    router
        .execute(
            buyer,
            &arcswap_addr,
            ExecuteMsg::SwapNativeForTokenTo {
                recipient: owner.to_string(),
                min_token: 3,
                expiration: None,
            },
            coins(10, NATIVE_TOKEN_DENOM),
        )
        .unwrap();

    let info = router.info(&arcswap_addr);
    assert_eq!(info.native_reserve, 111);
    assert_eq!(info.token_reserve, 92);
    assert_eq!(router.cw20_balance(&cw20_token, owner), 4908);
    assert_eq!(router.bank_balance(buyer, NATIVE_TOKEN_DENOM), 1989);
}

#[test]
fn token_to_token_swap() {
    let mut router = Ledger::default();
    const NATIVE_TOKEN_DENOM: &str = "juno";
    let owner = "owner";
    router.set_bank_balance(owner, coins(2000, NATIVE_TOKEN_DENOM));

    let token1 = router.create_cw20(owner, "token1", "TOKENONE", 5000);
    let token2 = router.create_cw20(owner, "token2", "TOKENTWO", 5000);

    let arcswap1 = router.create_arcswap(&token1, NATIVE_TOKEN_DENOM);
    let arcswap2 = router.create_arcswap(&token2, NATIVE_TOKEN_DENOM);

    router.increase_allowance(owner, &token1, &arcswap1, 100);
    router
        .execute(
            owner,
            &arcswap1,
            ExecuteMsg::AddLiquidity { min_liquidity: 100, max_token: 100, expiration: None },
            coins(100, NATIVE_TOKEN_DENOM),
        )
        .unwrap();

    router.increase_allowance(owner, &token2, &arcswap2, 100);
    router
        .execute(
            owner,
            &arcswap2,
            ExecuteMsg::AddLiquidity { min_liquidity: 100, max_token: 100, expiration: None },
            coins(100, NATIVE_TOKEN_DENOM),
        )
        .unwrap();

    router.increase_allowance(owner, &token1, &arcswap1, 10);
    router
        .execute(
            owner,
            &arcswap1,
            ExecuteMsg::SwapTokenForToken {
                output_arcswap_address: arcswap2.clone(),
                input_token_amount: 10,
                output_min_token: 8,
                expiration: None,
            },
            vec![],
        )
        .unwrap();

    assert_eq!(router.cw20_balance(&token1, owner), 4890);
    assert_eq!(router.cw20_balance(&token2, owner), 4908);
    let arcswap1_native_balance = router.bank_balance(&arcswap1, NATIVE_TOKEN_DENOM);
    assert_eq!(arcswap1_native_balance, 91);
    let arcswap2_native_balance = router.bank_balance(&arcswap2, NATIVE_TOKEN_DENOM);
    assert_eq!(arcswap2_native_balance, 109);

    router.increase_allowance(owner, &token2, &arcswap2, 10);
    router
        .execute(
            owner,
            &arcswap2,
            ExecuteMsg::SwapTokenForToken {
                output_arcswap_address: arcswap1.clone(),
                input_token_amount: 10,
                output_min_token: 1,
                expiration: None,
            },
            vec![],
        )
        .unwrap();

    assert_eq!(router.cw20_balance(&token1, owner), 4900);
    assert_eq!(router.cw20_balance(&token2, owner), 4898);
    let arcswap1_native_balance = router.bank_balance(&arcswap1, NATIVE_TOKEN_DENOM);
    assert_eq!(arcswap1_native_balance, 101);
    let arcswap2_native_balance = router.bank_balance(&arcswap2, NATIVE_TOKEN_DENOM);
    assert_eq!(arcswap2_native_balance, 99);

    let info_arcswap1 = router.info(&arcswap1);
    assert_eq!(info_arcswap1.token_reserve, router.cw20_balance(&token1, &arcswap1));
    assert_eq!(info_arcswap1.native_reserve, arcswap1_native_balance);

    let info_arcswap2 = router.info(&arcswap2);
    assert_eq!(info_arcswap2.token_reserve, router.cw20_balance(&token2, &arcswap2));
    assert_eq!(info_arcswap2.native_reserve, arcswap2_native_balance);
}

#[test]
fn failed_forwarded_swap_undoes_the_whole_message() {
    let mut router = Ledger::default();
    let owner = "owner";
    router.set_bank_balance(owner, coins(2000, "juno"));
    let token1 = router.create_cw20(owner, "token1", "TOKENONE", 5000);
    let token2 = router.create_cw20(owner, "token2", "TOKENTWO", 5000);
    let arcswap1 = router.create_arcswap(&token1, "juno");
    let arcswap2 = router.create_arcswap(&token2, "juno");
    for (t, p) in [(&token1, &arcswap1), (&token2, &arcswap2)] {
        router.increase_allowance(owner, t, p, 100);
        router
            .execute(
                owner,
                p,
                ExecuteMsg::AddLiquidity { min_liquidity: 100, max_token: 100, expiration: None },
                coins(100, "juno"),
            )
            .unwrap();
    }
    router.increase_allowance(owner, &token1, &arcswap1, 10);
    let res = router.execute(
        owner,
        &arcswap1,
        ExecuteMsg::SwapTokenForToken {
            output_arcswap_address: arcswap2.clone(),
            input_token_amount: 10,
            output_min_token: 9,
            expiration: None,
        },
        vec![],
    );
    match res {
        Err(Failure::Pool(ContractError::SwapMinError { min, available })) => {
            assert_eq!(min, 9);
            assert_eq!(available, 8);
        },
        other => panic!("unexpected {:?}", other),
    }
    assert_eq!(router.cw20_balance(&token1, owner), 4900);
    assert_eq!(router.info(&arcswap1).native_reserve, 100);
    assert_eq!(router.info(&arcswap1).token_reserve, 100);
}

#[test]
fn pool_books_match_holdings_through_a_session() {
    let mut router = Ledger::default();
    let owner = "owner";
    let trader = "trader";
    router.set_bank_balance(owner, coins(100_000, "juno"));
    router.set_bank_balance(trader, coins(100_000, "juno"));
    let token = router.create_cw20(owner, "token", "TKN", 100_000);
    let pool = router.create_arcswap(&token, "juno");
    router.increase_allowance(owner, &token, &pool, 100_000);
    router
        .execute(
            owner,
            &pool,
            ExecuteMsg::AddLiquidity { min_liquidity: 1, max_token: 3000, expiration: None },
            coins(1000, "juno"),
        )
        .unwrap();
    for i in 1..20u128 {
        router
            .execute(
                trader,
                &pool,
                ExecuteMsg::SwapToken1ForToken2 { min_token: 0, expiration: None },
                coins(7 * i, "juno"),
            )
            .unwrap();
        let bought = router.cw20_balance(&token, trader);
        router.increase_allowance(trader, &token, &pool, bought / 2);
        router
            .execute(
                trader,
                &pool,
                ExecuteMsg::SwapToken2ForToken1 { token_amount: bought / 2, min_native: 0, expiration: None },
                vec![],
            )
            .unwrap();
        let info = router.info(&pool);
        assert_eq!(info.native_reserve, router.bank_balance(&pool, "juno"));
        assert_eq!(info.token_reserve, router.cw20_balance(&token, &pool));
        assert_eq!(info.lp_token_supply, router.share_balance(&pool, owner));
    }
    router
        .execute(
            owner,
            &pool,
            ExecuteMsg::RemoveLiquidity { amount: 1000, min_native: 0, min_token: 0, expiration: None },
            vec![],
        )
        .unwrap();
    let info = router.info(&pool);
    assert_eq!(info.native_reserve, 0);
    assert_eq!(info.token_reserve, 0);
    assert_eq!(info.lp_token_supply, 0);
    assert_eq!(router.bank_balance(&pool, "juno"), 0);
    assert_eq!(router.cw20_balance(&token, &pool), 0);
}
