use vstd::prelude::*;

verus! {

/// An amount of one denomination of the chain's native coins.
#[derive(Clone, Debug, PartialEq, Eq)]
pub struct Coin {
    pub denom: String,
    pub amount: u128,
}

/// The block in which a message is executed.
#[derive(Clone, Copy, Debug, PartialEq, Eq)]
pub struct BlockInfo {
    pub height: u64,
    /// Block time, in nanoseconds since the UNIX epoch.
    pub time: u64,
}

/// The address of the pool itself.
#[derive(Clone, Debug, PartialEq, Eq)]
pub struct ContractInfo {
    pub address: String,
}

/// What the chain tells the pool about where a message runs.
#[derive(Clone, Debug, PartialEq, Eq)]
pub struct Env {
    pub block: BlockInfo,
    pub contract: ContractInfo,
}

/// Who sent a message, and the native coins it carried.
#[derive(Clone, Debug, PartialEq, Eq)]
pub struct MessageInfo {
    pub sender: String,
    pub funds: Vec<Coin>,
}

/// A point after which a message is no longer honoured.
#[derive(Clone, Copy, Debug, PartialEq, Eq)]
pub enum Expiration {
    /// Reached once the block height is at least this.
    AtHeight(u64),
    /// Reached once the block time, in nanoseconds, is at least this.
    AtTime(u64),
    /// Never reached.
    Never,
}

/// Whether `block` has reached the expiration `e`.
pub open spec fn reached(e: Expiration, block: BlockInfo) -> bool {
    match e {
        Expiration::AtHeight(height) => block.height >= height,
        Expiration::AtTime(time) => block.time >= time,
        Expiration::Never => false,
    }
}

/// Whether an optional expiration has been reached; none is never reached.
pub open spec fn expiration_passed(expiration: Option<Expiration>, block: BlockInfo) -> bool {
    match expiration {
        Some(e) => reached(e, block),
        None => false,
    }
}

impl Expiration {
    /// Whether `block` has reached this expiration.
    pub fn is_expired(&self, block: &BlockInfo) -> (res: bool)
        ensures
            res == reached(*self, *block),
    {
        match self {
            Expiration::AtHeight(height) => block.height >= *height,
            Expiration::AtTime(time) => block.time >= *time,
            Expiration::Never => false,
        }
    }
}

/// Whether an optional expiration has been reached.
pub fn check_expired(expiration: &Option<Expiration>, block: &BlockInfo) -> (res: bool)
    ensures
        res == expiration_passed(*expiration, *block),
{
    match expiration {
        Some(e) => e.is_expired(block),
        None => false,
    }
}

/// The amount of the first coin in `funds` whose denomination is `denom`.
pub open spec fn amount_sent(funds: Seq<Coin>, denom: Seq<char>) -> Option<u128>
    decreases funds.len(),
{
    if funds.len() == 0 {
        None
    } else if funds[0].denom@ == denom {
        Some(funds[0].amount)
    } else {
        amount_sent(funds.drop_first(), denom)
    }
}

/// Finds the amount of the first coin of denomination `denom` in `funds`.
pub fn find_amount(funds: &Vec<Coin>, denom: &String) -> (res: Option<u128>)
    ensures
        res == amount_sent(funds@, denom@),
{
    let mut i: usize = 0;
    assert(funds@.subrange(0, funds@.len() as int) =~= funds@);
    while i < funds.len()
        invariant
            i <= funds@.len(),
            amount_sent(funds@, denom@) == amount_sent(
                funds@.subrange(i as int, funds@.len() as int),
                denom@,
            ),
        decreases funds@.len() - i,
    {
        let rest = Ghost(funds@.subrange(i as int, funds@.len() as int));
        if funds[i].denom == *denom {
            return Some(funds[i].amount);
        }
        assert(rest@.drop_first() =~= funds@.subrange(i + 1, funds@.len() as int));
        i = i + 1;
    }
    None
}

} // verus!
