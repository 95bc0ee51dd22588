//! Plain data types shared by the quoting calculator, the venue payload
//! encoders and the broadcast orchestrator.
use solana_sdk::pubkey::Pubkey;
use solana_sdk::signature::Keypair;
use vstd::prelude::*;

verus! {

/// A venue pool at a point in time: its addresses and a read-only
/// snapshot of its reserves. Immutable once read; never persisted.
pub struct PoolInfo {
    pub pool: Pubkey,
    pub creator: Option<Pubkey>,
    pub creator_vault: Option<Pubkey>,
    pub config: Option<Pubkey>,
    pub extra_address: Option<Pubkey>,
    pub token_reserves: u64,
    pub sol_reserves: u64,
}

/// One buyer of a batch buy: who pays and how many lamports they spend.
pub struct BatchBuyParam {
    pub payer: Keypair,
    pub sol_amount: u64,
}

/// One seller of a batch sell: who signs, how many tokens they sell, and
/// whether their token account is closed afterwards.
pub struct BatchSellParam {
    pub payer: Keypair,
    pub token_amount: u64,
    pub close_mint_ata: bool,
}

/// Amounts of one swap leg: how many tokens move and how many lamports
/// move, in the direction the venue instruction implies.
pub struct SwapInfo {
    pub token_amount: u64,
    pub sol_amount: u64,
}

/// The trading venues this engine knows how to quote and encode for.
#[derive(Debug, Clone, Copy, PartialEq, Eq, Hash)]
pub enum DexType {
    Pumpfun,
    PumpSwap,
    RayBonk,
    Boopfun,
    Believe,
    MeteoraDBC,
}

impl DexType {
    /// Every venue, in the fixed order used for registry construction.
    pub fn all() -> (r: Vec<DexType>)
        ensures
            r@ == seq![
                DexType::Pumpfun,
                DexType::PumpSwap,
                DexType::RayBonk,
                DexType::Boopfun,
                DexType::Believe,
                DexType::MeteoraDBC,
            ],
    {
        let mut r: Vec<DexType> = Vec::new();
        r.push(DexType::Pumpfun);
        r.push(DexType::PumpSwap);
        r.push(DexType::RayBonk);
        r.push(DexType::Boopfun);
        r.push(DexType::Believe);
        r.push(DexType::MeteoraDBC);
        proof {
            assert(r@ =~= seq![
                DexType::Pumpfun,
                DexType::PumpSwap,
                DexType::RayBonk,
                DexType::Boopfun,
                DexType::Believe,
                DexType::MeteoraDBC,
            ]);
        }
        r
    }
}

/// A sell size given either as an absolute token amount or as a
/// percentage of the seller's current balance.
pub enum TokenAmountType {
    Percent(u64),
    Amount(u64),
}

/// `floor(balance * percent / 100)`, the token amount a percentage stands
/// for once the balance is known.
pub open spec fn spec_percent_of_balance(balance: int, percent: int) -> int {
    (balance * percent) / 100
}

impl TokenAmountType {
    /// Resolve to a concrete token amount against a balance read from the
    /// owner's token account. Percentages are unrestricted (a caller may
    /// scale a balance up); only the scaled result must fit the `u64`
    /// range, a machine limit.
    pub fn to_amount(&self, balance: u64) -> (r: u64)
        requires
            self matches TokenAmountType::Percent(p)
                ==> spec_percent_of_balance(balance as int, p as int) <= u64::MAX,
        ensures
            match self {
                TokenAmountType::Percent(p) => r == spec_percent_of_balance(balance as int, *p as int),
                TokenAmountType::Amount(a) => r == a,
            },
    {
        match self {
            TokenAmountType::Percent(percent) => {
                proof {
                    vstd::arithmetic::mul::lemma_mul_upper_bound(
                        balance as int, u64::MAX as int, *percent as int, u64::MAX as int);
                    vstd::arithmetic::mul::lemma_mul_nonnegative(balance as int, *percent as int);
                    vstd::arithmetic::div_mod::lemma_div_pos_is_pos(
                        (balance as int) * (*percent as int), 100int);
                }
                let scaled: u128 = (balance as u128) * (*percent as u128) / 100;
                scaled as u64
            }
            TokenAmountType::Amount(amount) => *amount,
        }
    }
}

/// Whether a swap should create the buyer's associated token account
/// first, and if so whether idempotently.
pub enum CreateATA {
    Create,
    NoCreate,
    Idempotent,
}

} // verus!
