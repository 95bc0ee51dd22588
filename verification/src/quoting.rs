//! The quoting layer over the raw curve: orient a single buy or sell
//! into a `SwapInfo` with its slippage bound applied, and plan the
//! quotes of a batch, where each item trades against the reserves as the
//! previous items left them.
use crate::amm_calc::amm_buy_get_token_out;
use crate::amm_calc::amm_sell_get_sol_out;
use crate::amm_calc::apply_slippage_buy;
use crate::amm_calc::apply_slippage_sell;
use crate::amm_calc::spec_apply_slippage_buy;
use crate::amm_calc::spec_apply_slippage_sell;
use crate::amm_calc::spec_buy_token_out;
use crate::amm_calc::spec_sell_sol_out;
use crate::amm_calc::BASIS_POINTS;
use crate::types::BatchBuyParam;
use crate::types::BatchSellParam;
use crate::types::PoolInfo;
use crate::types::SwapInfo;
use vstd::prelude::*;

verus! {

/// The sol amounts of a batch buy, in item order.
pub open spec fn buy_amounts(items: Seq<BatchBuyParam>) -> Seq<u64>
    decreases items.len(),
{
    if items.len() == 0 {
        Seq::empty()
    } else {
        buy_amounts(items.drop_last()).push(items.last().sol_amount)
    }
}

/// `buy_amounts` reads out exactly the `sol_amount` fields.
pub proof fn lemma_buy_amounts(items: Seq<BatchBuyParam>)
    ensures
        buy_amounts(items).len() == items.len(),
        forall|i: int| 0 <= i < items.len()
            ==> #[trigger] buy_amounts(items)[i] == items[i].sol_amount,
    decreases items.len(),
{
    if items.len() > 0 {
        lemma_buy_amounts(items.drop_last());
    }
}

/// The token amounts of a batch sell, in item order.
pub open spec fn sell_amounts(items: Seq<BatchSellParam>) -> Seq<u64>
    decreases items.len(),
{
    if items.len() == 0 {
        Seq::empty()
    } else {
        sell_amounts(items.drop_last()).push(items.last().token_amount)
    }
}

/// `sell_amounts` reads out exactly the `token_amount` fields.
pub proof fn lemma_sell_amounts(items: Seq<BatchSellParam>)
    ensures
        sell_amounts(items).len() == items.len(),
        forall|i: int| 0 <= i < items.len()
            ==> #[trigger] sell_amounts(items)[i] == items[i].token_amount,
    decreases items.len(),
{
    if items.len() > 0 {
        lemma_sell_amounts(items.drop_last());
    }
}

/// Whether every intermediate value of a sequential batch buy stays in
/// the `u64` range: each buyer's slippage ceiling, and the growing sol
/// reserve.
pub open spec fn spec_batch_buy_fits(pool_sol: int, pool_token: int, bps: int, amounts: Seq<u64>) -> bool
    decreases amounts.len(),
{
    if amounts.len() == 0 {
        true
    } else {
        let x = amounts[0] as int;
        let out = spec_buy_token_out(pool_sol, pool_token, x);
        &&& spec_apply_slippage_buy(x, bps) <= u64::MAX
        &&& pool_sol + x <= u64::MAX
        &&& spec_batch_buy_fits(pool_sol + x, pool_token - out, bps, amounts.drop_first())
    }
}

/// The quotes of a sequential batch buy: the first buyer trades against
/// the given reserves, and each later buyer against the reserves as the
/// previous buys left them (sol grows by the amount paid, tokens shrink
/// by the amount bought).
pub open spec fn spec_batch_buy_quotes(pool_sol: int, pool_token: int, bps: int, amounts: Seq<u64>) -> Seq<SwapInfo>
    decreases amounts.len(),
{
    if amounts.len() == 0 {
        Seq::empty()
    } else {
        let x = amounts[0] as int;
        let out = spec_buy_token_out(pool_sol, pool_token, x);
        seq![(SwapInfo {
            token_amount: out as u64,
            sol_amount: spec_apply_slippage_buy(x, bps) as u64,
        })] + spec_batch_buy_quotes(pool_sol + x, pool_token - out, bps, amounts.drop_first())
    }
}

/// Whether every intermediate value of a sequential batch sell stays in
/// the `u64` range: only the growing token reserve can leave it.
pub open spec fn spec_batch_sell_fits(pool_sol: int, pool_token: int, amounts: Seq<u64>) -> bool
    decreases amounts.len(),
{
    if amounts.len() == 0 {
        true
    } else {
        let t = amounts[0] as int;
        let out = spec_sell_sol_out(pool_sol, pool_token, t);
        &&& pool_token + t <= u64::MAX
        &&& spec_batch_sell_fits(pool_sol - out, pool_token + t, amounts.drop_first())
    }
}

/// The quotes of a sequential batch sell: each seller trades against the
/// reserves as the previous sells left them (sol shrinks by the amount
/// paid out, tokens grow by the amount sold in).
pub open spec fn spec_batch_sell_quotes(pool_sol: int, pool_token: int, bps: int, amounts: Seq<u64>) -> Seq<SwapInfo>
    decreases amounts.len(),
{
    if amounts.len() == 0 {
        Seq::empty()
    } else {
        let t = amounts[0] as int;
        let out = spec_sell_sol_out(pool_sol, pool_token, t);
        seq![(SwapInfo {
            token_amount: amounts[0],
            sol_amount: spec_apply_slippage_sell(out, bps) as u64,
        })] + spec_batch_sell_quotes(pool_sol - out, pool_token + t, bps, amounts.drop_first())
    }
}

/// Quote a single buy: how many tokens `sol_amount` lamports buy at the
/// snapshot, and the most the buyer will pay once slippage is applied.
pub fn buy_swap_info(pool: &PoolInfo, sol_amount: u64, slippage_basis_points: u64) -> (r: SwapInfo)
    requires
        slippage_basis_points <= BASIS_POINTS,
        spec_apply_slippage_buy(sol_amount as int, slippage_basis_points as int) <= u64::MAX,
    ensures
        r.token_amount == spec_buy_token_out(
            pool.sol_reserves as int,
            pool.token_reserves as int,
            sol_amount as int,
        ),
        r.sol_amount == spec_apply_slippage_buy(sol_amount as int, slippage_basis_points as int),
{
    SwapInfo {
        token_amount: amm_buy_get_token_out(pool.sol_reserves, pool.token_reserves, sol_amount),
        sol_amount: apply_slippage_buy(sol_amount, slippage_basis_points),
    }
}

/// Quote a single sell: the tokens handed in, and the least the seller
/// will accept for them once slippage is applied.
pub fn sell_swap_info(pool: &PoolInfo, token_amount: u64, slippage_basis_points: u64) -> (r: SwapInfo)
    requires
        slippage_basis_points <= BASIS_POINTS,
    ensures
        r.token_amount == token_amount,
        r.sol_amount == spec_apply_slippage_sell(
            spec_sell_sol_out(pool.sol_reserves as int, pool.token_reserves as int, token_amount as int),
            slippage_basis_points as int,
        ),
{
    let sol_out = amm_sell_get_sol_out(pool.sol_reserves, pool.token_reserves, token_amount);
    SwapInfo {
        token_amount,
        sol_amount: apply_slippage_sell(sol_out, slippage_basis_points),
    }
}

/// Plan the quotes of a batch buy against one reserve snapshot, each
/// item trading after the previous ones. `None` exactly when some
/// intermediate value leaves the `u64` range.
pub fn plan_batch_buy(pool: &PoolInfo, slippage_basis_points: u64, items: &Vec<BatchBuyParam>) -> (r: Option<Vec<SwapInfo>>)
    requires
        slippage_basis_points <= BASIS_POINTS,
    ensures
        r matches Some(quotes) ==> {
            &&& quotes@.len() == items@.len()
            &&& spec_batch_buy_fits(pool.sol_reserves as int, pool.token_reserves as int,
                slippage_basis_points as int, buy_amounts(items@))
            &&& quotes@ == spec_batch_buy_quotes(pool.sol_reserves as int, pool.token_reserves as int,
                slippage_basis_points as int, buy_amounts(items@))
        },
        r is None ==> !spec_batch_buy_fits(pool.sol_reserves as int, pool.token_reserves as int,
            slippage_basis_points as int, buy_amounts(items@)),
{
    let ghost amounts = buy_amounts(items@);
    let ghost sol0 = pool.sol_reserves as int;
    let ghost token0 = pool.token_reserves as int;
    let ghost bps = slippage_basis_points as int;
    proof {
        lemma_buy_amounts(items@);
        assert(amounts.skip(0) =~= amounts);
    }
    let mut quotes: Vec<SwapInfo> = Vec::new();
    let mut pool_sol: u64 = pool.sol_reserves;
    let mut pool_token: u64 = pool.token_reserves;
    let mut i: usize = 0;
    while i < items.len()
        invariant
            i <= items.len(),
            amounts == buy_amounts(items@),
            sol0 == pool.sol_reserves as int,
            token0 == pool.token_reserves as int,
            amounts.len() == items@.len(),
            forall|k: int| 0 <= k < items@.len() ==> #[trigger] amounts[k] == items@[k].sol_amount,
            slippage_basis_points <= BASIS_POINTS,
            bps == slippage_basis_points as int,
            quotes@.len() == i,
            spec_batch_buy_quotes(sol0, token0, bps, amounts)
                == quotes@ + spec_batch_buy_quotes(pool_sol as int, pool_token as int, bps, amounts.skip(i as int)),
            spec_batch_buy_fits(sol0, token0, bps, amounts)
                <==> spec_batch_buy_fits(pool_sol as int, pool_token as int, bps, amounts.skip(i as int)),
        decreases items.len() - i,
    {
        let ghost rest = amounts.skip(i as int);
        proof {
            assert(rest.len() > 0);
            assert(rest[0] == amounts[i as int]);
            assert(rest.drop_first() =~= amounts.skip(i as int + 1));
        }
        let x: u64 = items[i].sol_amount;
        proof {
            vstd::arithmetic::mul::lemma_mul_upper_bound(
                x as int, u64::MAX as int, slippage_basis_points as int, BASIS_POINTS as int);
            vstd::arithmetic::mul::lemma_mul_nonnegative(x as int, slippage_basis_points as int);
            vstd::arithmetic::div_mod::lemma_div_pos_is_pos(
                (x as int) * (slippage_basis_points as int), BASIS_POINTS as int);
        }
        let ceiling_wide: u128 = (x as u128) + (x as u128) * (slippage_basis_points as u128) / (BASIS_POINTS as u128);
        proof {
            assert(ceiling_wide as int == spec_apply_slippage_buy(x as int, bps));
        }
        if ceiling_wide > (u64::MAX as u128) {
            proof {
                assert(!spec_batch_buy_fits(pool_sol as int, pool_token as int, bps, rest));
                assert(!spec_batch_buy_fits(sol0, token0, bps, amounts));
            }
            return None;
        }
        let pool_sol_next: u64 = match pool_sol.checked_add(x) {
            Some(s) => s,
            None => {
                proof {
                    assert(!spec_batch_buy_fits(pool_sol as int, pool_token as int, bps, rest));
                }
                return None;
            }
        };
        let token_out = amm_buy_get_token_out(pool_sol, pool_token, x);
        let max_sol_in = apply_slippage_buy(x, slippage_basis_points);
        quotes.push(SwapInfo { token_amount: token_out, sol_amount: max_sol_in });
        pool_sol = pool_sol_next;
        pool_token = pool_token - token_out;
        i = i + 1;
        proof {
            assert(spec_batch_buy_quotes(sol0, token0, bps, amounts)
                =~= quotes@ + spec_batch_buy_quotes(pool_sol as int, pool_token as int, bps, amounts.skip(i as int)));
        }
    }
    proof {
        assert(amounts.skip(i as int) =~= Seq::<u64>::empty());
        assert(quotes@ =~= quotes@ + spec_batch_buy_quotes(pool_sol as int, pool_token as int, bps, amounts.skip(i as int)));
    }
    Some(quotes)
}

/// Plan the quotes of a batch sell against one reserve snapshot, each
/// item trading after the previous ones. `None` exactly when the growing
/// token reserve leaves the `u64` range.
pub fn plan_batch_sell(pool: &PoolInfo, slippage_basis_points: u64, items: &Vec<BatchSellParam>) -> (r: Option<Vec<SwapInfo>>)
    requires
        slippage_basis_points <= BASIS_POINTS,
    ensures
        r matches Some(quotes) ==> {
            &&& quotes@.len() == items@.len()
            &&& spec_batch_sell_fits(pool.sol_reserves as int, pool.token_reserves as int, sell_amounts(items@))
            &&& quotes@ == spec_batch_sell_quotes(pool.sol_reserves as int, pool.token_reserves as int,
                slippage_basis_points as int, sell_amounts(items@))
        },
        r is None ==> !spec_batch_sell_fits(pool.sol_reserves as int, pool.token_reserves as int,
            sell_amounts(items@)),
{
    let ghost amounts = sell_amounts(items@);
    let ghost sol0 = pool.sol_reserves as int;
    let ghost token0 = pool.token_reserves as int;
    let ghost bps = slippage_basis_points as int;
    proof {
        lemma_sell_amounts(items@);
        assert(amounts.skip(0) =~= amounts);
    }
    let mut quotes: Vec<SwapInfo> = Vec::new();
    let mut pool_sol: u64 = pool.sol_reserves;
    let mut pool_token: u64 = pool.token_reserves;
    let mut i: usize = 0;
    while i < items.len()
        invariant
            i <= items.len(),
            amounts == sell_amounts(items@),
            sol0 == pool.sol_reserves as int,
            token0 == pool.token_reserves as int,
            amounts.len() == items@.len(),
            forall|k: int| 0 <= k < items@.len() ==> #[trigger] amounts[k] == items@[k].token_amount,
            slippage_basis_points <= BASIS_POINTS,
            bps == slippage_basis_points as int,
            quotes@.len() == i,
            spec_batch_sell_quotes(sol0, token0, bps, amounts)
                == quotes@ + spec_batch_sell_quotes(pool_sol as int, pool_token as int, bps, amounts.skip(i as int)),
            spec_batch_sell_fits(sol0, token0, amounts)
                <==> spec_batch_sell_fits(pool_sol as int, pool_token as int, amounts.skip(i as int)),
        decreases items.len() - i,
    {
        let ghost rest = amounts.skip(i as int);
        proof {
            assert(rest.len() > 0);
            assert(rest[0] == amounts[i as int]);
            assert(rest.drop_first() =~= amounts.skip(i as int + 1));
        }
        let t: u64 = items[i].token_amount;
        let pool_token_next: u64 = match pool_token.checked_add(t) {
            Some(s) => s,
            None => {
                proof {
                    assert(!spec_batch_sell_fits(pool_sol as int, pool_token as int, rest));
                }
                return None;
            }
        };
        let sol_out = amm_sell_get_sol_out(pool_sol, pool_token, t);
        let min_sol_out = apply_slippage_sell(sol_out, slippage_basis_points);
        quotes.push(SwapInfo { token_amount: t, sol_amount: min_sol_out });
        pool_sol = pool_sol - sol_out;
        pool_token = pool_token_next;
        i = i + 1;
        proof {
            assert(spec_batch_sell_quotes(sol0, token0, bps, amounts)
                =~= quotes@ + spec_batch_sell_quotes(pool_sol as int, pool_token as int, bps, amounts.skip(i as int)));
        }
    }
    proof {
        assert(amounts.skip(i as int) =~= Seq::<u64>::empty());
        assert(quotes@ =~= quotes@ + spec_batch_sell_quotes(pool_sol as int, pool_token as int, bps, amounts.skip(i as int)));
    }
    Some(quotes)
}

} // verus!
