//! The confidential instructions: what the encrypted computation does to the
//! market and to a trader's bet once both are decrypted.

use vstd::prelude::*;
use crate::lmsr::{cost_defined, lemma_cost_never_falls, lmsr_cost, LMSR};

verus! {

/// A Solana address as the confidential instructions carry it: two 128-bit
/// halves.
#[derive(Clone, Copy, Debug, PartialEq, Eq, Structural)]
pub struct SerializedSolanaPublicKey {
    pub lo: u128,
    pub hi: u128,
}

/// A trader's order: the side, the number of shares, and the trader's token
/// account. After a trade `amount` holds the price of the order.
pub struct UserBet {
    pub is_yes: bool,
    pub amount: u64,
    pub user_token_pubkey: SerializedSolanaPublicKey,
}

/// The cost of the market `m` at its current totals.
pub open spec fn market_cost(m: LMSR) -> int {
    lmsr_cost(m.total_yes_shares as int, m.total_no_shares as int, m.lmsr_b as int)
}

/// `m` with `amount` shares added to one side.
pub open spec fn with_bought(m: LMSR, is_yes: bool, amount: u64) -> LMSR {
    if is_yes {
        LMSR { total_yes_shares: (m.total_yes_shares + amount) as u64, ..m }
    } else {
        LMSR { total_no_shares: (m.total_no_shares + amount) as u64, ..m }
    }
}

/// `m` with `amount` shares taken from one side.
pub open spec fn with_sold(m: LMSR, is_yes: bool, amount: u64) -> LMSR {
    if is_yes {
        LMSR { total_yes_shares: (m.total_yes_shares - amount) as u64, ..m }
    } else {
        LMSR { total_no_shares: (m.total_no_shares - amount) as u64, ..m }
    }
}

/// A purchase of `bet` can be priced on `m`: the side's total does not
/// overflow and both costs can be computed.
pub open spec fn buy_defined(m: LMSR, bet: UserBet) -> bool {
    let after = with_bought(m, bet.is_yes, bet.amount);
    &&& cost_defined(m.total_yes_shares as int, m.total_no_shares as int, m.lmsr_b as int)
    &&& (if bet.is_yes {
        m.total_yes_shares + bet.amount <= u64::MAX
    } else {
        m.total_no_shares + bet.amount <= u64::MAX
    })
    &&& cost_defined(after.total_yes_shares as int, after.total_no_shares as int, m.lmsr_b as int)
}

/// A sale of `bet` can be priced on `m`: the side holds at least the shares
/// sold and both costs can be computed.
pub open spec fn sell_defined(m: LMSR, bet: UserBet) -> bool {
    let after = with_sold(m, bet.is_yes, bet.amount);
    &&& cost_defined(m.total_yes_shares as int, m.total_no_shares as int, m.lmsr_b as int)
    &&& (if bet.is_yes {
        bet.amount <= m.total_yes_shares
    } else {
        bet.amount <= m.total_no_shares
    })
    &&& cost_defined(after.total_yes_shares as int, after.total_no_shares as int, m.lmsr_b as int)
}

/// Creates the market state from the creator's liquidity parameter.
pub fn create_market(creater_input: u64) -> (lmsr: LMSR)
    requires
        cost_defined(0, 0, creater_input as int),
    ensures
        lmsr.lmsr_b == creater_input,
        lmsr.total_yes_shares == 0,
        lmsr.total_no_shares == 0,
        lmsr.initial_deposit == lmsr_cost(0, 0, creater_input as int),
{
    LMSR::init_market_data(creater_input)
}

/// Buys `user_buy.amount` shares of one side: the market's total for that
/// side grows by the amount, and the returned bet carries the price, the
/// rise in the market's cost.
pub fn buy_share(user_buy: UserBet, market_data: LMSR) -> (res: (LMSR, UserBet))
    requires
        buy_defined(market_data, user_buy),
    ensures
        res.0 == with_bought(market_data, user_buy.is_yes, user_buy.amount),
        res.1.amount == market_cost(res.0) - market_cost(market_data),
        res.1.is_yes == user_buy.is_yes,
        res.1.user_token_pubkey == user_buy.user_token_pubkey,
        user_buy.is_yes ==> res.0.total_yes_shares == market_data.total_yes_shares + user_buy.amount,
        user_buy.is_yes ==> res.0.total_no_shares == market_data.total_no_shares,
        !user_buy.is_yes ==> res.0.total_no_shares == market_data.total_no_shares + user_buy.amount,
        !user_buy.is_yes ==> res.0.total_yes_shares == market_data.total_yes_shares,
        res.0.lmsr_b == market_data.lmsr_b,
        res.0.initial_deposit == market_data.initial_deposit,
        res.1.amount == lmsr_cost(
            res.0.total_yes_shares as int,
            res.0.total_no_shares as int,
            market_data.lmsr_b as int,
        ) - lmsr_cost(
            market_data.total_yes_shares as int,
            market_data.total_no_shares as int,
            market_data.lmsr_b as int,
        ),
{
    let mut lmsr_data = market_data;
    let mut user_buy_data = user_buy;
    let c_one = lmsr_data.cost_calculation(
        lmsr_data.total_yes_shares,
        lmsr_data.total_no_shares,
        lmsr_data.lmsr_b,
    );
    let c_two;
    if user_buy_data.is_yes {
        c_two = lmsr_data.cost_calculation(
            lmsr_data.total_yes_shares + user_buy_data.amount,
            lmsr_data.total_no_shares,
            lmsr_data.lmsr_b,
        );
        lmsr_data.total_yes_shares = lmsr_data.total_yes_shares + user_buy_data.amount;
    } else {
        c_two = lmsr_data.cost_calculation(
            lmsr_data.total_yes_shares,
            lmsr_data.total_no_shares + user_buy_data.amount,
            lmsr_data.lmsr_b,
        );
        lmsr_data.total_no_shares = lmsr_data.total_no_shares + user_buy_data.amount;
    }
    proof {
        lemma_buy_raises_cost(market_data, user_buy);
    }
    let price_share = c_two - c_one;
    user_buy_data.amount = price_share;
    (lmsr_data, user_buy_data)
}

/// Sells `user_sell.amount` shares of one side: the market's total for that
/// side shrinks by the amount, and the returned bet carries the proceeds, the
/// fall in the market's cost.
pub fn sell_share(user_sell: UserBet, market_data: LMSR) -> (res: (LMSR, UserBet))
    requires
        sell_defined(market_data, user_sell),
    ensures
        res.0 == with_sold(market_data, user_sell.is_yes, user_sell.amount),
        res.1.amount == market_cost(market_data) - market_cost(res.0),
        res.1.is_yes == user_sell.is_yes,
        res.1.user_token_pubkey == user_sell.user_token_pubkey,
        user_sell.is_yes ==> res.0.total_yes_shares == market_data.total_yes_shares - user_sell.amount,
        user_sell.is_yes ==> res.0.total_no_shares == market_data.total_no_shares,
        !user_sell.is_yes ==> res.0.total_no_shares == market_data.total_no_shares - user_sell.amount,
        !user_sell.is_yes ==> res.0.total_yes_shares == market_data.total_yes_shares,
        res.0.lmsr_b == market_data.lmsr_b,
        res.0.initial_deposit == market_data.initial_deposit,
        res.1.amount == lmsr_cost(
            market_data.total_yes_shares as int,
            market_data.total_no_shares as int,
            market_data.lmsr_b as int,
        ) - lmsr_cost(
            res.0.total_yes_shares as int,
            res.0.total_no_shares as int,
            market_data.lmsr_b as int,
        ),
{
    let mut lmsr_data = market_data;
    let mut user_sell_data = user_sell;
    let c_one = lmsr_data.cost_calculation(
        lmsr_data.total_yes_shares,
        lmsr_data.total_no_shares,
        lmsr_data.lmsr_b,
    );
    let c_two;
    if user_sell_data.is_yes {
        c_two = lmsr_data.cost_calculation(
            lmsr_data.total_yes_shares - user_sell_data.amount,
            lmsr_data.total_no_shares,
            lmsr_data.lmsr_b,
        );
        lmsr_data.total_yes_shares = lmsr_data.total_yes_shares - user_sell_data.amount;
    } else {
        c_two = lmsr_data.cost_calculation(
            lmsr_data.total_yes_shares,
            lmsr_data.total_no_shares - user_sell_data.amount,
            lmsr_data.lmsr_b,
        );
        lmsr_data.total_no_shares = lmsr_data.total_no_shares - user_sell_data.amount;
    }
    proof {
        lemma_sell_lowers_cost(market_data, user_sell);
    }
    let price_share = c_one - c_two;
    user_sell_data.amount = price_share;
    (lmsr_data, user_sell_data)
}

/// Selling the shares just bought restores the market and pays back exactly
/// the price of the purchase.
pub proof fn lemma_sell_undoes_buy(m: LMSR, bet: UserBet)
    requires
        buy_defined(m, bet),
    ensures
        sell_defined(with_bought(m, bet.is_yes, bet.amount), bet),
        with_sold(with_bought(m, bet.is_yes, bet.amount), bet.is_yes, bet.amount) == m,
        market_cost(with_bought(m, bet.is_yes, bet.amount)) - market_cost(
            with_sold(with_bought(m, bet.is_yes, bet.amount), bet.is_yes, bet.amount),
        ) == market_cost(with_bought(m, bet.is_yes, bet.amount)) - market_cost(m),
{
}

/// Buying back the shares just sold restores the market and costs exactly
/// the proceeds of the sale.
pub proof fn lemma_buy_undoes_sell(m: LMSR, bet: UserBet)
    requires
        sell_defined(m, bet),
    ensures
        buy_defined(with_sold(m, bet.is_yes, bet.amount), bet),
        with_bought(with_sold(m, bet.is_yes, bet.amount), bet.is_yes, bet.amount) == m,
        market_cost(with_bought(with_sold(m, bet.is_yes, bet.amount), bet.is_yes, bet.amount))
            - market_cost(with_sold(m, bet.is_yes, bet.amount)) == market_cost(m) - market_cost(
            with_sold(m, bet.is_yes, bet.amount),
        ),
{
}

/// A trade changes only the traded side's total, by exactly the amount
/// traded; the liquidity parameter and the initial deposit stay as they were.
pub proof fn lemma_trade_moves_one_side(m: LMSR, is_yes: bool, amount: u64)
    requires
        is_yes ==> m.total_yes_shares + amount <= u64::MAX,
        !is_yes ==> m.total_no_shares + amount <= u64::MAX,
    ensures
        with_bought(m, is_yes, amount).lmsr_b == m.lmsr_b,
        with_bought(m, is_yes, amount).initial_deposit == m.initial_deposit,
        with_bought(m, is_yes, amount).total_yes_shares + with_bought(m, is_yes, amount).total_no_shares
            == m.total_yes_shares + m.total_no_shares + amount,
        is_yes ==> with_bought(m, is_yes, amount).total_no_shares == m.total_no_shares,
        !is_yes ==> with_bought(m, is_yes, amount).total_yes_shares == m.total_yes_shares,
{
}

/// A purchase never lowers the market's cost: its price is never negative.
pub proof fn lemma_buy_raises_cost(m: LMSR, bet: UserBet)
    requires
        buy_defined(m, bet),
    ensures
        market_cost(with_bought(m, bet.is_yes, bet.amount)) >= market_cost(m),
{
    let after = with_bought(m, bet.is_yes, bet.amount);
    lemma_cost_never_falls(
        m.total_yes_shares as int,
        m.total_no_shares as int,
        after.total_yes_shares as int,
        after.total_no_shares as int,
        m.lmsr_b as int,
    );
}

/// A sale never raises the market's cost: its proceeds are never negative.
pub proof fn lemma_sell_lowers_cost(m: LMSR, bet: UserBet)
    requires
        sell_defined(m, bet),
    ensures
        market_cost(with_sold(m, bet.is_yes, bet.amount)) <= market_cost(m),
{
    let after = with_sold(m, bet.is_yes, bet.amount);
    lemma_cost_never_falls(
        after.total_yes_shares as int,
        after.total_no_shares as int,
        m.total_yes_shares as int,
        m.total_no_shares as int,
        m.lmsr_b as int,
    );
}

} // verus!
