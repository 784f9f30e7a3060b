use crate::market::liquidity::{
    deposit_rejection, deposit_shares, deposited, lemma_pro_rata, portion, pro_rata, smaller,
    withdrawal_payout, withdrawal_rejection, withdrawn,
};
use crate::market::order::order_rejection;
use crate::market::quote::{
    buy_quote, impact_of, lemma_share_bounded, price_of, quote_of, reserve_of, sell_quote,
};
use crate::market::state::{balance_of, lemma_balance_after_save, DepsView};
use crate::math::{BASIS_POINTS, MAXIMUM_IMPACT, MULTIPLIER};
use crate::packages::market::{InformationView, Shares};
use vstd::arithmetic::div_mod::{
    lemma_div_is_ordered, lemma_div_multiples_vanish, lemma_div_pos_is_pos,
    lemma_fundamental_div_mod, lemma_hoist_over_denominator, lemma_mod_bound,
};
use vstd::prelude::*;

verus! {

/// The price impact is what the amount moved is of the reserve, in whole basis points.
pub proof fn law_impact_is_share_of_reserve(reserve: u128, moved: u128)
    requires
        impact_of(reserve, moved) is Ok,
    ensures
        impact_of(reserve, moved)->Ok_0 == BASIS_POINTS * moved / (reserve as int),
{
    let r = reserve as int;
    lemma_hoist_over_denominator(BASIS_POINTS * moved, BASIS_POINTS as int, reserve as nat);
    assert(BASIS_POINTS * moved + BASIS_POINTS * r == BASIS_POINTS * (reserve + moved));
    lemma_div_pos_is_pos(BASIS_POINTS * moved, r);
}

/// At a fixed reserve a larger amount never has the smaller price impact. The impact is
/// counted in whole basis points, so it grows strictly exactly where the two amounts are
/// different numbers of whole basis points of the reserve, and at least where they lie one
/// basis point of the reserve apart.
pub proof fn law_impact_grows_with_size(reserve: u128, less: u128, more: u128)
    requires
        less <= more,
        impact_of(reserve, less) is Ok,
        impact_of(reserve, more) is Ok,
    ensures
        impact_of(reserve, less)->Ok_0 <= impact_of(reserve, more)->Ok_0,
        impact_of(reserve, less)->Ok_0 < impact_of(reserve, more)->Ok_0 <==> BASIS_POINTS * less / (
        reserve as int) < BASIS_POINTS * more / (reserve as int),
        BASIS_POINTS * (more - less) >= reserve ==> impact_of(reserve, less)->Ok_0 < impact_of(
            reserve,
            more,
        )->Ok_0,
{
    let r = reserve as int;
    law_impact_is_share_of_reserve(reserve, less);
    law_impact_is_share_of_reserve(reserve, more);
    lemma_div_is_ordered(BASIS_POINTS * less, BASIS_POINTS * more, r);
    if BASIS_POINTS * (more - less) >= reserve {
        lemma_hoist_over_denominator(BASIS_POINTS * less, 1, reserve as nat);
        assert(1 * r == r);
        lemma_div_is_ordered(BASIS_POINTS * less + r, BASIS_POINTS * more, r);
    }
}

/// What a trade moves against the reserve of its outcome: a purchase its payment, a sale
/// what the shares sold are worth at the present price.
pub open spec fn moved(
    info: InformationView,
    variant: u128,
    buy_or_sell: u128,
    amount: u128,
) -> int {
    if buy_or_sell == 1 {
        amount as int
    } else {
        amount * price_of(info, variant) / (MULTIPLIER as int)
    }
}

/// At fixed reserves and a fixed price the quote for a larger trade never shows the smaller
/// price impact, and shows a larger one where the two trades move amounts that lie a basis
/// point of the reserve apart.
pub proof fn law_quoted_impact_grows_with_size(
    info: InformationView,
    variant: u128,
    buy_or_sell: u128,
    less: u128,
    more: u128,
)
    requires
        less <= more,
        quote_of(info, variant, buy_or_sell, less) is Ok,
        quote_of(info, variant, buy_or_sell, more) is Ok,
    ensures
        quote_of(info, variant, buy_or_sell, less)->Ok_0.impact <= quote_of(
            info,
            variant,
            buy_or_sell,
            more,
        )->Ok_0.impact,
        BASIS_POINTS * (moved(info, variant, buy_or_sell, more) - moved(
            info,
            variant,
            buy_or_sell,
            less,
        )) >= reserve_of(info, variant) ==> quote_of(info, variant, buy_or_sell, less)->Ok_0.impact
            < quote_of(info, variant, buy_or_sell, more)->Ok_0.impact,
{
    reveal(buy_quote);
    reveal(sell_quote);
    let reserve = reserve_of(info, variant);
    if buy_or_sell == 1 {
        law_impact_grows_with_size(reserve, less, more);
    } else {
        let price = price_of(info, variant);
        assert(less * price <= more * price) by (nonlinear_arith)
            requires
                less <= more,
                0 <= price,
        ;
        lemma_div_is_ordered(less * price, more * price, MULTIPLIER as int);
        let moved_less = (less * price / (MULTIPLIER as int)) as u128;
        let moved_more = (more * price / (MULTIPLIER as int)) as u128;
        law_impact_grows_with_size(reserve, moved_less, moved_more);
    }
}

/// No order passes whose quote shows a price impact above the cap.
pub proof fn law_impact_is_capped(
    pre: DepsView,
    now: u64,
    sender: Seq<char>,
    variant: u128,
    buy_or_sell: u128,
    amount: u128,
    receiver: Seq<char>,
)
    requires
        quote_of(pre.storage.information, variant, buy_or_sell, amount) is Ok,
        quote_of(pre.storage.information, variant, buy_or_sell, amount)->Ok_0.impact
            > MAXIMUM_IMPACT,
    ensures
        order_rejection(pre, now, sender, variant, buy_or_sell, amount, receiver) is Some,
{
}

/// An order that passes moves less than one basis point more than the cap allows: a
/// purchase pays, and a sale takes out at the present price, less than 5.01% of the reserve.
pub proof fn law_accepted_orders_are_small(
    pre: DepsView,
    now: u64,
    sender: Seq<char>,
    variant: u128,
    buy_or_sell: u128,
    amount: u128,
    receiver: Seq<char>,
)
    requires
        order_rejection(pre, now, sender, variant, buy_or_sell, amount, receiver) is None,
    ensures
        BASIS_POINTS * moved(pre.storage.information, variant, buy_or_sell, amount) < (
        MAXIMUM_IMPACT + 1) * reserve_of(pre.storage.information, variant),
{
    reveal(buy_quote);
    reveal(sell_quote);
    let info = pre.storage.information;
    let reserve = reserve_of(info, variant);
    let part = moved(info, variant, buy_or_sell, amount);
    assert(0 <= amount * price_of(info, variant)) by (nonlinear_arith);
    lemma_div_pos_is_pos(amount * price_of(info, variant), MULTIPLIER as int);
    law_impact_is_share_of_reserve(reserve, part as u128);
    lemma_floor(BASIS_POINTS * part, reserve as int);
    assert(BASIS_POINTS * part < (MAXIMUM_IMPACT + 1) * reserve) by (nonlinear_arith)
        requires
            BASIS_POINTS * part < (BASIS_POINTS * part / (reserve as int)) * reserve + reserve,
            BASIS_POINTS * part / (reserve as int) <= MAXIMUM_IMPACT,
            0 < reserve,
    ;
}

/// A trade moves the price of its outcome its own way: measured against the price that the
/// reserves imply before the trade, a purchase quotes no lower price and a sale no higher
/// one.
pub proof fn law_price_follows_the_trade(
    info: InformationView,
    variant: u128,
    buy_or_sell: u128,
    amount: u128,
)
    requires
        quote_of(info, variant, buy_or_sell, amount) is Ok,
        reserve_of(info, variant) + reserve_of(info, (1 - variant) as u128) > 0,
    ensures
        ({
            let reserve = reserve_of(info, variant);
            let other = reserve_of(info, (1 - variant) as u128);
            let implied = MULTIPLIER * reserve / (reserve + other);
            let quoted = quote_of(info, variant, buy_or_sell, amount)->Ok_0.price;
            if buy_or_sell == 1 {
                implied <= quoted
            } else {
                quoted <= implied
            }
        }),
{
    reveal(buy_quote);
    reveal(sell_quote);
    let reserve = reserve_of(info, variant) as int;
    let other = reserve_of(info, (1 - variant) as u128) as int;
    if buy_or_sell == 1 {
        lemma_price_grows_with_reserve(reserve, reserve + amount, other);
    } else {
        let expected = amount * price_of(info, variant) / (MULTIPLIER as int);
        assert(0 <= amount * price_of(info, variant)) by (nonlinear_arith);
        lemma_div_pos_is_pos(amount * price_of(info, variant), MULTIPLIER as int);
        lemma_price_grows_with_reserve(reserve - expected, reserve, other);
    }
}

/// The price that reserves imply for an outcome does not fall when that outcome's reserve
/// grows.
pub proof fn lemma_price_grows_with_reserve(less: int, more: int, other: int)
    requires
        0 <= less <= more,
        0 <= other,
        0 < less + other,
    ensures
        MULTIPLIER * less / (less + other) <= MULTIPLIER * more / (more + other),
{
    let m = MULTIPLIER as int;
    let q = m * less / (less + other);
    lemma_share_bounded(m, less, other);
    lemma_fundamental_div_mod(m * less, less + other);
    lemma_mod_bound(m * less, less + other);
    assert(q * (less + other) <= m * less) by (nonlinear_arith)
        requires
            m * less == (less + other) * q + (m * less) % (less + other),
            0 <= (m * less) % (less + other),
    ;
    assert(q * (more + other) <= m * more) by (nonlinear_arith)
        requires
            q * (less + other) <= m * less,
            0 <= q <= m,
            less <= more,
    ;
    lemma_div_is_ordered(q * (more + other), m * more, more + other);
    assert(q * (more + other) == (more + other) * q) by (nonlinear_arith);
    lemma_div_multiples_vanish(q, more + other);
}

/// Buying an outcome and selling what was bought, both quoted at the same reserves and
/// price, pays back no more than was paid, even before the sale's fee is taken.
pub proof fn law_round_trip_gains_nothing(info: InformationView, variant: u128, amount: u128)
    requires
        quote_of(info, variant, 1, amount) is Ok,
        quote_of(info, variant, 0, quote_of(info, variant, 1, amount)->Ok_0.amount_out) is Ok,
    ensures
        ({
            let bought = quote_of(info, variant, 1, amount)->Ok_0;
            let sold = quote_of(info, variant, 0, bought.amount_out)->Ok_0;
            sold.amount_out + sold.fees <= amount
        }),
{
    reveal(buy_quote);
    reveal(sell_quote);
    let m = MULTIPLIER as int;
    let reserve = reserve_of(info, variant) as int;
    let other = reserve_of(info, (1 - variant) as u128) as int;
    let price = price_of(info, variant) as int;
    let grown = reserve + amount;
    let buy_price = m * grown / (grown + other);
    let minted = amount * m / buy_price;
    let shares = minted - 2 * minted / 100;
    assert(0 <= amount * m) by (nonlinear_arith)
        requires
            0 <= amount,
            0 <= m,
    ;
    lemma_div_pos_is_pos(amount * m, buy_price);
    assert(0 <= shares <= minted);
    let expected = shares * price / m;
    assert(0 <= shares * price) by (nonlinear_arith)
        requires
            0 <= shares,
            0 <= price,
    ;
    lemma_div_pos_is_pos(shares * price, m);
    let left = reserve - expected;
    let sell_price = m * left / (left + other);
    let output = shares * sell_price / m;
    lemma_price_grows_with_reserve(left, grown, other);
    lemma_share_bounded(m, left, other);
    assert(shares * sell_price <= minted * buy_price) by (nonlinear_arith)
        requires
            0 <= shares <= minted,
            0 <= sell_price <= buy_price,
    ;
    lemma_fundamental_div_mod(amount * m, buy_price);
    lemma_mod_bound(amount * m, buy_price);
    assert(minted * buy_price <= amount * m) by (nonlinear_arith)
        requires
            amount * m == buy_price * minted + (amount * m) % buy_price,
            0 <= (amount * m) % buy_price,
    ;
    lemma_div_is_ordered(shares * sell_price, amount * m, m);
    assert(amount * m == m * amount) by (nonlinear_arith);
    lemma_div_multiples_vanish(amount as int, m);
    assert(0 <= shares * sell_price) by (nonlinear_arith)
        requires
            0 <= shares,
            0 <= sell_price,
    ;
    lemma_div_pos_is_pos(shares * sell_price, m);
    assert(output <= amount);
}

/// The whole part of a quotient times the divisor is not above the numerator, and falls
/// short of it by less than the divisor.
pub proof fn lemma_floor(x: int, d: int)
    requires
        0 <= x,
        0 < d,
    ensures
        0 <= x / d,
        (x / d) * d <= x < (x / d) * d + d,
{
    lemma_fundamental_div_mod(x, d);
    lemma_mod_bound(x, d);
    lemma_div_pos_is_pos(x, d);
    assert((x / d) * d == d * (x / d)) by (nonlinear_arith);
}

/// Depositing what a withdrawal took out of the reserves, or less, at prices that sum to
/// no more than one whole, mints no more liquidity shares than the withdrawal burnt.
pub proof fn lemma_deposit_after_withdrawal(
    yes: int,
    no: int,
    total: int,
    shares: int,
    yes_price: int,
    no_price: int,
    paid: int,
)
    requires
        0 <= yes,
        0 <= no,
        0 <= shares <= total,
        0 < total,
        0 <= yes_price,
        0 <= no_price,
        yes_price + no_price <= MULTIPLIER,
        0 <= paid <= shares * yes / total + shares * no / total,
        0 < yes - shares * yes / total,
        0 < no - shares * no / total,
    ensures
        smaller(
            (yes_price * paid / (MULTIPLIER as int)) * (total - shares) / (yes - shares * yes
                / total),
            (no_price * paid / (MULTIPLIER as int)) * (total - shares) / (no - shares * no / total),
        ) <= shares,
{
    let m = MULTIPLIER as int;
    let yes_out = shares * yes / total;
    let no_out = shares * no / total;
    let yes_left = yes - yes_out;
    let no_left = no - no_out;
    let left = total - shares;
    let yes_in = yes_price * paid / m;
    let no_in = no_price * paid / m;
    let by_yes = yes_in * left / yes_left;
    let by_no = no_in * left / no_left;
    assert(0 <= shares * yes && 0 <= shares * no && 0 <= yes_price * paid && 0 <= no_price * paid)
        by (nonlinear_arith)
        requires
            0 <= shares,
            0 <= yes,
            0 <= no,
            0 <= yes_price,
            0 <= no_price,
            0 <= paid,
    ;
    lemma_floor(shares * yes, total);
    lemma_floor(shares * no, total);
    lemma_floor(yes_price * paid, m);
    lemma_floor(no_price * paid, m);
    assert(0 <= yes_in * left && 0 <= no_in * left) by (nonlinear_arith)
        requires
            0 <= yes_in,
            0 <= no_in,
            0 <= left,
    ;
    lemma_floor(yes_in * left, yes_left);
    lemma_floor(no_in * left, no_left);
    if by_yes > shares && by_no > shares {
        assert((shares + 1) * yes_left <= yes_in * left) by (nonlinear_arith)
            requires
                by_yes * yes_left <= yes_in * left,
                shares + 1 <= by_yes,
                0 < yes_left,
        ;
        assert((shares + 1) * no_left <= no_in * left) by (nonlinear_arith)
            requires
                by_no * no_left <= no_in * left,
                shares + 1 <= by_no,
                0 < no_left,
        ;
        assert((yes_in + no_in) * m <= m * paid) by (nonlinear_arith)
            requires
                yes_in * m <= yes_price * paid,
                no_in * m <= no_price * paid,
                yes_price + no_price <= m,
                0 <= paid,
        ;
        assert(yes_in + no_in <= paid) by (nonlinear_arith)
            requires
                (yes_in + no_in) * m <= m * paid,
                0 < m,
        ;
        let out = yes_out + no_out;
        assert((shares + 1) * (yes_left + no_left) <= out * left) by (nonlinear_arith)
            requires
                (shares + 1) * yes_left <= yes_in * left,
                (shares + 1) * no_left <= no_in * left,
                yes_in + no_in <= out,
                0 <= left,
        ;
        assert(out * total <= shares * (yes + no)) by (nonlinear_arith)
            requires
                yes_out * total <= shares * yes,
                no_out * total <= shares * no,
                out == yes_out + no_out,
        ;
        assert(false) by (nonlinear_arith)
            requires
                (shares + 1) * (yes_left + no_left) <= out * left,
                out * total <= shares * (yes + no),
                yes_left + no_left == yes + no - out,
                left == total - shares,
                0 < yes_left + no_left,
                0 <= shares,
        ;
    }
}

/// Withdrawing liquidity and at once depositing what the withdrawal paid, at prices that
/// sum to one whole, leaves neither the pool nor the account with more liquidity shares
/// than before.
pub proof fn law_withdraw_then_deposit_never_gains(
    pre: DepsView,
    sender: Seq<char>,
    shares: u128,
    receiver: Seq<char>,
)
    requires
        pre.storage.information.yes_price + pre.storage.information.no_price == MULTIPLIER,
        withdrawal_rejection(pre, sender, shares, receiver) is None,
        deposit_rejection(
            DepsView { storage: withdrawn(pre.storage, shares, receiver), ..pre },
            sender,
            withdrawal_payout(pre, shares) as u128,
            receiver,
        ) is None,
    ensures
        ({
            let between = withdrawn(pre.storage, shares, receiver);
            let paid = withdrawal_payout(pre, shares) as u128;
            let after = deposited(between, paid, receiver);
            &&& deposit_shares(between.information, paid) <= shares
            &&& after.information.liquidity_shares <= pre.storage.information.liquidity_shares
            &&& balance_of(after.shares, receiver).liquidity_shares <= balance_of(
                pre.storage.shares,
                receiver,
            ).liquidity_shares
        }),
{
    let info = pre.storage.information;
    let between = withdrawn(pre.storage, shares, receiver);
    let paid = withdrawal_payout(pre, shares) as u128;
    lemma_pro_rata(shares, info.yes_liquidity, info.liquidity_shares);
    lemma_pro_rata(shares, info.no_liquidity, info.liquidity_shares);
    lemma_deposit_after_withdrawal(
        info.yes_liquidity as int,
        info.no_liquidity as int,
        info.liquidity_shares as int,
        shares as int,
        info.yes_price as int,
        info.no_price as int,
        paid as int,
    );
    let before = balance_of(pre.storage.shares, receiver);
    lemma_balance_after_save(
        pre.storage.shares,
        receiver,
        Shares { liquidity_shares: (before.liquidity_shares - shares) as u128, ..before },
    );
    let held = balance_of(between.shares, receiver);
    lemma_balance_after_save(
        between.shares,
        receiver,
        Shares {
            liquidity_shares: (held.liquidity_shares + deposit_shares(between.information, paid))
                as u128,
            ..held
        },
    );
}

/// Where a price is exactly the reserve's part of both reserves and the withdrawal's
/// divisions leave no remainder, the deposit of what was withdrawn puts back into the
/// reserve what was taken from it, and is worth the shares that were burnt.
pub proof fn lemma_exact_deposit(
    reserve: int,
    reserves: int,
    total: int,
    shares: int,
    price: int,
    paid: int,
)
    requires
        0 <= reserve <= reserves,
        0 <= shares <= total,
        0 < total,
        0 <= price,
        price * reserves == MULTIPLIER * reserve,
        (shares * reserve) % total == 0,
        paid * total == shares * reserves,
        0 < reserve - shares * reserve / total,
    ensures
        price * paid / (MULTIPLIER as int) == shares * reserve / total,
        (price * paid / (MULTIPLIER as int)) * (total - shares) / (reserve - shares * reserve
            / total) == shares,
{
    let m = MULTIPLIER as int;
    let out = shares * reserve / total;
    lemma_fundamental_div_mod(shares * reserve, total);
    assert(out * total == shares * reserve) by (nonlinear_arith)
        requires
            shares * reserve == total * out + 0,
    ;
    let paid_out = paid * total;
    let all = shares * reserves;
    let worth = price * reserves;
    let part = shares * reserve;
    assert((price * paid) * total == price * paid_out) by (nonlinear_arith)
        requires
            paid_out == paid * total,
    ;
    assert(price * all == shares * worth) by (nonlinear_arith)
        requires
            all == shares * reserves,
            worth == price * reserves,
    ;
    assert(shares * (m * reserve) == m * part) by (nonlinear_arith)
        requires
            part == shares * reserve,
    ;
    assert(m * part == (m * out) * total) by (nonlinear_arith)
        requires
            part == out * total,
    ;
    assert((price * paid) * total == (m * out) * total);
    assert(price * paid == m * out) by (nonlinear_arith)
        requires
            (price * paid) * total == (m * out) * total,
            0 < total,
    ;
    lemma_div_multiples_vanish(out, m);
    let left = reserve - out;
    assert(out * (total - shares) == left * shares) by (nonlinear_arith)
        requires
            out * total == shares * reserve,
            left == reserve - out,
    ;
    lemma_div_multiples_vanish(shares, left);
}

/// Where the prices are exactly the reserves' parts of the pool, the withdrawal's divisions
/// leave no remainder and the market holds what its reserves say, withdrawing liquidity and
/// at once depositing what the withdrawal paid restores the record and the account's
/// holdings: what is lost otherwise is lost to rounding.
pub proof fn law_withdraw_then_deposit_restores(
    pre: DepsView,
    sender: Seq<char>,
    shares: u128,
    receiver: Seq<char>,
)
    requires
        ({
            let info = pre.storage.information;
            let reserves = info.yes_liquidity + info.no_liquidity;
            &&& info.yes_price * reserves == MULTIPLIER * info.yes_liquidity
            &&& info.no_price * reserves == MULTIPLIER * info.no_liquidity
            &&& (shares * info.yes_liquidity) % (info.liquidity_shares as int) == 0
            &&& (shares * info.no_liquidity) % (info.liquidity_shares as int) == 0
            &&& pre.querier.balance is Some
            &&& pre.querier.balance->0 >= pro_rata(
                shares,
                info.yes_liquidity,
                info.liquidity_shares,
            ) + pro_rata(shares, info.no_liquidity, info.liquidity_shares)
        }),
        withdrawal_rejection(pre, sender, shares, receiver) is None,
        deposit_rejection(
            DepsView { storage: withdrawn(pre.storage, shares, receiver), ..pre },
            sender,
            withdrawal_payout(pre, shares) as u128,
            receiver,
        ) is None,
    ensures
        ({
            let between = withdrawn(pre.storage, shares, receiver);
            let paid = withdrawal_payout(pre, shares) as u128;
            let after = deposited(between, paid, receiver);
            &&& deposit_shares(between.information, paid) == shares
            &&& after.information == pre.storage.information
            &&& balance_of(after.shares, receiver) == balance_of(pre.storage.shares, receiver)
        }),
{
    let info = pre.storage.information;
    let total = info.liquidity_shares as int;
    let yes = info.yes_liquidity as int;
    let no = info.no_liquidity as int;
    let between = withdrawn(pre.storage, shares, receiver);
    let paid = withdrawal_payout(pre, shares) as u128;
    lemma_pro_rata(shares, info.yes_liquidity, info.liquidity_shares);
    lemma_pro_rata(shares, info.no_liquidity, info.liquidity_shares);
    let yes_out = shares * yes / total;
    let no_out = shares * no / total;
    lemma_fundamental_div_mod(shares * yes, total);
    lemma_fundamental_div_mod(shares * no, total);
    assert(paid * total == shares * (yes + no)) by (nonlinear_arith)
        requires
            paid == yes_out + no_out,
            shares * yes == total * yes_out + 0,
            shares * no == total * no_out + 0,
    ;
    lemma_exact_deposit(yes, yes + no, total, shares as int, info.yes_price as int, paid as int);
    lemma_exact_deposit(no, yes + no, total, shares as int, info.no_price as int, paid as int);
    let before = balance_of(pre.storage.shares, receiver);
    lemma_balance_after_save(
        pre.storage.shares,
        receiver,
        Shares { liquidity_shares: (before.liquidity_shares - shares) as u128, ..before },
    );
    let held = balance_of(between.shares, receiver);
    lemma_balance_after_save(
        between.shares,
        receiver,
        Shares {
            liquidity_shares: (held.liquidity_shares + deposit_shares(between.information, paid))
                as u128,
            ..held
        },
    );
}

/// Where a price is exactly the reserve's part of both reserves, the deposit of what a
/// withdrawal took out is worth, by this reserve, nearly the shares that were burnt: what
/// is missing is worth less than three shares of the pool and one unit of what is left of
/// the reserve.
pub proof fn lemma_deposit_by_one_reserve(
    reserve: int,
    other: int,
    total: int,
    shares: int,
    price: int,
)
    requires
        0 <= reserve,
        0 <= other,
        0 <= shares <= total,
        0 < total,
        0 <= price,
        price * (reserve + other) == MULTIPLIER * reserve,
        0 < reserve - shares * reserve / total,
    ensures
        ({
            let paid = shares * reserve / total + shares * other / total;
            let left = reserve - shares * reserve / total;
            (shares - (price * paid / (MULTIPLIER as int)) * (total - shares) / left) * left < 3
                * total + left
        }),
{
    let m = MULTIPLIER as int;
    let out = shares * reserve / total;
    let other_out = shares * other / total;
    let paid = out + other_out;
    let left = reserve - out;
    let rest = total - shares;
    let put = price * paid / m;
    let worth = put * rest / left;
    let both = reserve + other;
    assert(0 <= shares * reserve && 0 <= shares * other) by (nonlinear_arith)
        requires
            0 <= shares,
            0 <= reserve,
            0 <= other,
    ;
    lemma_floor(shares * reserve, total);
    lemma_floor(shares * other, total);
    assert(0 <= price * paid) by (nonlinear_arith)
        requires
            0 <= price,
            0 <= paid,
    ;
    lemma_floor(price * paid, m);
    assert(0 <= put * rest) by (nonlinear_arith)
        requires
            0 <= put,
            0 <= rest,
    ;
    lemma_floor(put * rest, left);
    assert(put * both > reserve * paid - both) by (nonlinear_arith)
        requires
            price * paid < put * m + m,
            price * both == m * reserve,
            0 < m,
            0 <= paid,
            0 < both,
    ;
    assert(paid * total > shares * both - 2 * total) by (nonlinear_arith)
        requires
            shares * reserve < out * total + total,
            shares * other < other_out * total + total,
            paid == out + other_out,
            both == reserve + other,
    ;
    assert((put - out + 3) * both * total > 0) by (nonlinear_arith)
        requires
            put * both > reserve * paid - both,
            paid * total > shares * both - 2 * total,
            out * total <= shares * reserve,
            0 <= reserve <= both,
            0 < total,
            0 < both,
    ;
    assert(put - out + 3 > 0) by (nonlinear_arith)
        requires
            (put - out + 3) * both * total > 0,
            0 < total,
            0 < both,
    ;
    assert((shares - worth) * left < 3 * total + left) by (nonlinear_arith)
        requires
            put * rest < worth * left + left,
            put >= out - 2,
            shares * reserve < out * total + total,
            left == reserve - out,
            rest == total - shares,
            0 <= rest <= total,
            0 <= shares,
            0 < left,
    ;
}

/// Where the prices are exactly the reserves' parts of the pool and the market holds what
/// its reserves say, withdrawing liquidity and at once depositing what the withdrawal paid
/// loses little: the shares that are not minted again, counted in units of the smaller
/// reserve, are worth less than three times the pool's shares and one unit of that
/// reserve.
pub proof fn law_withdraw_then_deposit_loses_little(
    pre: DepsView,
    sender: Seq<char>,
    shares: u128,
    receiver: Seq<char>,
)
    requires
        ({
            let info = pre.storage.information;
            let reserves = info.yes_liquidity + info.no_liquidity;
            &&& info.yes_price * reserves == MULTIPLIER * info.yes_liquidity
            &&& info.no_price * reserves == MULTIPLIER * info.no_liquidity
            &&& pre.querier.balance is Some
            &&& pre.querier.balance->0 >= pro_rata(
                shares,
                info.yes_liquidity,
                info.liquidity_shares,
            ) + pro_rata(shares, info.no_liquidity, info.liquidity_shares)
        }),
        withdrawal_rejection(pre, sender, shares, receiver) is None,
        deposit_rejection(
            DepsView { storage: withdrawn(pre.storage, shares, receiver), ..pre },
            sender,
            withdrawal_payout(pre, shares) as u128,
            receiver,
        ) is None,
    ensures
        ({
            let between = withdrawn(pre.storage, shares, receiver).information;
            let paid = withdrawal_payout(pre, shares) as u128;
            let least = smaller(between.yes_liquidity as int, between.no_liquidity as int);
            (shares - deposit_shares(between, paid)) * least < 3
                * pre.storage.information.liquidity_shares + least
        }),
{
    let info = pre.storage.information;
    let total = info.liquidity_shares as int;
    let yes = info.yes_liquidity as int;
    let no = info.no_liquidity as int;
    let between = withdrawn(pre.storage, shares, receiver).information;
    let paid = withdrawal_payout(pre, shares) as u128;
    lemma_pro_rata(shares, info.yes_liquidity, info.liquidity_shares);
    lemma_pro_rata(shares, info.no_liquidity, info.liquidity_shares);
    lemma_deposit_by_one_reserve(yes, no, total, shares as int, info.yes_price as int);
    lemma_deposit_by_one_reserve(no, yes, total, shares as int, info.no_price as int);
    let yes_left = between.yes_liquidity as int;
    let no_left = between.no_liquidity as int;
    let least = smaller(yes_left, no_left);
    let by_yes = portion(info.yes_price, paid) * between.liquidity_shares / yes_left;
    let by_no = portion(info.no_price, paid) * between.liquidity_shares / no_left;
    let minted = deposit_shares(between, paid);
    assert(minted == smaller(by_yes, by_no));
    assert((shares - by_yes) * yes_left < 3 * total + yes_left);
    assert((shares - by_no) * no_left < 3 * total + no_left);
    if minted == by_yes {
        assert((shares - minted) * least < 3 * total + least) by (nonlinear_arith)
            requires
                (shares - minted) * yes_left < 3 * total + yes_left,
                0 < least <= yes_left,
                0 < total,
        ;
    } else {
        assert((shares - minted) * least < 3 * total + least) by (nonlinear_arith)
            requires
                (shares - minted) * no_left < 3 * total + no_left,
                0 < least <= no_left,
                0 < total,
        ;
    }
}

} // verus!
