use crate::market::contract::{outcome, rejection};
use crate::market::liquidity::{bootstrap_rejection, bootstrapped, deposit_shares, portion};
use crate::market::order::{
    credited, held, lemma_quote_bounds, order_messages, order_rejection, order_storage, with_held,
};
use crate::market::quote::{quote_of, reserve_of};
use crate::market::settlement::{claim_payout, resolution_rejection, settled};
use crate::book::{distinct, lemma_saved_distinct, saved};
use crate::market::state::{
    amount_of, backed, balance_of, lemma_total_after_save, total_held, DepsView, HolderView,
    Holding, StorageView,
};
use crate::market::query::page_of;
use crate::math::{integer_sqrt, MULTIPLIER};
use crate::pagination::{page_rejection, page_start, pages};
use vstd::arithmetic::div_mod::{
    lemma_div_is_ordered, lemma_div_pos_is_pos, lemma_fundamental_div_mod, lemma_mod_bound,
};
use crate::packages::market::{ExecuteMsg, Order, Shares};
use vstd::prelude::*;

verus! {

/// After a bootstrap, an order or a resolution the two prices sum to one whole, and a
/// resolution prices the winning outcome at one whole. Deposits, withdrawals and claims
/// leave the prices as they are.
pub proof fn law_prices_sum_to_one(pre: DepsView, now: u64, sender: Seq<char>, msg: ExecuteMsg)
    requires
        rejection(pre, now, sender, msg) is None,
    ensures
        ({
            let before = pre.storage.information;
            let after = outcome(pre, now, msg).information;
            &&& (msg is InitializeLiquidity || msg is PlaceOrder || msg is ResolveMarket)
                ==> after.yes_price + after.no_price == MULTIPLIER
            &&& msg is ResolveMarket ==> (after.yes_price == MULTIPLIER <==> after.resolved_to == 1)
            &&& (msg is AddLiquidity || msg is RemoveLiquidity || msg is Claim) ==> after.yes_price
                == before.yes_price && after.no_price == before.no_price
        }),
{
    match msg {
        ExecuteMsg::PlaceOrder { variant, buy_or_sell, amount, receiver } => {
            lemma_quote_bounds(pre.storage.information, variant, buy_or_sell, amount);
        },
        _ => {},
    }
}

/// A resolved market stays resolved to the same outcome at the same prices: it takes
/// claims and withdrawals and nothing else.
pub proof fn law_resolution_is_final(pre: DepsView, now: u64, sender: Seq<char>, msg: ExecuteMsg)
    requires
        pre.storage.information.resolved,
        rejection(pre, now, sender, msg) is None,
    ensures
        msg is Claim || msg is RemoveLiquidity,
        ({
            let before = pre.storage.information;
            let after = outcome(pre, now, msg).information;
            &&& after.resolved
            &&& after.resolved_to == before.resolved_to
            &&& after.yes_price == before.yes_price
            &&& after.no_price == before.no_price
        }),
{
}

/// A pool is bootstrapped once: a market that is priced or resolved takes no bootstrap, and
/// a bootstrap leaves the market priced.
pub proof fn law_bootstrap_happens_once(
    pre: DepsView,
    now: u64,
    sender: Seq<char>,
    yes_price: u128,
    liquidity: u128,
    receiver: Seq<char>,
)
    ensures
        pre.storage.information.yes_price != 0 || pre.storage.information.resolved
            ==> bootstrap_rejection(pre, sender, yes_price, liquidity, receiver) is Some,
        bootstrap_rejection(pre, sender, yes_price, liquidity, receiver) is None
            ==> bootstrapped(
            pre.storage,
            now,
            yes_price,
            liquidity,
            receiver,
        ).information.yes_price != 0,
{
}

/// The price history only grows: a bootstrap and an order add the price of Yes that they
/// leave, with the time of the call, and no other call touches the history.
pub proof fn law_history_only_grows(pre: DepsView, now: u64, sender: Seq<char>, msg: ExecuteMsg)
    requires
        rejection(pre, now, sender, msg) is None,
    ensures
        ({
            let before = pre.storage.order_list;
            let after = outcome(pre, now, msg);
            if msg is InitializeLiquidity || msg is PlaceOrder {
                after.order_list == before.push(
                    Order { timestamp: now, price: after.information.yes_price },
                )
            } else {
                after.order_list == before
            }
        }),
{
}

/// An order moves the reserve of its outcome by the currency that the market takes in or
/// pays out: a purchase adds its payment, a sale takes away what goes to the seller and to
/// the fee collector. The other reserve and the liquidity shares stay as they are.
pub proof fn law_orders_conserve_liquidity(
    pre: DepsView,
    now: u64,
    sender: Seq<char>,
    variant: u128,
    buy_or_sell: u128,
    amount: u128,
    receiver: Seq<char>,
)
    requires
        order_rejection(pre, now, sender, variant, buy_or_sell, amount, receiver) is None,
    ensures
        ({
            let before = pre.storage.information;
            let after = order_storage(pre, now, variant, buy_or_sell, amount, receiver).information;
            let sent = order_messages(pre, variant, buy_or_sell, amount, receiver);
            let other = (1 - variant) as u128;
            &&& after.liquidity_shares == before.liquidity_shares
            &&& reserve_of(after, other) == reserve_of(before, other)
            &&& buy_or_sell == 1 ==> reserve_of(after, variant) == reserve_of(before, variant)
                + amount
            &&& buy_or_sell == 0 ==> sent.len() == 3 && reserve_of(after, variant)
                + sent[0]->Send_amount + sent[1]->Send_amount == reserve_of(before, variant)
        }),
{
    lemma_quote_bounds(pre.storage.information, variant, buy_or_sell, amount);
}

/// The pages cover the history: the order that was recorded `age` orders before the newest
/// one stands on page `age / items_per_page + 1`, at place `age % items_per_page`.
pub proof fn law_every_order_is_on_its_page(orders: Seq<Order>, items_per_page: u128, age: int)
    requires
        0 < items_per_page,
        0 <= age < orders.len(),
        orders.len() <= u128::MAX,
    ensures
        ({
            let n = items_per_page as int;
            let page = (age / n + 1) as u128;
            &&& page == age / n + 1
            &&& page_rejection(orders.len() as int, page, items_per_page) is None
            &&& age % n < page_of(orders, page, items_per_page).len()
            &&& page_of(orders, page, items_per_page)[age % n] == orders[orders.len() - 1 - age]
        }),
{
    let n = items_per_page as int;
    let total = orders.len() as int;
    let q = age / n;
    let r = age % n;
    lemma_fundamental_div_mod(age, n);
    lemma_mod_bound(age, n);
    lemma_div_pos_is_pos(age, n);
    lemma_fundamental_div_mod(total, n);
    lemma_mod_bound(total, n);
    lemma_div_is_ordered(age, total, n);
    assert(q * n == n * q) by (nonlinear_arith);
    assert(q < pages(total, n)) by {
        if total % n == 0 {
            assert(q < total / n) by (nonlinear_arith)
                requires
                    n * q + r < n * (total / n),
                    0 <= r,
                    0 < n,
            ;
        }
    }
    let page = (q + 1) as u128;
    assert(page_start(total, page, items_per_page) == total - q * n);
}

/// After a resolution the winning outcome is priced at one whole, so a claim pays one unit
/// of settlement currency for each share of it.
pub proof fn law_winning_shares_redeem_at_par(
    pre: DepsView,
    now: u64,
    sender: Seq<char>,
    variant: u128,
    resolver: Seq<char>,
    claimant: Seq<char>,
)
    requires
        resolution_rejection(pre, now, sender, variant, resolver) is None,
    ensures
        ({
            let resolved = StorageView {
                information: settled(pre.storage.information, variant),
                ..pre.storage
            };
            claim_payout(resolved, variant, claimant) == held(
                balance_of(pre.storage.shares, claimant),
                variant,
            )
        }),
{
    let owned = held(balance_of(pre.storage.shares, claimant), variant) as int;
    vstd::arithmetic::div_mod::lemma_div_multiples_vanish(owned, MULTIPLIER as int);
    assert(owned * MULTIPLIER == MULTIPLIER * owned) by (nonlinear_arith);
}

/// Liquidity shares come into being with the bootstrap: while there are none, no other call
/// mints any.
pub proof fn law_liquidity_starts_with_the_bootstrap(
    pre: DepsView,
    now: u64,
    sender: Seq<char>,
    msg: ExecuteMsg,
)
    requires
        pre.storage.information.liquidity_shares == 0,
        rejection(pre, now, sender, msg) is None,
        !(msg is InitializeLiquidity),
    ensures
        outcome(pre, now, msg).information.liquidity_shares == 0,
{
    match msg {
        ExecuteMsg::PlaceOrder { variant, buy_or_sell, amount, receiver } => {
            lemma_quote_bounds(pre.storage.information, variant, buy_or_sell, amount);
        },
        _ => {},
    }
}

/// Setting the holdings of one account to `shares` keeps a book in step with totals that
/// moved by the same differences.
proof fn lemma_step(
    book: Seq<HolderView>,
    account: Seq<char>,
    shares: Shares,
)
    requires
        distinct(book),
    ensures
        distinct(saved(book, account, shares)),
        forall|kind: Holding| #[trigger]
            total_held(saved(book, account, shares), kind) == total_held(book, kind) - amount_of(
                balance_of(book, account),
                kind,
            ) + amount_of(shares, kind),
{
    lemma_saved_distinct(book, account, shares);
    assert forall|kind: Holding| #[trigger]
        total_held(saved(book, account, shares), kind) == total_held(book, kind) - amount_of(
            balance_of(book, account),
            kind,
        ) + amount_of(shares, kind) by {
        lemma_total_after_save(book, account, shares, kind);
    }
}

/// A market whose outstanding shares are all held by accounts is still such a market after
/// any call.
pub proof fn law_shares_stay_backed(pre: DepsView, now: u64, sender: Seq<char>, msg: ExecuteMsg)
    requires
        backed(pre.storage),
        rejection(pre, now, sender, msg) is None,
    ensures
        backed(outcome(pre, now, msg)),
{
    let book = pre.storage.shares;
    match msg {
        ExecuteMsg::InitializeLiquidity { yes_price, liquidity, receiver } => {
            let before = balance_of(book, receiver@);
            let minted = integer_sqrt(
                portion(yes_price, liquidity) * portion(
                    (MULTIPLIER - yes_price) as u128,
                    liquidity,
                ),
            );
            lemma_step(
                book,
                receiver@,
                Shares { liquidity_shares: (before.liquidity_shares + minted) as u128, ..before },
            );
        },
        ExecuteMsg::AddLiquidity { amount, receiver } => {
            let before = balance_of(book, receiver@);
            let minted = deposit_shares(pre.storage.information, amount);
            lemma_step(
                book,
                receiver@,
                Shares { liquidity_shares: (before.liquidity_shares + minted) as u128, ..before },
            );
        },
        ExecuteMsg::RemoveLiquidity { shares, receiver } => {
            let before = balance_of(book, receiver@);
            lemma_step(
                book,
                receiver@,
                Shares { liquidity_shares: (before.liquidity_shares - shares) as u128, ..before },
            );
        },
        ExecuteMsg::Claim { variant, receiver } => {
            let before = balance_of(book, receiver@);
            if variant > 1 {
                lemma_step(book, receiver@, before);
            } else {
                lemma_step(book, receiver@, with_held(before, variant, 0));
            }
        },
        ExecuteMsg::ResolveMarket { variant, receiver, market_index } => {},
        ExecuteMsg::PlaceOrder { variant, buy_or_sell, amount, receiver } => {
            let info = pre.storage.information;
            let q = quote_of(info, variant, buy_or_sell, amount)->Ok_0;
            lemma_quote_bounds(info, variant, buy_or_sell, amount);
            let before = balance_of(book, receiver@);
            if buy_or_sell == 1 {
                let collector = pre.querier.fees_address->0;
                let mid = credited(book, variant, receiver@, q.amount_out);
                lemma_step(
                    book,
                    receiver@,
                    with_held(before, variant, (held(before, variant) + q.amount_out) as u128),
                );
                let collected = balance_of(mid, collector);
                lemma_step(
                    mid,
                    collector,
                    with_held(
                        collected,
                        variant,
                        (held(collected, variant) + q.fees / 2) as u128,
                    ),
                );
            } else {
                lemma_step(
                    book,
                    receiver@,
                    with_held(before, variant, (held(before, variant) - amount) as u128),
                );
            }
        },
    }
}

} // verus!
