use crate::book::saved;
use crate::error::ContractError;
use crate::host::{sending, Env, Message, MessageInfo, MessageView, Response};
use crate::market::quote::{
    buy_quote, lemma_share_bounded, minted_of, price_of, quote, quote_of, reserve_of, sell_quote,
};
use crate::market::state::{
    balance, balance_of, lemma_balance_after_save, Deps, DepsView, HolderView, StorageView,
};
use crate::math::{fits, BASIS_POINTS, MAXIMUM_IMPACT, MULTIPLIER, RESOLVE_DURATION};
use crate::packages::market::{InformationView, Order, Shares};
use vstd::prelude::*;

verus! {

/// The shares of an outcome among an account's holdings.
pub open spec fn held(shares: Shares, variant: u128) -> u128 {
    if variant == 1 {
        shares.yes_shares
    } else {
        shares.no_shares
    }
}

/// The holdings with the shares of one outcome set to `value`.
pub open spec fn with_held(shares: Shares, variant: u128, value: u128) -> Shares {
    if variant == 1 {
        Shares { yes_shares: value, ..shares }
    } else {
        Shares { no_shares: value, ..shares }
    }
}

/// The record after a trade in one outcome: that outcome's outstanding shares, reserve and
/// price are set, and the other outcome's price is what is left of one whole.
pub open spec fn traded(
    info: InformationView,
    variant: u128,
    minted: u128,
    reserve: u128,
    price: u128,
) -> InformationView {
    if variant == 1 {
        InformationView {
            yes_shares: minted,
            yes_liquidity: reserve,
            yes_price: price,
            no_price: (MULTIPLIER - price) as u128,
            ..info
        }
    } else {
        InformationView {
            no_shares: minted,
            no_liquidity: reserve,
            no_price: price,
            yes_price: (MULTIPLIER - price) as u128,
            ..info
        }
    }
}

/// The book after a buyer was credited with `amount_out` shares of the outcome.
pub open spec fn credited(
    book: Seq<HolderView>,
    variant: u128,
    account: Seq<char>,
    amount_out: u128,
) -> Seq<HolderView> {
    let before = balance_of(book, account);
    saved(book, account, with_held(before, variant, (held(before, variant) + amount_out) as u128))
}

/// Why a purchase that passed the checks on caller, time and parameters is still rejected,
/// if it is.
pub open spec fn buy_rejection(
    storage: StorageView,
    variant: u128,
    amount: u128,
    receiver: Seq<char>,
    collector: Seq<char>,
) -> Option<ContractError> {
    let info = storage.information;
    match quote_of(info, variant, 1, amount) {
        Err(e) => Some(e),
        Ok(q) => if q.impact > MAXIMUM_IMPACT {
            Some(ContractError::PriceImpact)
        } else if !fits(held(balance_of(storage.shares, receiver), variant) + q.amount_out)
            || !fits(
            held(
                balance_of(credited(storage.shares, variant, receiver, q.amount_out), collector),
                variant,
            )
                + q.fees / 2,
        ) || !fits(minted_of(info, variant) + q.amount_out + q.fees / 2) {
            Some(ContractError::Overflow)
        } else {
            None
        },
    }
}

/// The market after a purchase that was not rejected: the buyer receives the quoted shares,
/// the fee collector half the fee in shares, both are newly minted, the payment joins the
/// reserve, the prices move and the new price of Yes is recorded.
pub open spec fn bought(
    storage: StorageView,
    now: u64,
    variant: u128,
    amount: u128,
    receiver: Seq<char>,
    collector: Seq<char>,
) -> StorageView {
    let info = storage.information;
    let q = quote_of(info, variant, 1, amount)->Ok_0;
    let after = traded(
        info,
        variant,
        (minted_of(info, variant) + q.amount_out + q.fees / 2) as u128,
        (reserve_of(info, variant) + amount) as u128,
        q.price,
    );
    StorageView {
        information: after,
        order_list: storage.order_list.push(Order { timestamp: now, price: after.yes_price }),
        shares: credited(
            credited(storage.shares, variant, receiver, q.amount_out),
            variant,
            collector,
            q.fees / 2,
        ),
    }
}

/// Why a sale that passed the checks on caller, time and parameters is still rejected, if
/// it is.
pub open spec fn sell_rejection(
    storage: StorageView,
    variant: u128,
    amount: u128,
    receiver: Seq<char>,
) -> Option<ContractError> {
    let info = storage.information;
    if held(balance_of(storage.shares, receiver), variant) < amount || minted_of(info, variant)
        < amount {
        Some(ContractError::Overflow)
    } else {
        match quote_of(info, variant, 0, amount) {
            Err(e) => Some(e),
            Ok(q) => if q.impact > MAXIMUM_IMPACT {
                Some(ContractError::PriceImpact)
            } else if reserve_of(info, variant) < q.amount_out + q.fees / 2 {
                Some(ContractError::Overflow)
            } else {
                None
            },
        }
    }
}

/// The market after a sale that was not rejected: the shares sold are burnt, the payout and
/// half the fee leave the reserve, the prices move and the new price of Yes is recorded.
pub open spec fn sold(
    storage: StorageView,
    now: u64,
    variant: u128,
    amount: u128,
    receiver: Seq<char>,
) -> StorageView {
    let info = storage.information;
    let q = quote_of(info, variant, 0, amount)->Ok_0;
    let before = balance_of(storage.shares, receiver);
    let after = traded(
        info,
        variant,
        (minted_of(info, variant) - amount) as u128,
        (reserve_of(info, variant) - (q.amount_out + q.fees / 2)) as u128,
        q.price,
    );
    StorageView {
        information: after,
        order_list: storage.order_list.push(Order { timestamp: now, price: after.yes_price }),
        shares: saved(
            storage.shares,
            receiver,
            with_held(before, variant, (held(before, variant) - amount) as u128),
        ),
    }
}

/// Whether a market that ends at `market_end` is in its quiet period at `now`.
pub open spec fn in_resolution_window(market_end: u64, now: u64) -> bool {
    market_end <= now < market_end + RESOLVE_DURATION
}

/// Why an order is rejected, if it is. The reasons are tried in this order.
pub open spec fn order_rejection(
    pre: DepsView,
    now: u64,
    sender: Seq<char>,
    variant: u128,
    buy_or_sell: u128,
    amount: u128,
    receiver: Seq<char>,
) -> Option<ContractError> {
    let info = pre.storage.information;
    if in_resolution_window(info.market_end, now) {
        Some(ContractError::ResolutionWindow)
    } else if sender != info.factory {
        Some(ContractError::OnlyFactory)
    } else if amount == 0 {
        Some(ContractError::ZeroAmount)
    } else if info.resolved {
        Some(ContractError::MarketResolved)
    } else if variant > 1 {
        Some(ContractError::InvalidVariant)
    } else if buy_or_sell > 1 {
        Some(ContractError::InvalidSide)
    } else if pre.querier.fees_address is None {
        Some(ContractError::QueryFailed)
    } else if buy_or_sell == 1 {
        buy_rejection(pre.storage, variant, amount, receiver, pre.querier.fees_address->0)
    } else {
        sell_rejection(pre.storage, variant, amount, receiver)
    }
}

/// The market after an order that was not rejected.
pub open spec fn order_storage(
    pre: DepsView,
    now: u64,
    variant: u128,
    buy_or_sell: u128,
    amount: u128,
    receiver: Seq<char>,
) -> StorageView {
    if buy_or_sell == 1 {
        bought(pre.storage, now, variant, amount, receiver, pre.querier.fees_address->0)
    } else {
        sold(pre.storage, now, variant, amount, receiver)
    }
}

/// The report on a trade for the registry: the volume in settlement currency, the trader,
/// and the outcome, the side and the resulting price of that outcome.
pub open spec fn volume_report(
    info: InformationView,
    volume: u128,
    receiver: Seq<char>,
    variant: u128,
    buy_or_sell: u128,
    price: u128,
) -> MessageView {
    MessageView::RecordStats {
        contract_addr: info.factory,
        amount: volume,
        account: receiver,
        stat_type: "volume"@,
        data: seq![variant, buy_or_sell, price],
    }
}

/// What an order that was not rejected has the ledger do. A purchase only reports to the
/// registry. A sale first pays half the fee to the fee collector and the payout to the
/// seller.
pub open spec fn order_messages(
    pre: DepsView,
    variant: u128,
    buy_or_sell: u128,
    amount: u128,
    receiver: Seq<char>,
) -> Seq<MessageView> {
    let info = pre.storage.information;
    let q = quote_of(info, variant, buy_or_sell, amount)->Ok_0;
    if buy_or_sell == 1 {
        seq![volume_report(info, amount, receiver, variant, buy_or_sell, q.price)]
    } else {
        seq![
            MessageView::Send {
                to_address: pre.querier.fees_address->0,
                denom: info.usdc,
                amount: q.fees / 2,
            },
            MessageView::Send { to_address: receiver, denom: info.usdc, amount: q.amount_out },
            volume_report(info, q.amount_out, receiver, variant, buy_or_sell, q.price),
        ]
    }
}

/// What holds of every quote: its price is at most one whole, the fee is at most the amount
/// delivered, and a purchase's payment fits beside the reserve.
pub proof fn lemma_quote_bounds(
    info: InformationView,
    variant: u128,
    buy_or_sell: u128,
    amount: u128,
)
    requires
        quote_of(info, variant, buy_or_sell, amount) is Ok,
    ensures
        quote_of(info, variant, buy_or_sell, amount)->Ok_0.price <= MULTIPLIER,
        quote_of(info, variant, buy_or_sell, amount)->Ok_0.amount_out + quote_of(
            info,
            variant,
            buy_or_sell,
            amount,
        )->Ok_0.fees <= u128::MAX,
        buy_or_sell == 1 ==> reserve_of(info, variant) + amount <= u128::MAX,
{
    reveal(buy_quote);
    reveal(sell_quote);
    let reserve = reserve_of(info, variant);
    let other = reserve_of(info, (1 - variant) as u128);
    if buy_or_sell == 1 {
        lemma_share_bounded(MULTIPLIER as int, reserve + amount, other as int);
        assert(reserve + amount <= BASIS_POINTS * (reserve + amount));
    } else {
        let expected = amount * price_of(info, variant) / (MULTIPLIER as int);
        lemma_share_bounded(MULTIPLIER as int, reserve - expected, other as int);
    }
}

/// Carries out a purchase whose caller, time and parameters were checked.
fn buy(
    deps: &mut Deps,
    env: &Env,
    variant: u128,
    amount: u128,
    receiver: &String,
    collector: &String,
) -> (r: Result<Response, ContractError>)
    requires
        variant <= 1,
        old(deps)@.querier.fees_address == Some(collector@),
    ensures
        match buy_rejection(old(deps)@.storage, variant, amount, receiver@, collector@) {
            Some(e) => r == Err::<Response, ContractError>(e) && *final(deps) == *old(deps),
            None => r is Ok && r->Ok_0@ == sending(
                order_messages(old(deps)@, variant, 1, amount, receiver@),
            )
                && final(deps)@.storage == bought(
                old(deps)@.storage,
                env.block_time,
                variant,
                amount,
                receiver@,
                collector@,
            ) && final(deps).querier == old(deps).querier,
        },
{
    let ghost pre = deps@;
    let q = match quote(&*deps, env, variant, 1, amount) {
        Ok(q) => q,
        Err(e) => {
            return Err(e);
        },
    };
    if q.impact > MAXIMUM_IMPACT {
        return Err(ContractError::PriceImpact);
    }
    proof {
        lemma_quote_bounds(pre.storage.information, variant, 1, amount);
    }
    let half = q.fees / 2;
    let shares = balance(&deps.storage.shares, receiver);
    let owned = if variant == 1 {
        shares.yes_shares
    } else {
        shares.no_shares
    };
    let owned_after = match owned.checked_add(q.amount_out) {
        Some(v) => v,
        None => {
            return Err(ContractError::Overflow);
        },
    };
    let shares_after = if variant == 1 {
        Shares { yes_shares: owned_after, ..shares }
    } else {
        Shares { no_shares: owned_after, ..shares }
    };
    proof {
        lemma_balance_after_save(pre.storage.shares, receiver@, shares_after);
    }
    let collected = if *collector == *receiver {
        shares_after
    } else {
        balance(&deps.storage.shares, collector)
    };
    let collected_owned = if variant == 1 {
        collected.yes_shares
    } else {
        collected.no_shares
    };
    let collected_after = match collected_owned.checked_add(half) {
        Some(v) => v,
        None => {
            return Err(ContractError::Overflow);
        },
    };
    let collected_shares = if variant == 1 {
        Shares { yes_shares: collected_after, ..collected }
    } else {
        Shares { no_shares: collected_after, ..collected }
    };
    let minted = if variant == 1 {
        deps.storage.information.yes_shares
    } else {
        deps.storage.information.no_shares
    };
    let minted_after = match minted.checked_add(q.amount_out + half) {
        Some(v) => v,
        None => {
            return Err(ContractError::Overflow);
        },
    };
    let stats = Message::RecordStats {
        contract_addr: deps.storage.information.factory.clone(),
        amount,
        account: receiver.clone(),
        stat_type: "volume".to_string(),
        data: vec![variant, 1, q.price],
    };
    deps.storage.shares.save(receiver, shares_after);
    deps.storage.shares.save(collector, collected_shares);
    settle(deps, env, variant, minted_after, amount, true, q.price);
    let response = Response::new().add_message(stats);
    proof {
        assert(response@.messages =~= order_messages(pre, variant, 1, amount, receiver@));
    }
    Ok(response)
}

/// Carries out a sale whose caller, time and parameters were checked.
fn sell(
    deps: &mut Deps,
    env: &Env,
    variant: u128,
    amount: u128,
    receiver: &String,
    collector: String,
) -> (r: Result<Response, ContractError>)
    requires
        variant <= 1,
        old(deps)@.querier.fees_address == Some(collector@),
    ensures
        match sell_rejection(old(deps)@.storage, variant, amount, receiver@) {
            Some(e) => r == Err::<Response, ContractError>(e) && *final(deps) == *old(deps),
            None => r is Ok && r->Ok_0@ == sending(
                order_messages(old(deps)@, variant, 0, amount, receiver@),
            )
                && final(deps)@.storage == sold(
                old(deps)@.storage,
                env.block_time,
                variant,
                amount,
                receiver@,
            ) && final(deps).querier == old(deps).querier,
        },
{
    let ghost pre = deps@;
    let shares = balance(&deps.storage.shares, receiver);
    let owned = if variant == 1 {
        shares.yes_shares
    } else {
        shares.no_shares
    };
    let owned_after = match owned.checked_sub(amount) {
        Some(v) => v,
        None => {
            return Err(ContractError::Overflow);
        },
    };
    let minted = if variant == 1 {
        deps.storage.information.yes_shares
    } else {
        deps.storage.information.no_shares
    };
    let minted_after = match minted.checked_sub(amount) {
        Some(v) => v,
        None => {
            return Err(ContractError::Overflow);
        },
    };
    let q = match quote(&*deps, env, variant, 0, amount) {
        Ok(q) => q,
        Err(e) => {
            return Err(e);
        },
    };
    if q.impact > MAXIMUM_IMPACT {
        return Err(ContractError::PriceImpact);
    }
    proof {
        lemma_quote_bounds(pre.storage.information, variant, 0, amount);
    }
    let half = q.fees / 2;
    let withdrawn = q.amount_out + half;
    let reserve = if variant == 1 {
        deps.storage.information.yes_liquidity
    } else {
        deps.storage.information.no_liquidity
    };
    if reserve < withdrawn {
        return Err(ContractError::Overflow);
    }
    let to_collector = Message::Send {
        to_address: collector,
        denom: deps.storage.information.usdc.clone(),
        amount: half,
    };
    let to_seller = Message::Send {
        to_address: receiver.clone(),
        denom: deps.storage.information.usdc.clone(),
        amount: q.amount_out,
    };
    let stats = Message::RecordStats {
        contract_addr: deps.storage.information.factory.clone(),
        amount: q.amount_out,
        account: receiver.clone(),
        stat_type: "volume".to_string(),
        data: vec![variant, 0, q.price],
    };
    let shares_after = if variant == 1 {
        Shares { yes_shares: owned_after, ..shares }
    } else {
        Shares { no_shares: owned_after, ..shares }
    };
    deps.storage.shares.save(receiver, shares_after);
    settle(deps, env, variant, minted_after, withdrawn, false, q.price);
    let response = Response::new().add_message(to_collector).add_message(to_seller).add_message(
        stats,
    );
    proof {
        assert(response@.messages =~= order_messages(pre, variant, 0, amount, receiver@));
    }
    Ok(response)
}

/// Writes a trade into the record and the price history: the outcome's outstanding shares,
/// its reserve, grown or shrunk by `moved`, and the prices.
fn settle(
    deps: &mut Deps,
    env: &Env,
    variant: u128,
    minted: u128,
    moved: u128,
    grows: bool,
    price: u128,
)
    requires
        variant <= 1,
        price <= MULTIPLIER,
        grows ==> reserve_of(old(deps)@.storage.information, variant) + moved <= u128::MAX,
        !grows ==> moved <= reserve_of(old(deps)@.storage.information, variant),
    ensures
        final(deps)@.storage.information == traded(
            old(deps)@.storage.information,
            variant,
            minted,
            if grows {
                (reserve_of(old(deps)@.storage.information, variant) + moved) as u128
            } else {
                (reserve_of(old(deps)@.storage.information, variant) - moved) as u128
            },
            price,
        ),
        final(deps)@.storage.order_list == old(deps)@.storage.order_list.push(
            Order { timestamp: env.block_time, price: final(deps)@.storage.information.yes_price },
        ),
        final(deps).storage.shares == old(deps).storage.shares,
        final(deps).querier == old(deps).querier,
{
    if variant == 1 {
        let reserve = deps.storage.information.yes_liquidity;
        deps.storage.information.yes_shares = minted;
        deps.storage.information.yes_liquidity = if grows {
            reserve + moved
        } else {
            reserve - moved
        };
        deps.storage.information.yes_price = price;
        deps.storage.information.no_price = MULTIPLIER - price;
    } else {
        let reserve = deps.storage.information.no_liquidity;
        deps.storage.information.no_shares = minted;
        deps.storage.information.no_liquidity = if grows {
            reserve + moved
        } else {
            reserve - moved
        };
        deps.storage.information.no_price = price;
        deps.storage.information.yes_price = MULTIPLIER - price;
    }
    let recorded = Order { timestamp: env.block_time, price: deps.storage.information.yes_price };
    deps.storage.order_list.push(recorded);
}

/// Buys (`buy_or_sell` 1) or sells (0) `amount` of the outcome `variant` for `receiver`, on
/// the registry's call. `amount` is settlement currency paid in for a purchase, and shares
/// given up for a sale.
pub fn place_order(
    deps: &mut Deps,
    env: &Env,
    info_: &MessageInfo,
    variant: u128,
    buy_or_sell: u128,
    amount: u128,
    receiver: String,
) -> (r: Result<Response, ContractError>)
    ensures
        match order_rejection(
            old(deps)@,
            env.block_time,
            info_.sender@,
            variant,
            buy_or_sell,
            amount,
            receiver@,
        ) {
            Some(e) => r == Err::<Response, ContractError>(e) && *final(deps) == *old(deps),
            None => r is Ok && r->Ok_0@ == sending(order_messages(
                old(deps)@,
                variant,
                buy_or_sell,
                amount,
                receiver@,
            )) && final(deps)@.storage == order_storage(
                old(deps)@,
                env.block_time,
                variant,
                buy_or_sell,
                amount,
                receiver@,
            ) && final(deps).querier == old(deps).querier,
        },
        r is Ok ==> quote_of(old(deps)@.storage.information, variant, buy_or_sell, amount) is Ok
            && quote_of(
            old(deps)@.storage.information,
            variant,
            buy_or_sell,
            amount,
        )->Ok_0.impact <= MAXIMUM_IMPACT,
        r is Ok ==> final(deps)@.storage.information.yes_price
            + final(deps)@.storage.information.no_price == MULTIPLIER,
{
    let timestamp = env.block_time;
    let market_end = deps.storage.information.market_end;
    if timestamp >= market_end && timestamp - market_end < RESOLVE_DURATION {
        return Err(ContractError::ResolutionWindow);
    }
    if info_.sender != deps.storage.information.factory {
        return Err(ContractError::OnlyFactory);
    }
    if amount == 0 {
        return Err(ContractError::ZeroAmount);
    }
    if deps.storage.information.resolved {
        return Err(ContractError::MarketResolved);
    }
    if variant > 1 {
        return Err(ContractError::InvalidVariant);
    }
    if buy_or_sell > 1 {
        return Err(ContractError::InvalidSide);
    }
    let fees_address = match &deps.querier.fees_address {
        Some(a) => a.clone(),
        None => {
            return Err(ContractError::QueryFailed);
        },
    };
    let ghost info = deps@.storage.information;
    let r = if buy_or_sell == 1 {
        buy(deps, env, variant, amount, &receiver, &fees_address)
    } else {
        sell(deps, env, variant, amount, &receiver, fees_address)
    };
    proof {
        if r is Ok {
            lemma_quote_bounds(info, variant, buy_or_sell, amount);
        }
    }
    r
}

} // verus!
