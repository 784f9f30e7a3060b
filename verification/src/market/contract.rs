use crate::error::ContractError;
use crate::book::Book;
use crate::host::{sending, Env, MessageInfo, MessageView, Response};
use crate::market::liquidity::{
    add_liquidity, bootstrap_rejection, bootstrapped, deposit_rejection, deposited,
    initialize_liquidity, remove_liquidity, withdrawal_payout, withdrawal_rejection, withdrawn,
};
use crate::market::order::{order_messages, order_rejection, order_storage, place_order};
use crate::market::quote::{quote, quote_of};
use crate::market::settlement::{
    claim, claim_messages, claim_rejection, claimed, resolution_rejection, resolution_report,
    resolve_market, settled,
};
use crate::market::query::{get_info, get_orders, get_total_orders, page_of};
use crate::pagination::page_rejection;
use crate::market::state::{
    backed, balance_of, Deps, DepsView, HolderView, Storage, StorageView,
};
use crate::packages::market::{
    Data, DataView, ExecuteMsg, Information, InformationView, InstantiateMsg, Order, QueryMsg,
    Quote,
};
use crate::text::texts;
use vstd::prelude::*;

verus! {

/// A market right after its creation: nothing is priced, deposited, minted or recorded.
pub fn instantiate(env: &Env, _info: &MessageInfo, msg: InstantiateMsg) -> (r: Storage)
    ensures
        r@ == (StorageView {
            information: InformationView {
                title: msg.title@,
                description: msg.description@,
                yes_price: 0,
                no_price: 0,
                yes_liquidity: 0,
                no_liquidity: 0,
                yes_shares: 0,
                no_shares: 0,
                market_created: env.block_time,
                market_end: msg.end_date,
                categories: texts(msg.categories@),
                liquidity_shares: 0,
                usdc: msg.usdc@,
                owner: msg.owner@,
                resolved: false,
                factory: msg.factory@,
                resolved_to: 0,
            },
            order_list: Seq::<Order>::empty(),
            shares: Seq::<HolderView>::empty(),
        }),
        backed(r@),
{
    let market_info = Information {
        title: msg.title,
        description: msg.description,
        yes_price: 0,
        no_price: 0,
        yes_liquidity: 0,
        no_liquidity: 0,
        yes_shares: 0,
        no_shares: 0,
        market_created: env.block_time,
        market_end: msg.end_date,
        categories: msg.categories,
        liquidity_shares: 0,
        usdc: msg.usdc,
        owner: msg.owner,
        resolved: false,
        factory: msg.factory,
        resolved_to: 0,
    };
    Storage { information: market_info, order_list: Vec::new(), shares: Book::new() }
}

/// Why a call is rejected, if it is.
pub open spec fn rejection(pre: DepsView, now: u64, sender: Seq<char>, msg: ExecuteMsg) -> Option<
    ContractError,
> {
    match msg {
        ExecuteMsg::InitializeLiquidity { yes_price, liquidity, receiver } => bootstrap_rejection(
            pre,
            sender,
            yes_price,
            liquidity,
            receiver@,
        ),
        ExecuteMsg::AddLiquidity { amount, receiver } => deposit_rejection(
            pre,
            sender,
            amount,
            receiver@,
        ),
        ExecuteMsg::RemoveLiquidity { shares, receiver } => withdrawal_rejection(
            pre,
            sender,
            shares,
            receiver@,
        ),
        ExecuteMsg::Claim { variant, receiver } => claim_rejection(pre, sender, variant, receiver@),
        ExecuteMsg::ResolveMarket { variant, receiver, market_index } => resolution_rejection(
            pre,
            now,
            sender,
            variant,
            receiver@,
        ),
        ExecuteMsg::PlaceOrder { variant, buy_or_sell, amount, receiver } => order_rejection(
            pre,
            now,
            sender,
            variant,
            buy_or_sell,
            amount,
            receiver@,
        ),
    }
}

/// The market after a call that was not rejected.
pub open spec fn outcome(pre: DepsView, now: u64, msg: ExecuteMsg) -> StorageView {
    match msg {
        ExecuteMsg::InitializeLiquidity { yes_price, liquidity, receiver } => bootstrapped(
            pre.storage,
            now,
            yes_price,
            liquidity,
            receiver@,
        ),
        ExecuteMsg::AddLiquidity { amount, receiver } => deposited(pre.storage, amount, receiver@),
        ExecuteMsg::RemoveLiquidity { shares, receiver } => withdrawn(
            pre.storage,
            shares,
            receiver@,
        ),
        ExecuteMsg::Claim { variant, receiver } => claimed(pre.storage, variant, receiver@),
        ExecuteMsg::ResolveMarket { variant, receiver, market_index } => StorageView {
            information: settled(pre.storage.information, variant),
            ..pre.storage
        },
        ExecuteMsg::PlaceOrder { variant, buy_or_sell, amount, receiver } => order_storage(
            pre,
            now,
            variant,
            buy_or_sell,
            amount,
            receiver@,
        ),
    }
}

/// What a call that was not rejected has the ledger do.
pub open spec fn instructions(pre: DepsView, msg: ExecuteMsg) -> Seq<MessageView> {
    match msg {
        ExecuteMsg::InitializeLiquidity { yes_price, liquidity, receiver } => Seq::empty(),
        ExecuteMsg::AddLiquidity { amount, receiver } => Seq::empty(),
        ExecuteMsg::RemoveLiquidity { shares, receiver } => seq![
            MessageView::Send {
                to_address: receiver@,
                denom: pre.storage.information.usdc,
                amount: withdrawal_payout(pre, shares) as u128,
            },
        ],
        ExecuteMsg::Claim { variant, receiver } => claim_messages(pre.storage, variant, receiver@),
        ExecuteMsg::ResolveMarket { variant, receiver, market_index } => seq![
            resolution_report(pre.storage.information, receiver@, market_index),
        ],
        ExecuteMsg::PlaceOrder { variant, buy_or_sell, amount, receiver } => order_messages(
            pre,
            variant,
            buy_or_sell,
            amount,
            receiver@,
        ),
    }
}

/// Carries out one call. A call that is rejected changes nothing.
pub fn execute(deps: &mut Deps, env: &Env, info: &MessageInfo, msg: ExecuteMsg) -> (r: Result<
    Response,
    ContractError,
>)
    ensures
        match rejection(old(deps)@, env.block_time, info.sender@, msg) {
            Some(e) => r == Err::<Response, ContractError>(e) && *final(deps) == *old(deps),
            None => r is Ok && r->Ok_0@ == sending(instructions(old(deps)@, msg))
                && final(deps)@.storage == outcome(old(deps)@, env.block_time, msg)
                && final(deps).querier == old(deps).querier,
        },
{
    match msg {
        ExecuteMsg::InitializeLiquidity { yes_price, liquidity, receiver } => initialize_liquidity(
            deps,
            env,
            info,
            yes_price,
            liquidity,
            receiver,
        ),
        ExecuteMsg::AddLiquidity { amount, receiver } => add_liquidity(
            deps,
            env,
            info,
            amount,
            receiver,
        ),
        ExecuteMsg::RemoveLiquidity { shares, receiver } => remove_liquidity(
            deps,
            env,
            info,
            shares,
            receiver,
        ),
        ExecuteMsg::Claim { variant, receiver } => claim(deps, env, info, variant, receiver),
        ExecuteMsg::ResolveMarket { variant, receiver, market_index } => resolve_market(
            deps,
            env,
            info,
            variant,
            receiver,
            market_index,
        ),
        ExecuteMsg::PlaceOrder { variant, buy_or_sell, amount, receiver } => place_order(
            deps,
            env,
            info,
            variant,
            buy_or_sell,
            amount,
            receiver,
        ),
    }
}

/// An answer of the market.
#[derive(Debug)]
pub enum QueryResponse {
    Info(Data),
    Quote(Quote),
    Orders(u64, Vec<Order>),
    TotalOrders(u128),
}

/// Answers one question. Nothing is changed.
pub fn query(deps: &Deps, env: &Env, msg: QueryMsg) -> (r: Result<QueryResponse, ContractError>)
    ensures
        match msg {
            QueryMsg::GetInfo { account } => r is Ok && r->Ok_0 is Info && r->Ok_0->Info_0@ == (
            DataView {
                information: deps@.storage.information,
                shares: balance_of(deps@.storage.shares, account@),
            }),
            QueryMsg::Quote { variant, buy_or_sell, amount } => match quote_of(
                deps@.storage.information,
                variant,
                buy_or_sell,
                amount,
            ) {
                Ok(q) => r is Ok && r->Ok_0 == QueryResponse::Quote(q),
                Err(e) => r == Err::<QueryResponse, ContractError>(e),
            },
            QueryMsg::GetTotalOrders {  } => r is Ok && r->Ok_0 == QueryResponse::TotalOrders(
                deps@.storage.order_list.len() as u128,
            ),
            QueryMsg::GetOrders { page, items_per_page } => match page_rejection(
                deps@.storage.order_list.len() as int,
                page,
                items_per_page,
            ) {
                Some(e) => r == Err::<QueryResponse, ContractError>(e),
                None => r is Ok && r->Ok_0 is Orders && r->Ok_0->Orders_0 == env.block_time
                    && r->Ok_0->Orders_1@ == page_of(
                    deps@.storage.order_list,
                    page,
                    items_per_page,
                ),
            },
        },
{
    match msg {
        QueryMsg::GetInfo { account } => match get_info(deps, env, account) {
            Ok(data) => Ok(QueryResponse::Info(data)),
            Err(e) => Err(e),
        },
        QueryMsg::Quote { variant, buy_or_sell, amount } => match quote(
            deps,
            env,
            variant,
            buy_or_sell,
            amount,
        ) {
            Ok(q) => Ok(QueryResponse::Quote(q)),
            Err(e) => Err(e),
        },
        QueryMsg::GetTotalOrders {  } => match get_total_orders(deps, env) {
            Ok(total) => Ok(QueryResponse::TotalOrders(total)),
            Err(e) => Err(e),
        },
        QueryMsg::GetOrders { page, items_per_page } => match get_orders(
            deps,
            env,
            page,
            items_per_page,
        ) {
            Ok((time, orders)) => Ok(QueryResponse::Orders(time, orders)),
            Err(e) => Err(e),
        },
    }
}

} // verus!
