use crate::error::ContractError;
use crate::host::Env;
use crate::market::state::{balance, balance_of, Deps};
use crate::packages::market::{Data, DataView, Order};
use crate::pagination::{lemma_page_bounds, page_bounds, page_end, page_rejection, page_start};
use vstd::prelude::*;

verus! {

/// A page of the history, newest first.
pub open spec fn page_of(orders: Seq<Order>, page: u128, items_per_page: u128) -> Seq<Order> {
    let start = page_start(orders.len() as int, page, items_per_page);
    let end = page_end(orders.len() as int, page, items_per_page);
    Seq::new((start - end + 1) as nat, |i: int| orders[start - 1 - i])
}

/// The market record together with what `account` holds.
pub fn get_info(deps: &Deps, _env: &Env, account: String) -> (r: Result<Data, ContractError>)
    ensures
        r is Ok,
        r->Ok_0@ == (DataView {
            information: deps@.storage.information,
            shares: balance_of(deps@.storage.shares, account@),
        }),
{
    let information = deps.storage.information.clone();
    let shares = balance(&deps.storage.shares, &account);
    Ok(Data { information, shares })
}

/// The time of the query and one page of the price history, newest first. Page 1 holds
/// the orders recorded last.
pub fn get_orders(deps: &Deps, env: &Env, page_: u128, items_per_page: u128) -> (r: Result<
    (u64, Vec<Order>),
    ContractError,
>)
    ensures
        match page_rejection(deps@.storage.order_list.len() as int, page_, items_per_page) {
            Some(e) => r == Err::<(u64, Vec<Order>), ContractError>(e),
            None => r is Ok && r->Ok_0.0 == env.block_time && r->Ok_0.1@ == page_of(
                deps@.storage.order_list,
                page_,
                items_per_page,
            ),
        },
{
    let list = &deps.storage.order_list;
    let (start, end) = match page_bounds(list.len(), page_, items_per_page) {
        Ok(bounds) => bounds,
        Err(e) => {
            return Err(e);
        },
    };
    proof {
        lemma_page_bounds(list@.len() as int, page_, items_per_page);
    }
    let mut orders: Vec<Order> = Vec::new();
    let mut current_index = start;
    while current_index >= end
        invariant
            1 <= end <= start <= list@.len(),
            end - 1 <= current_index <= start,
            orders@.len() == start - current_index,
            forall|i: int| 0 <= i < orders@.len() ==> orders@[i] == list@[start - 1 - i],
        decreases current_index,
    {
        orders.push(list[current_index - 1]);
        current_index = current_index - 1;
    }
    assert(orders@ =~= page_of(list@, page_, items_per_page));
    Ok((env.block_time, orders))
}

/// How many orders were recorded.
pub fn get_total_orders(deps: &Deps, _env: &Env) -> (r: Result<u128, ContractError>)
    ensures
        r == Ok::<u128, ContractError>(deps@.storage.order_list.len() as u128),
{
    Ok(deps.storage.order_list.len() as u128)
}

} // verus!
