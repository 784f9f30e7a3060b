use xionmarkets::error::ContractError;
use xionmarkets::host::{Env, Message, MessageInfo};
use xionmarkets::market::contract::{execute, instantiate, query, QueryResponse};
use xionmarkets::market::liquidity::initialize_liquidity;
use xionmarkets::market::order::place_order;
use xionmarkets::market::quote::quote;
use xionmarkets::market::query::{get_info, get_orders, get_total_orders};
use xionmarkets::market::state::{balance, Deps, Querier};
use xionmarkets::math::{MAXIMUM_IMPACT, MULTIPLIER, RESOLVE_DURATION};
use xionmarkets::packages::market::{ExecuteMsg, InstantiateMsg, Order, QueryMsg, Shares};

fn env() -> Env {
    Env { block_time: 1_000, contract_address: "market".to_string() }
}

fn at(time: u64) -> Env {
    Env { block_time: time, contract_address: "market".to_string() }
}

fn registry() -> MessageInfo {
    MessageInfo { sender: "factory".to_string(), funds: vec![] }
}

fn even_market() -> Deps {
    let storage = instantiate(
        &env(),
        &registry(),
        InstantiateMsg {
            title: "Rain tomorrow?".to_string(),
            description: "Resolves on the weather report.".to_string(),
            end_date: 2_000,
            categories: vec!["weather".to_string()],
            usdc: "usdc".to_string(),
            owner: "owner".to_string(),
            factory: "factory".to_string(),
        },
    );
    let mut deps = Deps {
        storage,
        querier: Querier {
            is_admin: Some(false),
            fees_address: Some("fees".to_string()),
            balance: Some(u128::MAX),
        },
    };
    initialize_liquidity(
        &mut deps,
        &env(),
        &registry(),
        50_000_000,
        1_000_000_000,
        "owner".to_string(),
    )
        .unwrap();
    deps
}

fn holdings(deps: &Deps, account: &str) -> Shares {
    balance(&deps.storage.shares, &account.to_string())
}

fn snapshot(deps: &Deps) -> String {
    format!("{:?}", deps)
}

fn report(amount: u128, data: Vec<u128>) -> Message {
    Message::RecordStats {
        contract_addr: "factory".to_string(),
        amount,
        account: "trader".to_string(),
        stat_type: "volume".to_string(),
        data,
    }
}

fn pay(to: &str, amount: u128) -> Message {
    Message::Send { to_address: to.to_string(), denom: "usdc".to_string(), amount }
}

#[test]
fn a_buyer_receives_what_was_quoted() {
    let mut deps = even_market();
    let quoted = quote(&deps, &env(), 1, 1, 15_000_000).unwrap();
    place_order(&mut deps, &env(), &registry(), 1, 1, 15_000_000, "trader".to_string()).unwrap();
    assert_eq!(holdings(&deps, "trader").yes_shares, quoted.amount_out);
    assert_eq!(holdings(&deps, "trader").yes_shares, 28_971_844);
    assert_eq!(holdings(&deps, "trader").no_shares, 0);
}

#[test]
fn a_purchase_changes_the_market_as_described() {
    let mut deps = even_market();
    let response = place_order(
        &mut deps,
        &at(1_500),
        &registry(),
        1,
        1,
        15_000_000,
        "trader".to_string(),
    )
        .unwrap();
    assert_eq!(response.messages, vec![report(15_000_000, vec![1, 1, 50_738_916])]);
    assert!(response.events.is_empty());
    let info = &deps.storage.information;
    assert_eq!(info.yes_liquidity, 515_000_000);
    assert_eq!(info.no_liquidity, 500_000_000);
    assert_eq!(info.yes_price, 50_738_916);
    assert_eq!(info.no_price, 49_261_084);
    assert_eq!(info.yes_shares, 28_971_844 + 295_631);
    assert_eq!(info.no_shares, 0);
    assert_eq!(info.liquidity_shares, 500_000_000);
    assert_eq!(holdings(&deps, "fees").yes_shares, 295_631);
    assert_eq!(
        deps.storage.order_list,
        vec![
            Order { timestamp: 1_000, price: 50_000_000 },
            Order { timestamp: 1_500, price: 50_738_916 }
        ]
    );
}

#[test]
fn a_purchase_of_no_moves_the_price_of_yes_down() {
    let mut deps = even_market();
    let response =
        place_order(
            &mut deps,
            &env(),
            &registry(),
            0,
            1,
            15_000_000,
            "trader".to_string(),
        ).unwrap();
    assert_eq!(response.messages, vec![report(15_000_000, vec![0, 1, 50_738_916])]);
    let info = &deps.storage.information;
    assert_eq!(info.no_liquidity, 515_000_000);
    assert_eq!(info.yes_liquidity, 500_000_000);
    assert_eq!(info.no_price, 50_738_916);
    assert_eq!(info.yes_price, 49_261_084);
    assert_eq!(info.no_shares, 29_267_475);
    assert_eq!(holdings(&deps, "trader").no_shares, 28_971_844);
    assert_eq!(holdings(&deps, "fees").no_shares, 295_631);
    assert_eq!(deps.storage.order_list[1], Order { timestamp: 1_000, price: 49_261_084 });
}

#[test]
fn a_sale_pays_the_seller_and_the_fee_collector() {
    let mut deps = even_market();
    place_order(&mut deps, &env(), &registry(), 1, 1, 15_000_000, "trader".to_string()).unwrap();
    let quoted = quote(&deps, &env(), 1, 0, 28_971_844).unwrap();
    let response =
        place_order(
            &mut deps,
            &at(1_700),
            &registry(),
            1,
            0,
            28_971_844,
            "trader".to_string(),
        ).unwrap();
    assert_eq!(quoted.amount_out, 14_200_461);
    assert_eq!(
        response.messages,
        vec![
            pay("fees", 144_902),
            pay("trader", 14_200_461),
            report(14_200_461, vec![1, 0, 50_014_995])
        ]
    );
    let info = &deps.storage.information;
    assert_eq!(info.yes_liquidity, 515_000_000 - 14_200_461 - 144_902);
    assert_eq!(info.no_liquidity, 500_000_000);
    assert_eq!(info.yes_price, 50_014_995);
    assert_eq!(info.no_price, 49_985_005);
    assert_eq!(info.yes_shares, 295_631);
    assert_eq!(holdings(&deps, "trader").yes_shares, 0);
    assert_eq!(holdings(&deps, "fees").yes_shares, 295_631);
    assert_eq!(deps.storage.order_list.len(), 3);
    assert_eq!(deps.storage.order_list[2], Order { timestamp: 1_700, price: 50_014_995 });
}

#[test]
fn a_sale_of_no_records_the_price_of_yes() {
    let mut deps = even_market();
    place_order(&mut deps, &env(), &registry(), 0, 1, 15_000_000, "trader".to_string()).unwrap();
    let response =
        place_order(
            &mut deps,
            &env(),
            &registry(),
            0,
            0,
            28_971_844,
            "trader".to_string(),
        ).unwrap();
    assert_eq!(
        response.messages,
        vec![
            pay("fees", 144_902),
            pay("trader", 14_200_461),
            report(14_200_461, vec![0, 0, 50_014_995])
        ]
    );
    let info = &deps.storage.information;
    assert_eq!(info.no_price, 50_014_995);
    assert_eq!(info.yes_price, 49_985_005);
    assert_eq!(info.no_liquidity, 500_654_637);
    assert_eq!(deps.storage.order_list[2].price, 49_985_005);
}

#[test]
fn fees_are_shares_on_a_purchase_and_currency_on_a_sale() {
    let mut deps = even_market();
    let bought = place_order(
        &mut deps,
        &env(),
        &registry(),
        1,
        1,
        15_000_000,
        "trader".to_string(),
    ).unwrap();
    assert!(bought.messages.iter().all(|m| !matches!(m, Message::Send { .. })));
    assert_eq!(holdings(&deps, "fees").yes_shares, 591_262 / 2);
    let before = holdings(&deps, "fees");
    let sold = place_order(
        &mut deps,
        &env(),
        &registry(),
        1,
        0,
        1_000_000,
        "trader".to_string(),
    ).unwrap();
    assert_eq!(holdings(&deps, "fees"), before);
    assert!(matches!(&sold.messages[0], Message::Send { to_address, .. } if to_address == "fees"));
}

#[test]
fn a_fee_collector_who_buys_is_credited_twice() {
    let mut deps = even_market();
    place_order(&mut deps, &env(), &registry(), 1, 1, 15_000_000, "fees".to_string()).unwrap();
    assert_eq!(holdings(&deps, "fees").yes_shares, 28_971_844 + 295_631);
    assert_eq!(deps.storage.information.yes_shares, 28_971_844 + 295_631);
    assert_eq!(deps.storage.shares.len(), 2);
}

#[test]
fn every_share_outstanding_is_held_by_someone() {
    let mut deps = even_market();
    place_order(&mut deps, &env(), &registry(), 1, 1, 15_000_000, "ann".to_string()).unwrap();
    place_order(&mut deps, &env(), &registry(), 0, 1, 9_000_000, "bob".to_string()).unwrap();
    place_order(&mut deps, &env(), &registry(), 1, 1, 3_000_000, "bob".to_string()).unwrap();
    place_order(&mut deps, &env(), &registry(), 1, 0, 5_000_000, "ann".to_string()).unwrap();
    place_order(&mut deps, &env(), &registry(), 0, 0, 1_000_000, "bob".to_string()).unwrap();
    let mut yes = 0u128;
    let mut no = 0u128;
    let mut liquidity = 0u128;
    for i in 0..deps.storage.shares.len() {
        let entry = deps.storage.shares.entry(i).unwrap();
        yes += entry.value.yes_shares;
        no += entry.value.no_shares;
        liquidity += entry.value.liquidity_shares;
    }
    assert_eq!(yes, deps.storage.information.yes_shares);
    assert_eq!(no, deps.storage.information.no_shares);
    assert_eq!(liquidity, deps.storage.information.liquidity_shares);
    assert!(deps.storage.shares.entry(deps.storage.shares.len()).is_none());
    assert_eq!(deps.storage.information.yes_price + deps.storage.information.no_price, MULTIPLIER);
}

#[test]
fn an_impact_above_five_percent_is_rejected() {
    assert_eq!(MAXIMUM_IMPACT, 500);
    let mut deps = even_market();
    let before = snapshot(&deps);
    assert_eq!(quote(&deps, &env(), 1, 1, 25_050_000).unwrap().impact, 501);
    let r = place_order(&mut deps, &env(), &registry(), 1, 1, 25_050_000, "trader".to_string());
    assert_eq!(r.unwrap_err(), ContractError::PriceImpact);
    let r = place_order(&mut deps, &env(), &registry(), 0, 1, 400_000_000, "trader".to_string());
    assert_eq!(r.unwrap_err(), ContractError::PriceImpact);
    assert_eq!(snapshot(&deps), before);
    assert_eq!(quote(&deps, &env(), 1, 1, 25_049_999).unwrap().impact, 500);
    place_order(&mut deps, &env(), &registry(), 1, 1, 25_049_999, "trader".to_string()).unwrap();
}

#[test]
fn a_sale_with_an_impact_above_five_percent_is_rejected() {
    let mut deps = even_market();
    place_order(&mut deps, &env(), &registry(), 1, 1, 25_000_000, "trader".to_string()).unwrap();
    place_order(&mut deps, &env(), &registry(), 1, 1, 25_000_000, "trader".to_string()).unwrap();
    let owned = holdings(&deps, "trader").yes_shares;
    assert!(quote(&deps, &env(), 1, 0, owned).unwrap().impact > 500);
    let before = snapshot(&deps);
    let r = place_order(&mut deps, &env(), &registry(), 1, 0, owned, "trader".to_string());
    assert_eq!(r.unwrap_err(), ContractError::PriceImpact);
    assert_eq!(snapshot(&deps), before);
}

#[test]
fn an_order_is_rejected_for_each_reason() {
    let mut deps = even_market();
    let before = snapshot(&deps);
    let stranger = MessageInfo { sender: "stranger".to_string(), funds: vec![] };
    let r = place_order(&mut deps, &env(), &stranger, 1, 1, 15_000_000, "trader".to_string());
    assert_eq!(r.unwrap_err(), ContractError::OnlyFactory);
    let r = place_order(&mut deps, &env(), &registry(), 1, 1, 0, "trader".to_string());
    assert_eq!(r.unwrap_err(), ContractError::ZeroAmount);
    let r = place_order(&mut deps, &env(), &registry(), 2, 1, 15_000_000, "trader".to_string());
    assert_eq!(r.unwrap_err(), ContractError::InvalidVariant);
    let r = place_order(&mut deps, &env(), &registry(), 1, 2, 15_000_000, "trader".to_string());
    assert_eq!(r.unwrap_err(), ContractError::InvalidSide);
    let r = place_order(&mut deps, &env(), &registry(), 1, 0, 1, "trader".to_string());
    assert_eq!(r.unwrap_err(), ContractError::Overflow);
    let r = place_order(&mut deps, &env(), &registry(), 1, 1, u128::MAX, "trader".to_string());
    assert_eq!(r.unwrap_err(), ContractError::Overflow);
    assert_eq!(snapshot(&deps), before);

    let mut asked = even_market();
    asked.querier.fees_address = None;
    let r = place_order(&mut asked, &env(), &registry(), 1, 1, 15_000_000, "trader".to_string());
    assert_eq!(r.unwrap_err(), ContractError::QueryFailed);

    let mut resolved = even_market();
    resolved.storage.information.resolved = true;
    let r = place_order(&mut resolved, &env(), &registry(), 1, 1, 15_000_000, "trader".to_string());
    assert_eq!(r.unwrap_err(), ContractError::MarketResolved);

    let mut drained = even_market();
    drained.storage.information.yes_liquidity = 0;
    let r = place_order(&mut drained, &env(), &registry(), 1, 1, 15_000_000, "trader".to_string());
    assert_eq!(r.unwrap_err(), ContractError::DivideByZero);
}

#[test]
fn a_seller_cannot_sell_more_than_is_held_or_outstanding() {
    let mut deps = even_market();
    place_order(&mut deps, &env(), &registry(), 1, 1, 15_000_000, "trader".to_string()).unwrap();
    let before = snapshot(&deps);
    let r = place_order(&mut deps, &env(), &registry(), 1, 0, 28_971_845, "trader".to_string());
    assert_eq!(r.unwrap_err(), ContractError::Overflow);
    let r = place_order(&mut deps, &env(), &registry(), 0, 0, 1, "trader".to_string());
    assert_eq!(r.unwrap_err(), ContractError::Overflow);
    assert_eq!(snapshot(&deps), before);
    deps.storage.information.yes_shares = 10;
    let r = place_order(&mut deps, &env(), &registry(), 1, 0, 11, "trader".to_string());
    assert_eq!(r.unwrap_err(), ContractError::Overflow);
}

#[test]
fn no_order_passes_in_the_quiet_period() {
    assert_eq!(RESOLVE_DURATION, 180);
    let mut deps = even_market();
    let before = snapshot(&deps);
    for time in [2_000u64, 2_001, 2_100, 2_179] {
        let r = place_order(
            &mut deps,
            &at(time),
            &registry(),
            1,
            1,
            15_000_000,
            "trader".to_string(),
        );
        assert_eq!(r.unwrap_err(), ContractError::ResolutionWindow);
    }
    assert_eq!(snapshot(&deps), before);
    let stranger = MessageInfo { sender: "stranger".to_string(), funds: vec![] };
    let r = place_order(&mut deps, &at(2_050), &stranger, 9, 9, 0, "trader".to_string());
    assert_eq!(r.unwrap_err(), ContractError::ResolutionWindow);
    place_order(
        &mut deps,
        &at(1_999),
        &registry(),
        1,
        1,
        15_000_000,
        "trader".to_string(),
    ).unwrap();
    place_order(&mut deps, &at(2_180), &registry(), 1, 1, 1_000_000, "trader".to_string()).unwrap();
    let mut late = even_market();
    late.storage.information.market_end = u64::MAX;
    let r = place_order(
        &mut late,
        &at(u64::MAX),
        &registry(),
        1,
        1,
        15_000_000,
        "trader".to_string(),
    );
    assert_eq!(r.unwrap_err(), ContractError::ResolutionWindow);
}

#[test]
fn the_reasons_against_an_order_are_tried_in_order() {
    let mut deps = even_market();
    deps.storage.information.resolved = true;
    deps.querier.fees_address = None;
    let stranger = MessageInfo { sender: "stranger".to_string(), funds: vec![] };
    let r = place_order(&mut deps, &env(), &stranger, 2, 2, 0, "trader".to_string());
    assert_eq!(r.unwrap_err(), ContractError::OnlyFactory);
    let r = place_order(&mut deps, &env(), &registry(), 2, 2, 0, "trader".to_string());
    assert_eq!(r.unwrap_err(), ContractError::ZeroAmount);
    let r = place_order(&mut deps, &env(), &registry(), 2, 2, 1, "trader".to_string());
    assert_eq!(r.unwrap_err(), ContractError::MarketResolved);
    deps.storage.information.resolved = false;
    let r = place_order(&mut deps, &env(), &registry(), 2, 2, 1, "trader".to_string());
    assert_eq!(r.unwrap_err(), ContractError::InvalidVariant);
    let r = place_order(&mut deps, &env(), &registry(), 1, 2, 1, "trader".to_string());
    assert_eq!(r.unwrap_err(), ContractError::InvalidSide);
    let r = place_order(&mut deps, &env(), &registry(), 1, 1, 1, "trader".to_string());
    assert_eq!(r.unwrap_err(), ContractError::QueryFailed);
}

#[test]
fn the_dispatcher_places_orders() {
    let mut direct = even_market();
    let mut dispatched = even_market();
    let a = place_order(
        &mut direct,
        &env(),
        &registry(),
        0,
        1,
        15_000_000,
        "trader".to_string(),
    ).unwrap();
    let b = execute(
        &mut dispatched,
        &env(),
        &registry(),
        ExecuteMsg::PlaceOrder {
            variant: 0,
            buy_or_sell: 1,
            amount: 15_000_000,
            receiver: "trader".to_string(),
        },
    )
    .unwrap();
    assert_eq!(a.messages, b.messages);
    assert_eq!(snapshot(&direct), snapshot(&dispatched));
}

fn with_orders(count: u64) -> Deps {
    let mut deps = even_market();
    for i in 1..count {
        place_order(
            &mut deps,
            &at(1_000 + i),
            &registry(),
            1,
            1,
            1_000_000,
            "trader".to_string(),
        ).unwrap();
    }
    deps
}

#[test]
fn three_orders_fill_one_page_newest_first() {
    let deps = with_orders(3);
    assert_eq!(get_total_orders(&deps, &env()), Ok(3));
    let (time, orders) = get_orders(&deps, &at(5_000), 1, 10).unwrap();
    assert_eq!(time, 5_000);
    assert_eq!(orders.len(), 3);
    assert_eq!(orders[0], deps.storage.order_list[2]);
    assert_eq!(orders[1], deps.storage.order_list[1]);
    assert_eq!(orders[2], deps.storage.order_list[0]);
    assert_eq!(orders[2], Order { timestamp: 1_000, price: 50_000_000 });
    assert_eq!(orders[0].timestamp, 1_002);
    assert_eq!(get_orders(&deps, &env(), 2, 10).unwrap_err(), ContractError::PageOutOfBounds);
}

#[test]
fn pages_are_counted_from_the_newest_order() {
    let deps = with_orders(5);
    let all = &deps.storage.order_list;
    assert_eq!(get_orders(&deps, &env(), 1, 2).unwrap().1, vec![all[4], all[3]]);
    assert_eq!(get_orders(&deps, &env(), 2, 2).unwrap().1, vec![all[2], all[1]]);
    assert_eq!(get_orders(&deps, &env(), 3, 2).unwrap().1, vec![all[0]]);
    assert_eq!(get_orders(&deps, &env(), 4, 2).unwrap_err(), ContractError::PageOutOfBounds);
    assert_eq!(get_orders(&deps, &env(), 1, 5).unwrap().1.len(), 5);
    assert_eq!(get_orders(&deps, &env(), 2, 5).unwrap_err(), ContractError::PageOutOfBounds);
    assert_eq!(get_orders(&deps, &env(), 5, 1).unwrap().1, vec![all[0]]);
    assert_eq!(get_orders(&deps, &env(), 1, 1).unwrap().1, vec![all[4]]);
    assert_eq!(get_orders(&deps, &env(), 1, u128::MAX).unwrap().1.len(), 5);
    assert_eq!(
        get_orders(&deps, &env(), u128::MAX, u128::MAX).unwrap_err(),
        ContractError::PageOutOfBounds,
    );
}

#[test]
fn a_page_needs_a_number_and_a_size() {
    let deps = with_orders(3);
    assert_eq!(get_orders(&deps, &env(), 0, 10).unwrap_err(), ContractError::PageZero);
    assert_eq!(get_orders(&deps, &env(), 1, 0).unwrap_err(), ContractError::ItemsPerPageZero);
    assert_eq!(get_orders(&deps, &env(), 0, 0).unwrap_err(), ContractError::PageZero);
}

#[test]
fn a_market_without_orders_has_no_page() {
    let storage = instantiate(
        &env(),
        &registry(),
        InstantiateMsg {
            title: "Rain tomorrow?".to_string(),
            description: "Resolves on the weather report.".to_string(),
            end_date: 2_000,
            categories: vec![],
            usdc: "usdc".to_string(),
            owner: "owner".to_string(),
            factory: "factory".to_string(),
        },
    );
    let deps = Deps {
        storage,
        querier: Querier { is_admin: None, fees_address: None, balance: None },
    };
    assert_eq!(get_total_orders(&deps, &env()), Ok(0));
    assert_eq!(get_orders(&deps, &env(), 1, 10).unwrap_err(), ContractError::PageOutOfBounds);
}

#[test]
fn the_queries_answer_through_the_dispatcher() {
    let deps = with_orders(3);
    match query(&deps, &at(9), QueryMsg::GetOrders { page: 1, items_per_page: 2 }) {
        Ok(QueryResponse::Orders(time, orders)) => {
            assert_eq!(time, 9);
            assert_eq!(orders, vec![deps.storage.order_list[2], deps.storage.order_list[1]]);
        },
        other => panic!("no page: {:?}", other),
    }
    match query(&deps, &env(), QueryMsg::GetOrders { page: 3, items_per_page: 2 }) {
        Err(e) => assert_eq!(e, ContractError::PageOutOfBounds),
        other => panic!("a page: {:?}", other),
    }
    match query(&deps, &env(), QueryMsg::GetTotalOrders {}) {
        Ok(QueryResponse::TotalOrders(total)) => assert_eq!(total, 3),
        other => panic!("no count: {:?}", other),
    }
    match query(&deps, &env(), QueryMsg::GetInfo { account: "trader".to_string() }) {
        Ok(QueryResponse::Info(data)) => {
            assert_eq!(data.shares, holdings(&deps, "trader"));
            assert_eq!(data.information.yes_liquidity, 502_000_000);
            assert_eq!(data.information.title, "Rain tomorrow?");
        },
        other => panic!("no record: {:?}", other),
    }
    let unseen = get_info(&deps, &env(), "nobody".to_string()).unwrap();
    assert_eq!(unseen.shares, Shares::new());
    assert_eq!(format!("{:?}", unseen.information), format!("{:?}", deps.storage.information));
}

#[test]
fn every_order_stands_on_its_page() {
    let deps = with_orders(7);
    let all = &deps.storage.order_list;
    for items_per_page in [1u128, 2, 3, 4, 7, 8, 50] {
        let mut seen = 0;
        let mut page = 1u128;
        while let Ok((_, orders)) = get_orders(&deps, &env(), page, items_per_page) {
            assert!(!orders.is_empty());
            assert!(orders.len() as u128 <= items_per_page);
            for (place, order) in orders.iter().enumerate() {
                let age = (page - 1) * items_per_page + place as u128;
                assert_eq!(*order, all[all.len() - 1 - age as usize]);
                seen += 1;
            }
            page += 1;
        }
        assert_eq!(seen, all.len());
    }
}
