use xionmarkets::error::ContractError;
use xionmarkets::host::{Env, MessageInfo};
use xionmarkets::market::contract::{instantiate, query, QueryResponse};
use xionmarkets::market::quote::{calculate_impact, quote};
use xionmarkets::market::state::{Deps, Querier};
use xionmarkets::packages::market::{InstantiateMsg, QueryMsg, Quote};

fn env() -> Env {
    Env { block_time: 1_000, contract_address: "market".to_string() }
}

/// A market with the given reserves and prices.
fn pool(yes_liquidity: u128, no_liquidity: u128, yes_price: u128, no_price: u128) -> Deps {
    let info = MessageInfo { sender: "factory".to_string(), funds: vec![] };
    let mut storage = instantiate(
        &env(),
        &info,
        InstantiateMsg {
            title: "Rain tomorrow?".to_string(),
            description: "Resolves on the weather report.".to_string(),
            end_date: 2_000,
            categories: vec!["weather".to_string()],
            usdc: "usdc".to_string(),
            owner: "owner".to_string(),
            factory: "factory".to_string(),
        },
    );
    storage.information.yes_liquidity = yes_liquidity;
    storage.information.no_liquidity = no_liquidity;
    storage.information.yes_price = yes_price;
    storage.information.no_price = no_price;
    Deps { storage, querier: Querier { is_admin: None, fees_address: None, balance: None } }
}

fn even_pool() -> Deps {
    pool(500_000_000, 500_000_000, 50_000_000, 50_000_000)
}

#[test]
fn impact_is_the_growth_of_the_reserve_in_basis_points() {
    assert_eq!(calculate_impact(500_000_000, 15_000_000), Ok(300));
    assert_eq!(calculate_impact(500_000_000, 0), Ok(0));
    assert_eq!(calculate_impact(500_000_000, 25_000_000), Ok(500));
    assert_eq!(calculate_impact(500_000_000, 25_049_999), Ok(500));
    assert_eq!(calculate_impact(500_000_000, 25_050_000), Ok(501));
    assert_eq!(calculate_impact(3, 1), Ok(3_333));
}

#[test]
fn impact_of_an_empty_reserve_is_a_division_by_zero() {
    assert_eq!(calculate_impact(0, 1), Err(ContractError::DivideByZero));
    assert_eq!(calculate_impact(0, 0), Err(ContractError::DivideByZero));
}

#[test]
fn impact_that_leaves_the_range_overflows() {
    assert_eq!(calculate_impact(u128::MAX, 1), Err(ContractError::Overflow));
    assert_eq!(calculate_impact(u128::MAX / 10_000, 1), Err(ContractError::Overflow));
    assert_eq!(calculate_impact(0, u128::MAX), Err(ContractError::Overflow));
}

#[test]
fn impact_never_falls_as_the_amount_grows() {
    let reserve = 500_000_000u128;
    let mut last = 0u128;
    let mut amount = 0u128;
    while amount <= 60_000_000 {
        let now = calculate_impact(reserve, amount).unwrap();
        assert!(now >= last);
        last = now;
        amount += 12_345;
    }
}

#[test]
fn impact_grows_strictly_over_a_basis_point_of_the_reserve() {
    let reserve = 500_000_000u128;
    let step = reserve / 10_000;
    let mut amount = 7u128;
    while amount <= 60_000_000 {
        let smaller = calculate_impact(reserve, amount).unwrap();
        let larger = calculate_impact(reserve, amount + step).unwrap();
        assert!(smaller < larger);
        amount += 999_983;
    }
    assert_eq!(calculate_impact(reserve, 1), calculate_impact(reserve, 2));
}

#[test]
fn buying_yes_is_quoted_by_the_formula() {
    let deps = even_pool();
    assert_eq!(
        quote(&deps, &env(), 1, 1, 15_000_000),
        Ok(Quote { amount_out: 28_971_844, impact: 300, price: 50_738_916, fees: 591_262 })
    );
}

#[test]
fn buying_no_is_quoted_against_the_no_reserve() {
    let deps = pool(500_000_000, 250_000_000, 66_666_666, 33_333_334);
    // price: 10^8 * 265_000_000 / 765_000_000; minted: 15_000_000 * 10^8 / price
    assert_eq!(
        quote(&deps, &env(), 0, 1, 15_000_000),
        Ok(Quote { amount_out: 42_435_850, impact: 600, price: 34_640_522, fees: 866_037 })
    );
}

#[test]
fn selling_yes_is_quoted_by_the_formula() {
    let deps = pool(515_000_000, 500_000_000, 50_738_916, 49_261_084);
    assert_eq!(
        quote(&deps, &env(), 1, 0, 28_971_844),
        Ok(Quote { amount_out: 14_200_461, impact: 285, price: 50_014_995, fees: 289_805 })
    );
}

#[test]
fn selling_no_uses_the_price_of_no() {
    let deps = pool(500_000_000, 515_000_000, 49_261_084, 50_738_916);
    assert_eq!(
        quote(&deps, &env(), 0, 0, 28_971_844),
        Ok(Quote { amount_out: 14_200_461, impact: 285, price: 50_014_995, fees: 289_805 })
    );
}

#[test]
fn the_fee_is_two_percent_rounded_down() {
    let deps = even_pool();
    let q = quote(&deps, &env(), 1, 1, 15_000_000).unwrap();
    assert_eq!(q.fees, 2 * (q.amount_out + q.fees) / 100);
    let s = quote(&deps, &env(), 1, 0, 1_000).unwrap();
    assert_eq!(s.fees, 2 * (s.amount_out + s.fees) / 100);
    assert_eq!(s.amount_out + s.fees, 499);
}

#[test]
fn outcome_and_side_must_be_zero_or_one() {
    let deps = even_pool();
    assert_eq!(quote(&deps, &env(), 2, 1, 10), Err(ContractError::InvalidVariant));
    assert_eq!(quote(&deps, &env(), 0, 2, 10), Err(ContractError::InvalidSide));
    assert_eq!(quote(&deps, &env(), 7, 7, 10), Err(ContractError::InvalidVariant));
    assert_eq!(quote(&deps, &env(), u128::MAX, 0, 10), Err(ContractError::InvalidVariant));
}

#[test]
fn an_empty_pool_quotes_nothing() {
    let deps = pool(0, 0, 0, 0);
    assert_eq!(quote(&deps, &env(), 1, 1, 10), Err(ContractError::DivideByZero));
    assert_eq!(quote(&deps, &env(), 0, 0, 10), Err(ContractError::DivideByZero));
}

#[test]
fn a_price_that_rounds_to_nothing_buys_nothing() {
    let deps = pool(1, 1_000_000_000_000, 1, 99_999_999);
    assert_eq!(quote(&deps, &env(), 1, 1, 1), Err(ContractError::DivideByZero));
}

#[test]
fn amounts_beyond_the_range_overflow() {
    let deps = even_pool();
    assert_eq!(quote(&deps, &env(), 1, 1, u128::MAX), Err(ContractError::Overflow));
    assert_eq!(quote(&deps, &env(), 1, 0, u128::MAX), Err(ContractError::Overflow));
}

#[test]
fn selling_more_than_the_reserve_backs_overflows() {
    let deps = even_pool();
    // 1_100_000_000 shares at 0.5 stand for 550_000_000, more than the reserve holds
    assert_eq!(quote(&deps, &env(), 1, 0, 1_100_000_000), Err(ContractError::Overflow));
}

#[test]
fn selling_the_last_of_both_reserves_divides_by_zero() {
    let deps = pool(100, 0, 100_000_000, 0);
    assert_eq!(quote(&deps, &env(), 1, 0, 100), Err(ContractError::DivideByZero));
}

#[test]
fn quoted_impact_never_falls_as_the_trade_grows() {
    let deps = pool(515_000_000, 500_000_000, 50_738_916, 49_261_084);
    for side in [0u128, 1u128] {
        for variant in [0u128, 1u128] {
            let mut last = 0u128;
            let mut amount = 1u128;
            while amount < 100_000_000 {
                let q = quote(&deps, &env(), variant, side, amount).unwrap();
                assert!(q.impact >= last);
                last = q.impact;
                amount += 777_777;
            }
        }
    }
}

#[test]
fn buying_and_selling_back_at_the_same_reserves_gains_nothing() {
    let pools = [
        even_pool(),
        pool(515_000_000, 500_000_000, 50_738_916, 49_261_084),
        pool(900_000_000, 100_000_000, 90_000_000, 10_000_000),
        pool(12_345, 98_765, 11_111_111, 88_888_889),
    ];
    for deps in pools.iter() {
        for variant in [0u128, 1u128] {
            for amount in [1u128, 10, 999, 12_345, 1_000_000, 15_000_000] {
                if let Ok(bought) = quote(deps, &env(), variant, 1, amount) {
                    if let Ok(sold) = quote(deps, &env(), variant, 0, bought.amount_out) {
                        assert!(sold.amount_out + sold.fees <= amount);
                    }
                }
            }
        }
    }
    let bought = quote(&even_pool(), &env(), 1, 1, 15_000_000).unwrap();
    let sold = quote(&even_pool(), &env(), 1, 0, bought.amount_out).unwrap();
    assert_eq!(sold.amount_out, 13_987_536);
}

#[test]
fn the_query_gives_the_same_quote() {
    let deps = even_pool();
    let direct = quote(&deps, &env(), 1, 1, 15_000_000).unwrap();
    match query(&deps, &env(), QueryMsg::Quote { variant: 1, buy_or_sell: 1, amount: 15_000_000 }) {
        Ok(QueryResponse::Quote(q)) => assert_eq!(q, direct),
        other => panic!("no quote: {:?}", other),
    }
    match query(&deps, &env(), QueryMsg::Quote { variant: 3, buy_or_sell: 1, amount: 1 }) {
        Err(e) => assert_eq!(e, ContractError::InvalidVariant),
        other => panic!("a quote: {:?}", other),
    }
}
