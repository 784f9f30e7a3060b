use xionmarkets::error::ContractError;
use xionmarkets::factory::contract::{
    execute as factory_execute,
    instantiate as factory_instantiate,
};
use xionmarkets::factory::execute::reply as factory_reply;
use xionmarkets::factory::query::{fees_address, is_admin};
use xionmarkets::factory::state::Deps as FactoryDeps;
use xionmarkets::host::{Coin, Env, Event, Message, MessageInfo, Reply, Response};
use xionmarkets::market::contract::{
    execute as market_execute, instantiate as market_instantiate, query as market_query,
    QueryResponse,
};
use xionmarkets::market::state::{Deps as MarketDeps, Querier, Storage as MarketStorage};
use xionmarkets::packages::factory::{
    ExecuteMsg as FactoryExecuteMsg, InstantiateMsg as FactoryInstantiate,
};
use xionmarkets::packages::market::{
    Data, ExecuteMsg as MarketExecuteMsg, QueryMsg as MarketQueryMsg, Quote,
};

const USDC_DENOM: &str = "usdc";

const FACTORY: &str = "contract0";

/// A ledger small enough to hold in a test: one registry, its markets, and who owns how
/// much of the settlement currency. It carries out the instructions of a response as a
/// ledger does: all of a call or nothing.
#[derive(Clone)]
struct App {
    time: u64,
    factory: Option<FactoryDeps>,
    markets: Vec<(String, MarketStorage)>,
    bank: Vec<(String, u128)>,
}

fn mock_app() -> App {
    App { time: 1_571_797_419, factory: None, markets: vec![], bank: vec![] }
}

fn coins(amount: u128, denom: &str) -> Vec<Coin> {
    vec![Coin { denom: denom.to_string(), amount }]
}

impl App {
    fn balance(&self, account: &str) -> u128 {
        self.bank.iter().find(|(a, _)| a == account).map(|(_, b)| *b).unwrap_or(0)
    }

    fn mint(&mut self, account: &str, amount: u128) {
        match self.bank.iter_mut().find(|(a, _)| a == account) {
            Some(entry) => entry.1 += amount,
            None => self.bank.push((account.to_string(), amount)),
        }
    }

    fn transfer(&mut self, from: &str, to: &str, amount: u128) -> Result<(), ContractError> {
        let held = self.balance(from);
        if held < amount {
            return Err(ContractError::Overflow);
        }
        self.bank.iter_mut().find(|(a, _)| a == from).map(|entry| entry.1 = held - amount);
        self.mint(to, amount);
        Ok(())
    }

    fn env(&self, contract: &str) -> Env {
        Env { block_time: self.time, contract_address: contract.to_string() }
    }

    fn factory(&mut self) -> &mut FactoryDeps {
        self.factory.as_mut().unwrap()
    }

    /// One call on the registry, with everything that follows from it.
    fn execute_contract(
        &mut self,
        sender: &str,
        msg: FactoryExecuteMsg,
        funds: Vec<Coin>,
    ) -> Result<Vec<Event>, ContractError> {
        let before = self.clone();
        let result = self.run(sender, msg, funds);
        if result.is_err() {
            *self = before;
        }
        result
    }

    fn run(
        &mut self,
        sender: &str,
        msg: FactoryExecuteMsg,
        funds: Vec<Coin>,
    ) -> Result<Vec<Event>, ContractError> {
        for coin in funds.iter() {
            self.transfer(sender, FACTORY, coin.amount)?;
        }
        let env = self.env(FACTORY);
        let info = MessageInfo { sender: sender.to_string(), funds };
        let response = factory_execute(self.factory(), &env, &info, msg)?;
        self.carry_out(response)
    }

    fn carry_out(&mut self, response: Response) -> Result<Vec<Event>, ContractError> {
        let mut events = response.events;
        for message in response.messages {
            match message {
                Message::Market { contract_addr, msg, funds } => {
                    events.extend(self.call_market(&contract_addr, msg, funds)?);
                },
                Message::Instantiate { init_msg, reply_id, .. } => {
                    let address = format!("contract{}", self.markets.len() + 1);
                    let info = MessageInfo { sender: FACTORY.to_string(), funds: vec![] };
                    let storage = market_instantiate(&self.env(&address), &info, init_msg);
                    self.markets.push((address.clone(), storage));
                    let mut data = vec![0x0a, address.len() as u8];
                    data.extend(address.as_bytes());
                    let env = self.env(FACTORY);
                    let told = factory_reply(
                        self.factory(),
                        &env,
                        Reply { id: reply_id, result: Ok(Some(data)) },
                    )?;
                    events.extend(told.events);
                },
                _ => panic!("the registry sends nothing else"),
            }
        }
        Ok(events)
    }

    fn call_market(
        &mut self,
        market: &str,
        msg: MarketExecuteMsg,
        funds: Vec<Coin>,
    ) -> Result<Vec<Event>, ContractError> {
        for coin in funds.iter() {
            self.transfer(FACTORY, market, coin.amount)?;
        }
        let receiver = match &msg {
            MarketExecuteMsg::InitializeLiquidity { receiver, .. } => receiver.clone(),
            MarketExecuteMsg::AddLiquidity { receiver, .. } => receiver.clone(),
            MarketExecuteMsg::RemoveLiquidity { receiver, .. } => receiver.clone(),
            MarketExecuteMsg::Claim { receiver, .. } => receiver.clone(),
            MarketExecuteMsg::ResolveMarket { receiver, .. } => receiver.clone(),
            MarketExecuteMsg::PlaceOrder { receiver, .. } => receiver.clone(),
        };
        let registry_env = self.env(FACTORY);
        let querier = Querier {
            is_admin: is_admin(self.factory.as_ref().unwrap(), &registry_env, receiver).ok(),
            fees_address: fees_address(self.factory.as_ref().unwrap(), &registry_env).ok(),
            balance: Some(self.balance(market)),
        };
        let at = self.markets.iter().position(|(a, _)| a == market).unwrap();
        let mut deps = MarketDeps { storage: self.markets[at].1.clone(), querier };
        let info = MessageInfo { sender: FACTORY.to_string(), funds };
        let response = market_execute(&mut deps, &self.env(market), &info, msg)?;
        self.markets[at].1 = deps.storage;
        let mut events = response.events;
        for message in response.messages {
            match message {
                Message::Send { to_address, amount, .. } => {
                    self.transfer(market, &to_address, amount)?;
                },
                Message::RecordStats { contract_addr, amount, account, stat_type, data } => {
                    assert_eq!(contract_addr, FACTORY);
                    let info = MessageInfo { sender: market.to_string(), funds: vec![] };
                    let told = factory_execute(
                        self.factory(),
                        &registry_env,
                        &info,
                        FactoryExecuteMsg::RecordStats { amount, account, stat_type, data },
                    )?;
                    events.extend(told.events);
                },
                _ => panic!("a market sends nothing else"),
            }
        }
        Ok(events)
    }

    fn query_wasm_smart(
        &self,
        market: &str,
        msg: MarketQueryMsg,
    ) -> Result<QueryResponse, ContractError> {
        let at = self.markets.iter().position(|(a, _)| a == market).unwrap();
        let deps = MarketDeps {
            storage: self.markets[at].1.clone(),
            querier: Querier { is_admin: None, fees_address: None, balance: None },
        };
        market_query(&deps, &self.env(market), msg)
    }

    fn get_info(&self, market: &str, account: &str) -> Data {
        match self.query_wasm_smart(
            market,
            MarketQueryMsg::GetInfo { account: account.to_string() },
        ) {
            Ok(QueryResponse::Info(data)) => data,
            other => panic!("no record: {:?}", other),
        }
    }

    fn quote(&self, market: &str, variant: u128, buy_or_sell: u128, amount: u128) -> Quote {
        match self.query_wasm_smart(
            market,
            MarketQueryMsg::Quote { variant, buy_or_sell, amount },
        ) {
            Ok(QueryResponse::Quote(quote)) => quote,
            other => panic!("no quote: {:?}", other),
        }
    }
}

#[derive(Debug)]
#[allow(dead_code)]
struct ContractInfo {
    usdc_contract_addr: String,
    factory_contract_addr: String,
}

fn initialize_contracts(app: &mut App) -> ContractInfo {
    let usdc = String::from(USDC_DENOM);
    let env = app.env(FACTORY);
    let info = MessageInfo { sender: "user".to_string(), funds: vec![] };
    let storage = factory_instantiate(
        &env,
        &info,
        FactoryInstantiate {
            usdc: usdc.clone(),
            fees_address: "fees".to_string(),
            market_code_id: 2,
        },
    );
    app.factory = Some(FactoryDeps { storage });
    ContractInfo { usdc_contract_addr: usdc, factory_contract_addr: FACTORY.to_string() }
}

#[test]
fn initialization_test() {
    let mut app = mock_app();
    initialize_contracts(&mut app);
}

fn create_market(app: &mut App, _factory_contract_addr: String) -> String {
    let events = app
        .execute_contract(
            "user",
            FactoryExecuteMsg::CreateMarket {
                title: "Will BTC reach $100,000?".to_string(),
                description: "Bet on this market today!".to_string(),
                end_date: 12456788910111213,
                categories: vec!["finance".to_string(), "crypto".to_string()],
                media: [
                    "https://site.com/assets/media-0.png".to_string(),
                    "https://site.com/assets/media-1.png".to_string(),
                ],
            },
            vec![],
        )
        .unwrap();
    match &events[0] {
        Event::Created { contract_address } => contract_address.clone(),
        other => panic!("no market was created: {:?}", other),
    }
}

#[test]
fn create_market_test() {
    let mut app = mock_app();
    let contract_info = initialize_contracts(&mut app);
    let market_address = create_market(&mut app, contract_info.factory_contract_addr);
    let result = app.get_info(&market_address, "user");
    assert_eq!(result.information.title, "Will BTC reach $100,000?");
}

fn funded_market(app: &mut App) -> String {
    let contract_info = initialize_contracts(app);
    let market_address = create_market(app, contract_info.factory_contract_addr);
    app.mint("user", 10_000_000_000);
    app.execute_contract(
        "user",
        FactoryExecuteMsg::InitializeLiquidity {
            market: market_address.clone(),
            yes_price: 50_000_000u128,
            liquidity: 1_000_000_000u128,
        },
        coins(1_000_000_000, USDC_DENOM),
    )
    .unwrap();
    market_address
}

#[test]
fn initialize_liquidity_test() {
    let mut app = mock_app();
    let market_address = funded_market(&mut app);
    let result = app.get_info(&market_address, "user");
    assert_eq!(result.information.yes_liquidity, 500_000_000u128);
}

#[test]
fn add_liquidity_test() {
    let mut app = mock_app();
    let market_address = funded_market(&mut app);
    app.execute_contract(
        "user",
        FactoryExecuteMsg::AddLiquidity {
            market: market_address.clone(),
            amount: 1_000_000_000u128,
        },
        coins(1_000_000_000, USDC_DENOM),
    )
    .unwrap();
    let result = app.get_info(&market_address, "user");
    assert_eq!(result.information.yes_liquidity, 1_000_000_000u128);
}

#[test]
fn remove_liquidity_test() {
    let mut app = mock_app();
    let market_address = funded_market(&mut app);
    app.execute_contract(
        "user",
        FactoryExecuteMsg::AddLiquidity {
            market: market_address.clone(),
            amount: 1_000_000_000u128,
        },
        coins(1_000_000_000, USDC_DENOM),
    )
    .unwrap();
    app.execute_contract(
        "user",
        FactoryExecuteMsg::RemoveLiquidity {
            market: market_address.clone(),
            shares: 500_000_000u128,
        },
        vec![],
    )
    .unwrap();
    let result = app.get_info(&market_address, "user");
    assert_eq!(result.information.yes_liquidity, 500_000_000u128);
}

fn buy(app: &mut App, market_address: &str, variant: u128) -> u128 {
    let shares_quote = app.quote(market_address, variant, 1, 15_000_000);
    let shares_out = shares_quote.amount_out;
    app.execute_contract(
        "user",
        FactoryExecuteMsg::PlaceOrder {
            market: market_address.to_string(),
            variant,
            buy_or_sell: 1,
            amount: 15_000_000u128,
        },
        coins(15_000_000, USDC_DENOM),
    )
    .unwrap();
    shares_out
}

fn sell(app: &mut App, market_address: &str, variant: u128, shares: u128) -> u128 {
    let usdc_quote = app.quote(market_address, variant, 0, shares);
    let usdc_out = usdc_quote.amount_out;
    app.execute_contract(
        "user",
        FactoryExecuteMsg::PlaceOrder {
            market: market_address.to_string(),
            variant,
            buy_or_sell: 0,
            amount: shares,
        },
        vec![],
    )
    .unwrap();
    usdc_out
}

#[test]
fn buy_yes_test() {
    let mut app = mock_app();
    let market_address = funded_market(&mut app);
    let shares_out = buy(&mut app, &market_address, 1);
    let result = app.get_info(&market_address, "user");
    println!("BUY YES => Information: {:?}", result.information);
    assert_eq!(result.shares.yes_shares, shares_out);
}

#[test]
fn sell_yes_test() {
    let mut app = mock_app();
    let market_address = funded_market(&mut app);
    let shares_out = buy(&mut app, &market_address, 1);
    let usdc_out = sell(&mut app, &market_address, 1, shares_out);
    let expected_remaining_balance =
        10_000_000_000u128 - 1_000_000_000u128 - 15_000_000u128 + usdc_out;
    let info = app.get_info(&market_address, "user");
    println!("SELL YES => Information: {:?}", info.information);
    assert_eq!(app.balance("user"), expected_remaining_balance);
}

#[test]
fn buy_no_test() {
    let mut app = mock_app();
    let market_address = funded_market(&mut app);
    let shares_out = buy(&mut app, &market_address, 0);
    let result = app.get_info(&market_address, "user");
    println!("BUY NO => Information: {:?}", result.information);
    assert_eq!(result.shares.no_shares, shares_out);
}

#[test]
fn sell_no_test() {
    let mut app = mock_app();
    let market_address = funded_market(&mut app);
    let shares_out = buy(&mut app, &market_address, 0);
    let usdc_out = sell(&mut app, &market_address, 0, shares_out);
    let expected_remaining_balance =
        10_000_000_000u128 - 1_000_000_000u128 - 15_000_000u128 + usdc_out;
    let info = app.get_info(&market_address, "user");
    println!("SELL NO => Information: {:?}", info.information);
    assert_eq!(app.balance("user"), expected_remaining_balance);
}

#[test]
fn resolve_and_claim_test() {
    let mut app = mock_app();
    let first = funded_market(&mut app);
    let second = create_market(&mut app, FACTORY.to_string());
    let shares_out = buy(&mut app, &first, 1);
    let held_before = app.balance("user");
    app.time = 12456788910111213;

    // the first market stands at position 1 of the active ones, not at 2
    let wrong = app.execute_contract(
        "user",
        FactoryExecuteMsg::ResolveMarket { market: first.clone(), variant: 1, market_index: 2 },
        vec![],
    );
    assert_eq!(wrong.unwrap_err(), ContractError::MarketIndexMismatch);
    assert!(!app.get_info(&first, "user").information.resolved);
    assert_eq!(app.factory().storage.active_markets, vec![first.clone(), second.clone()]);

    let events = app
        .execute_contract(
            "user",
            FactoryExecuteMsg::ResolveMarket { market: first.clone(), variant: 1, market_index: 1 },
            vec![],
        )
        .unwrap();
    assert_eq!(events, vec![Event::Resolution { market: first.clone() }]);
    assert!(app.get_info(&first, "user").information.resolved);
    assert_eq!(app.factory().storage.active_markets, vec![second.clone()]);
    assert_eq!(app.factory().storage.completed_markets, vec![first.clone()]);

    let lost = app.execute_contract(
        "user",
        FactoryExecuteMsg::Claim { market: first.clone(), variant: 0 },
        vec![],
    );
    assert_eq!(lost.unwrap_err(), ContractError::NotWinningOutcome);
    let nothing = app.execute_contract(
        "stranger",
        FactoryExecuteMsg::Claim { market: first.clone(), variant: 1 },
        vec![],
    );
    assert_eq!(nothing.unwrap_err(), ContractError::NothingToClaim);
    app.execute_contract(
        "user",
        FactoryExecuteMsg::Claim { market: first.clone(), variant: 1 },
        vec![],
    )
    .unwrap();
    assert_eq!(app.balance("user"), held_before + shares_out);
    assert_eq!(app.get_info(&first, "user").shares.yes_shares, 0);
}

#[test]
fn trade_statistics_test() {
    let mut app = mock_app();
    let market_address = funded_market(&mut app);
    let events = app
        .execute_contract(
            "user",
            FactoryExecuteMsg::PlaceOrder {
                market: market_address.clone(),
                variant: 1,
                buy_or_sell: 1,
                amount: 15_000_000u128,
            },
            coins(15_000_000, USDC_DENOM),
        )
        .unwrap();
    assert_eq!(
        events,
        vec![Event::Order {
            market: market_address.clone(),
            account: "user".to_string(),
            variant: 1,
            buy_or_sell: 1,
            price: 50_738_916,
            volume: 15_000_000,
            factory: FACTORY.to_string(),
        }]
    );
    let statistics = app.factory().storage.statistics;
    assert_eq!(statistics.volume, 15_000_000);
    assert_eq!(statistics.unique_wallets, 1);
    assert_eq!(app.balance(&market_address), 1_015_000_000);
    assert_eq!(app.balance("user"), 10_000_000_000 - 1_015_000_000);
    assert_eq!(app.get_info(&market_address, "fees").shares.yes_shares, 295_631);

    // a purchase without its payment fails as a whole
    let unpaid = app.execute_contract(
        "user",
        FactoryExecuteMsg::PlaceOrder {
            market: market_address.clone(),
            variant: 1,
            buy_or_sell: 1,
            amount: 15_000_000u128,
        },
        coins(14_999_999, USDC_DENOM),
    );
    assert_eq!(unpaid.unwrap_err(), ContractError::InvalidFunds);
    assert_eq!(app.balance("user"), 10_000_000_000 - 1_015_000_000);

    // an order that the market rejects leaves the registry as it was
    let too_large = app.execute_contract(
        "user",
        FactoryExecuteMsg::PlaceOrder {
            market: market_address.clone(),
            variant: 1,
            buy_or_sell: 1,
            amount: 100_000_000u128,
        },
        coins(100_000_000, USDC_DENOM),
    );
    assert_eq!(too_large.unwrap_err(), ContractError::PriceImpact);
    assert_eq!(app.balance("user"), 10_000_000_000 - 1_015_000_000);
    assert_eq!(app.factory().storage.statistics.volume, 15_000_000);
    assert_eq!(app.factory().storage.incentives.load(&"user".to_string()), Some(&10));
}
