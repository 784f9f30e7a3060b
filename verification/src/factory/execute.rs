use crate::book::{lookup, saved};
use crate::error::ContractError;
use crate::factory::state::{flag, flagged, Deps, StorageView};
use crate::host::{
    coins, sending, Coin, CoinView, Env, Event, EventView, Message, MessageInfo, MessageView, Reply,
    Response, ResponseView,
};
use crate::packages::factory::{media_list, Statistics, TempInformation, TempInformationView};
use crate::packages::market::{
    ExecuteMsg as MarketExecuteMsg, ExecuteMsgView as MarketExecuteMsgView, InformationView,
    InstantiateMsg as MarketInstantiateMsg, InstantiateMsgView as MarketInstantiateMsgView,
};
use crate::text::{clone_texts, texts};
use vstd::prelude::*;

verus! {

/// The number under which the registry is told where a market it created stands.
pub const INSTANTIATE_REPLY_ID: u64 = 1;

/// The points that an account earns with each order.
pub const ORDER_INCENTIVE: u64 = 10;

/// Why a market cannot be created, if it cannot.
pub open spec fn creation_rejection(
    pre: StorageView,
    now: u64,
    sender: Seq<char>,
    end_date: u64,
) -> Option<ContractError> {
    if end_date <= now {
        Some(ContractError::EndDateInPast)
    } else if !flagged(pre.admins_map, sender) {
        Some(ContractError::CreateNotPermitted)
    } else {
        None
    }
}

/// What the registry remembers of a market while it is created.
pub open spec fn pending(
    pre: StorageView,
    now: u64,
    registry: Seq<char>,
    sender: Seq<char>,
    title: Seq<char>,
    description: Seq<char>,
    end_date: u64,
    categories: Seq<Seq<char>>,
    media: Seq<Seq<char>>,
) -> TempInformationView {
    TempInformationView {
        information: InformationView {
            title,
            description,
            yes_price: 0,
            no_price: 0,
            yes_liquidity: 0,
            no_liquidity: 0,
            yes_shares: 0,
            no_shares: 0,
            market_created: now,
            market_end: end_date,
            categories,
            liquidity_shares: 0,
            usdc: pre.details.usdc,
            owner: sender,
            resolved: false,
            factory: registry,
            resolved_to: 0,
        },
        media,
    }
}

/// The instruction that creates a market.
pub open spec fn creation(
    pre: StorageView,
    registry: Seq<char>,
    sender: Seq<char>,
    title: Seq<char>,
    description: Seq<char>,
    end_date: u64,
    categories: Seq<Seq<char>>,
) -> MessageView {
    MessageView::Instantiate {
        code_id: pre.details.market_code_id,
        admin: registry,
        label: "market_contract"@,
        init_msg: MarketInstantiateMsgView {
            title,
            description,
            end_date,
            categories,
            usdc: pre.details.usdc,
            owner: sender,
            factory: registry,
        },
        reply_id: INSTANTIATE_REPLY_ID,
    }
}

/// Has a market created that ends at `end_date` and belongs to the caller, who must be an
/// admin. The registry remembers the market until it is told where it stands.
pub fn create_market(
    deps: &mut Deps,
    env: &Env,
    info: &MessageInfo,
    title: String,
    description: String,
    end_date: u64,
    categories: Vec<String>,
    media_: [String; 2],
) -> (r: Result<Response, ContractError>)
    ensures
        match creation_rejection(old(deps)@, env.block_time, info.sender@, end_date) {
            Some(e) => r == Err::<Response, ContractError>(e) && *final(deps) == *old(deps),
            None => r is Ok && r->Ok_0@ == sending(
                seq![
                    creation(
                        old(deps)@,
                        env.contract_address@,
                        info.sender@,
                        title@,
                        description@,
                        end_date,
                        texts(categories@),
                    ),
                ],
            ) && final(deps)@ == (StorageView {
                temp_information: Some(
                    pending(
                        old(deps)@,
                        env.block_time,
                        env.contract_address@,
                        info.sender@,
                        title@,
                        description@,
                        end_date,
                        texts(categories@),
                        texts(media_@),
                    ),
                ),
                ..old(deps)@
            }),
        },
{
    if end_date <= env.block_time {
        return Err(ContractError::EndDateInPast);
    }
    if !flag(&deps.storage.admins_map, &info.sender) {
        return Err(ContractError::CreateNotPermitted);
    }
    let remembered = TempInformation {
        title: title.clone(),
        description: description.clone(),
        yes_price: 0,
        no_price: 0,
        yes_liquidity: 0,
        no_liquidity: 0,
        yes_shares: 0,
        no_shares: 0,
        market_created: env.block_time,
        market_end: end_date,
        categories: clone_texts(&categories),
        liquidity_shares: 0,
        usdc: deps.storage.details.usdc.clone(),
        owner: info.sender.clone(),
        resolved: false,
        factory: env.contract_address.clone(),
        resolved_to: 0,
        media: media_list(&media_),
    };
    let instantiate_market = Message::Instantiate {
        code_id: deps.storage.details.market_code_id,
        admin: env.contract_address.clone(),
        label: "market_contract".to_string(),
        init_msg: MarketInstantiateMsg {
            title,
            description,
            end_date,
            categories,
            usdc: deps.storage.details.usdc.clone(),
            owner: info.sender.clone(),
            factory: env.contract_address.clone(),
        },
        reply_id: INSTANTIATE_REPLY_ID,
    };
    let response = Response::new().add_message(instantiate_market);
    proof {
        assert(response@.messages =~= seq![
            creation(
                deps@,
                env.contract_address@,
                info.sender@,
                title@,
                description@,
                end_date,
                texts(categories@),
            ),
        ]);
    }
    deps.storage.temp_information = Some(remembered);
    Ok(response)
}

/// Makes `account` an admin, on an admin's call.
pub fn add_admin(deps: &mut Deps, _env: &Env, info: &MessageInfo, account: String) -> (r: Result<
    Response,
    ContractError,
>)
    ensures
        if flagged(old(deps)@.admins_map, info.sender@) {
            r is Ok && r->Ok_0@ == sending(Seq::empty()) && final(deps)@ == (StorageView {
                admins_map: saved(old(deps)@.admins_map, account@, true),
                ..old(deps)@
            })
        } else {
            r == Err::<Response, ContractError>(ContractError::AddAdminNotPermitted) && *final(deps)
                == *old(deps)
        },
{
    if !flag(&deps.storage.admins_map, &info.sender) {
        return Err(ContractError::AddAdminNotPermitted);
    }
    deps.storage.admins_map.save(&account, true);
    Ok(Response::new())
}

/// Takes the admin's rights from `account`, on an admin's call.
pub fn remove_admin(deps: &mut Deps, _env: &Env, info: &MessageInfo, account: String) -> (r: Result<
    Response,
    ContractError,
>)
    ensures
        if flagged(old(deps)@.admins_map, info.sender@) {
            r is Ok && r->Ok_0@ == sending(Seq::empty()) && final(deps)@ == (StorageView {
                admins_map: saved(old(deps)@.admins_map, account@, false),
                ..old(deps)@
            })
        } else {
            r == Err::<Response, ContractError>(ContractError::RemoveAdminNotPermitted)
                && *final(deps) == *old(deps)
        },
{
    if !flag(&deps.storage.admins_map, &info.sender) {
        return Err(ContractError::RemoveAdminNotPermitted);
    }
    deps.storage.admins_map.save(&account, false);
    Ok(Response::new())
}

/// Why the registry hands no call on to `market`, if it does not.
pub open spec fn market_rejection(pre: StorageView, market: Seq<char>) -> Option<ContractError> {
    match lookup(pre.known_markets, market) {
        None => Some(ContractError::MarketNotFound),
        Some(known) => if known {
            None
        } else {
            Some(ContractError::IncorrectMarket)
        },
    }
}

/// Whether one of the coins is exactly `amount` of the currency `denom`.
pub open spec fn paid(funds: Seq<CoinView>, denom: Seq<char>, amount: u128) -> bool {
    exists|i: int|
        0 <= i < funds.len() && (#[trigger] funds[i]).denom == denom && funds[i].amount == amount
}

/// The response that hands a call on to a market, with the funds that go with it.
pub open spec fn forwarded(
    market: Seq<char>,
    msg: MarketExecuteMsgView,
    funds: Seq<CoinView>,
) -> ResponseView {
    sending(seq![MessageView::Market { contract_addr: market, msg, funds }])
}

/// Checks that the registry created the market.
fn check_market(deps: &Deps, market: &String) -> (r: Result<(), ContractError>)
    ensures
        match market_rejection(deps@, market@) {
            Some(e) => r == Err::<(), ContractError>(e),
            None => r is Ok,
        },
{
    match deps.storage.known_markets.load(market) {
        None => Err(ContractError::MarketNotFound),
        Some(known) => if *known {
            Ok(())
        } else {
            Err(ContractError::IncorrectMarket)
        },
    }
}

/// Whether one of the coins is exactly `amount` of the currency `denom`.
fn sent(funds: &Vec<Coin>, denom: &String, amount: u128) -> (r: bool)
    ensures
        r == paid(coins(funds@), denom@, amount),
{
    let mut i: usize = 0;
    while i < funds.len()
        invariant
            i <= funds.len(),
            forall|j: int|
                0 <= j < i ==> !((#[trigger] coins(funds@)[j]).denom == denom@ && coins(
                    funds@,
                )[j].amount == amount),
        decreases funds.len() - i,
    {
        if funds[i].denom == *denom && funds[i].amount == amount {
            assert(coins(funds@)[i as int].denom == denom@);
            return true;
        }
        i = i + 1;
    }
    false
}

/// The response that hands a call on to a market.
fn forward(market: String, msg: MarketExecuteMsg, funds: Vec<Coin>) -> (r: Response)
    ensures
        r@ == forwarded(market@, msg@, coins(funds@)),
{
    let r = Response::new().add_message(Message::Market { contract_addr: market, msg, funds });
    assert(r@.messages =~= forwarded(market@, msg@, coins(funds@)).messages);
    r
}

/// The funds that go with a deposit: `amount` of the currency `denom`.
fn payment(denom: &String, amount: u128) -> (r: Vec<Coin>)
    ensures
        coins(r@) == seq![CoinView { denom: denom@, amount }],
{
    let r = vec![Coin { denom: denom.clone(), amount }];
    assert(coins(r@) =~= seq![CoinView { denom: denom@, amount }]);
    r
}

/// No funds.
fn nothing() -> (r: Vec<Coin>)
    ensures
        coins(r@) == Seq::<CoinView>::empty(),
{
    let r: Vec<Coin> = Vec::new();
    assert(coins(r@) =~= Seq::<CoinView>::empty());
    r
}

/// Hands a bootstrap on to `market` in the caller's name, with the deposit that the caller
/// sent.
pub fn initialize_liquidity(
    deps: &Deps,
    _env: &Env,
    _info: &MessageInfo,
    market: String,
    yes_price: u128,
    liquidity: u128,
) -> (r: Result<Response, ContractError>)
    ensures
        match market_rejection(deps@, market@) {
            Some(e) => r == Err::<Response, ContractError>(e),
            None => if paid(coins(_info.funds@), deps@.details.usdc, liquidity) {
                r is Ok && r->Ok_0@ == forwarded(
                    market@,
                    MarketExecuteMsgView::InitializeLiquidity {
                        yes_price,
                        liquidity,
                        receiver: _info.sender@,
                    },
                    seq![CoinView { denom: deps@.details.usdc, amount: liquidity }],
                )
            } else {
                r == Err::<Response, ContractError>(ContractError::InvalidFunds)
            },
        },
{
    match check_market(deps, &market) {
        Err(e) => {
            return Err(e);
        },
        Ok(_) => {},
    }
    if !sent(&_info.funds, &deps.storage.details.usdc, liquidity) {
        return Err(ContractError::InvalidFunds);
    }
    Ok(
        forward(
            market,
            MarketExecuteMsg::InitializeLiquidity {
                yes_price,
                liquidity,
                receiver: _info.sender.clone(),
            },
            payment(&deps.storage.details.usdc, liquidity),
        ),
    )
}

/// Hands a deposit on to `market` in the caller's name, with the funds that the caller
/// sent.
pub fn add_liquidity(
    deps: &Deps,
    _env: &Env,
    _info: &MessageInfo,
    market: String,
    amount: u128,
) -> (r: Result<Response, ContractError>)
    ensures
        match market_rejection(deps@, market@) {
            Some(e) => r == Err::<Response, ContractError>(e),
            None => if paid(coins(_info.funds@), deps@.details.usdc, amount) {
                r is Ok && r->Ok_0@ == forwarded(
                    market@,
                    MarketExecuteMsgView::AddLiquidity { amount, receiver: _info.sender@ },
                    seq![CoinView { denom: deps@.details.usdc, amount }],
                )
            } else {
                r == Err::<Response, ContractError>(ContractError::InvalidFunds)
            },
        },
{
    match check_market(deps, &market) {
        Err(e) => {
            return Err(e);
        },
        Ok(_) => {},
    }
    if !sent(&_info.funds, &deps.storage.details.usdc, amount) {
        return Err(ContractError::InvalidFunds);
    }
    Ok(
        forward(
            market,
            MarketExecuteMsg::AddLiquidity { amount, receiver: _info.sender.clone() },
            payment(&deps.storage.details.usdc, amount),
        ),
    )
}

/// Hands a withdrawal on to `market` in the caller's name.
pub fn remove_liquidity(
    deps: &Deps,
    _env: &Env,
    _info: &MessageInfo,
    market: String,
    shares: u128,
) -> (r: Result<Response, ContractError>)
    ensures
        match market_rejection(deps@, market@) {
            Some(e) => r == Err::<Response, ContractError>(e),
            None => r is Ok && r->Ok_0@ == forwarded(
                market@,
                MarketExecuteMsgView::RemoveLiquidity { shares, receiver: _info.sender@ },
                Seq::empty(),
            ),
        },
{
    match check_market(deps, &market) {
        Err(e) => {
            return Err(e);
        },
        Ok(_) => {},
    }
    Ok(
        forward(
            market,
            MarketExecuteMsg::RemoveLiquidity { shares, receiver: _info.sender.clone() },
            nothing(),
        ),
    )
}

/// Hands a claim on to `market` in the caller's name.
pub fn claim(
    deps: &Deps,
    _env: &Env,
    _info: &MessageInfo,
    market: String,
    variant: u128,
) -> (r: Result<Response, ContractError>)
    ensures
        match market_rejection(deps@, market@) {
            Some(e) => r == Err::<Response, ContractError>(e),
            None => r is Ok && r->Ok_0@ == forwarded(
                market@,
                MarketExecuteMsgView::Claim { variant, receiver: _info.sender@ },
                Seq::empty(),
            ),
        },
{
    match check_market(deps, &market) {
        Err(e) => {
            return Err(e);
        },
        Ok(_) => {},
    }
    Ok(
        forward(
            market,
            MarketExecuteMsg::Claim { variant, receiver: _info.sender.clone() },
            nothing(),
        ),
    )
}

/// Hands a resolution on to `market` in the caller's name. `market_index` is the position
/// at which the registry lists the market among the active ones.
pub fn resolve_market(
    deps: &Deps,
    _env: &Env,
    _info: &MessageInfo,
    market: String,
    variant: u128,
    market_index: u128,
) -> (r: Result<Response, ContractError>)
    ensures
        match market_rejection(deps@, market@) {
            Some(e) => r == Err::<Response, ContractError>(e),
            None => r is Ok && r->Ok_0@ == forwarded(
                market@,
                MarketExecuteMsgView::ResolveMarket {
                    variant,
                    receiver: _info.sender@,
                    market_index,
                },
                Seq::empty(),
            ),
        },
{
    match check_market(deps, &market) {
        Err(e) => {
            return Err(e);
        },
        Ok(_) => {},
    }
    Ok(
        forward(
            market,
            MarketExecuteMsg::ResolveMarket {
                variant,
                receiver: _info.sender.clone(),
                market_index,
            },
            nothing(),
        ),
    )
}

/// The points an account has: none, if it never placed an order.
pub open spec fn points(pre: StorageView, account: Seq<char>) -> u64 {
    match lookup(pre.incentives, account) {
        Some(p) => p,
        None => 0,
    }
}

/// Why the registry hands no order on, if it does not. A purchase comes with its payment.
pub open spec fn order_rejection(
    pre: StorageView,
    sender: Seq<char>,
    funds: Seq<CoinView>,
    market: Seq<char>,
    buy_or_sell: u128,
    amount: u128,
) -> Option<ContractError> {
    if market_rejection(pre, market) is Some {
        market_rejection(pre, market)
    } else if buy_or_sell == 1 && !paid(funds, pre.details.usdc, amount) {
        Some(ContractError::InvalidFunds)
    } else if points(pre, sender) + ORDER_INCENTIVE > u64::MAX {
        Some(ContractError::Overflow)
    } else {
        None
    }
}

/// Hands an order on to `market` in the caller's name, a purchase with the payment that
/// the caller sent, and credits the caller with incentive points.
pub fn place_order(
    deps: &mut Deps,
    _env: &Env,
    _info: &MessageInfo,
    market: String,
    variant: u128,
    buy_or_sell: u128,
    amount: u128,
) -> (r: Result<Response, ContractError>)
    ensures
        match order_rejection(
            old(deps)@,
            _info.sender@,
            coins(_info.funds@),
            market@,
            buy_or_sell,
            amount,
        ) {
            Some(e) => r == Err::<Response, ContractError>(e) && *final(deps) == *old(deps),
            None => r is Ok && r->Ok_0@ == forwarded(
                market@,
                MarketExecuteMsgView::PlaceOrder {
                    variant,
                    buy_or_sell,
                    amount,
                    receiver: _info.sender@,
                },
                if buy_or_sell == 1 {
                    seq![CoinView { denom: old(deps)@.details.usdc, amount }]
                } else {
                    Seq::empty()
                },
            ) && final(deps)@ == (StorageView {
                incentives: saved(
                    old(deps)@.incentives,
                    _info.sender@,
                    (points(old(deps)@, _info.sender@) + ORDER_INCENTIVE) as u64,
                ),
                ..old(deps)@
            }),
        },
{
    match check_market(&*deps, &market) {
        Err(e) => {
            return Err(e);
        },
        Ok(_) => {},
    }
    let funds = if buy_or_sell == 1 {
        if !sent(&_info.funds, &deps.storage.details.usdc, amount) {
            return Err(ContractError::InvalidFunds);
        }
        payment(&deps.storage.details.usdc, amount)
    } else {
        nothing()
    };
    let incentives = match deps.storage.incentives.load(&_info.sender) {
        Some(p) => *p,
        None => 0,
    };
    let credited = match incentives.checked_add(ORDER_INCENTIVE) {
        Some(v) => v,
        None => {
            return Err(ContractError::Overflow);
        },
    };
    let response = forward(
        market,
        MarketExecuteMsg::PlaceOrder {
            variant,
            buy_or_sell,
            amount,
            receiver: _info.sender.clone(),
        },
        funds,
    );
    deps.storage.incentives.save(&_info.sender, credited);
    Ok(response)
}

/// The volume that the registry has on record for a market.
pub open spec fn volume_of(pre: StorageView, market: Seq<char>) -> u128 {
    match lookup(pre.volumes, market) {
        Some(v) => v,
        None => 0,
    }
}

/// The list without the item at `at`: the last item takes its place.
pub open spec fn swap_removed(list: Seq<Seq<char>>, at: int) -> Seq<Seq<char>> {
    list.update(at, list.last()).drop_last()
}

/// Whether `index`, counted from 1, is where the list of active markets names `market`.
pub open spec fn listed_at(pre: StorageView, index: u128, market: Seq<char>) -> bool {
    1 <= index <= pre.active_markets.len() && pre.active_markets[index - 1] == market
}

/// Why a report is rejected, if it is. Only markets of this registry report. A report on
/// a trade holds the outcome, the side and the price, one on a resolution the position of
/// the market among the active ones.
pub open spec fn report_rejection(
    pre: StorageView,
    sender: Seq<char>,
    amount: u128,
    account: Seq<char>,
    stat_type: Seq<char>,
    data: Seq<u128>,
) -> Option<ContractError> {
    if !flagged(pre.known_markets, sender) {
        Some(ContractError::UnknownCaller)
    } else if stat_type == "volume"@ {
        if volume_of(pre, sender) + amount > u128::MAX || pre.statistics.volume + amount
            > u128::MAX || (!flagged(pre.unique_wallets, account) && pre.statistics.unique_wallets
            + 1 > u128::MAX) {
            Some(ContractError::Overflow)
        } else if data.len() < 3 {
            Some(ContractError::MissingData)
        } else {
            None
        }
    } else if stat_type == "resolve"@ {
        if pre.statistics.completed_events + 1 > u128::MAX {
            Some(ContractError::Overflow)
        } else if data.len() < 1 {
            Some(ContractError::MissingData)
        } else if !listed_at(pre, data[0], sender) {
            Some(ContractError::MarketIndexMismatch)
        } else if pre.statistics.active_events == 0 {
            Some(ContractError::Overflow)
        } else {
            None
        }
    } else {
        None
    }
}

/// The registry after a report that was not rejected. A trade adds to the market's volume
/// and to the volume of all markets, and its trader is counted if new. A resolution moves
/// the market from the active to the completed ones. Any other report changes nothing.
pub open spec fn reported(
    pre: StorageView,
    sender: Seq<char>,
    amount: u128,
    account: Seq<char>,
    stat_type: Seq<char>,
    data: Seq<u128>,
) -> StorageView {
    if stat_type == "volume"@ {
        StorageView {
            volumes: saved(pre.volumes, sender, (volume_of(pre, sender) + amount) as u128),
            unique_wallets: if flagged(pre.unique_wallets, account) {
                pre.unique_wallets
            } else {
                saved(pre.unique_wallets, account, true)
            },
            statistics: Statistics {
                volume: (pre.statistics.volume + amount) as u128,
                unique_wallets: if flagged(pre.unique_wallets, account) {
                    pre.statistics.unique_wallets
                } else {
                    (pre.statistics.unique_wallets + 1) as u128
                },
                ..pre.statistics
            },
            ..pre
        }
    } else if stat_type == "resolve"@ {
        StorageView {
            active_markets: swap_removed(pre.active_markets, data[0] - 1),
            completed_markets: pre.completed_markets.push(sender),
            statistics: Statistics {
                active_events: (pre.statistics.active_events - 1) as u128,
                completed_events: (pre.statistics.completed_events + 1) as u128,
                ..pre.statistics
            },
            ..pre
        }
    } else {
        pre
    }
}

/// What a report that was not rejected makes known.
pub open spec fn report_events(
    registry: Seq<char>,
    sender: Seq<char>,
    amount: u128,
    account: Seq<char>,
    stat_type: Seq<char>,
    data: Seq<u128>,
) -> Seq<EventView> {
    if stat_type == "volume"@ {
        seq![
            EventView::Order {
                market: sender,
                account,
                variant: data[0],
                buy_or_sell: data[1],
                price: data[2],
                volume: amount,
                factory: registry,
            },
        ]
    } else if stat_type == "resolve"@ {
        seq![EventView::Resolution { market: sender }]
    } else {
        Seq::empty()
    }
}

/// Takes the item at `at` out of the list: the last item takes its place.
fn swap_remove(list: &mut Vec<String>, at: usize)
    requires
        at < old(list)@.len(),
    ensures
        texts(final(list)@) == swap_removed(texts(old(list)@), at as int),
{
    let last = list[list.len() - 1].clone();
    list.set(at, last);
    list.pop();
    assert(texts(list@) =~= swap_removed(texts(old(list)@), at as int));
}

/// Adds an item at the end of the list.
fn append(list: &mut Vec<String>, item: String)
    ensures
        texts(final(list)@) == texts(old(list)@).push(item@),
{
    list.push(item);
    assert(texts(list@) =~= texts(old(list)@).push(item@));
}

/// Takes a market's report on a trade (`stat_type` "volume") or on its resolution
/// ("resolve") into the statistics.
pub fn record_stats(
    deps: &mut Deps,
    env: &Env,
    info: &MessageInfo,
    amount: u128,
    account: String,
    stat_type: String,
    data: Vec<u128>,
) -> (r: Result<Response, ContractError>)
    ensures
        match report_rejection(old(deps)@, info.sender@, amount, account@, stat_type@, data@) {
            Some(e) => r == Err::<Response, ContractError>(e) && *final(deps) == *old(deps),
            None => r is Ok && r->Ok_0@ == (ResponseView {
                messages: Seq::empty(),
                events: report_events(
                    env.contract_address@,
                    info.sender@,
                    amount,
                    account@,
                    stat_type@,
                    data@,
                ),
            }) && final(deps)@ == reported(
                old(deps)@,
                info.sender@,
                amount,
                account@,
                stat_type@,
                data@,
            ),
        },
{
    if !flag(&deps.storage.known_markets, &info.sender) {
        return Err(ContractError::UnknownCaller);
    }
    if stat_type == "volume".to_string() {
        let volume = match deps.storage.volumes.load(&info.sender) {
            Some(v) => *v,
            None => 0,
        };
        let market_volume = match volume.checked_add(amount) {
            Some(v) => v,
            None => {
                return Err(ContractError::Overflow);
            },
        };
        let total_volume = match deps.storage.statistics.volume.checked_add(amount) {
            Some(v) => v,
            None => {
                return Err(ContractError::Overflow);
            },
        };
        let seen = flag(&deps.storage.unique_wallets, &account);
        let wallets = if seen {
            deps.storage.statistics.unique_wallets
        } else {
            match deps.storage.statistics.unique_wallets.checked_add(1) {
                Some(v) => v,
                None => {
                    return Err(ContractError::Overflow);
                },
            }
        };
        if data.len() < 3 {
            return Err(ContractError::MissingData);
        }
        let event = Event::Order {
            market: info.sender.clone(),
            account: account.clone(),
            variant: data[0],
            buy_or_sell: data[1],
            price: data[2],
            volume: amount,
            factory: env.contract_address.clone(),
        };
        deps.storage.volumes.save(&info.sender, market_volume);
        deps.storage.statistics.volume = total_volume;
        if !seen {
            deps.storage.unique_wallets.save(&account, true);
            deps.storage.statistics.unique_wallets = wallets;
        }
        let response = Response::new().add_event(event);
        proof {
            assert(response@.events =~= report_events(
                env.contract_address@,
                info.sender@,
                amount,
                account@,
                stat_type@,
                data@,
            ));
        }
        Ok(response)
    } else if stat_type == "resolve".to_string() {
        let completed = match deps.storage.statistics.completed_events.checked_add(1) {
            Some(v) => v,
            None => {
                return Err(ContractError::Overflow);
            },
        };
        if data.len() < 1 {
            return Err(ContractError::MissingData);
        }
        let index = data[0];
        let listed = deps.storage.active_markets.len();
        if index < 1 || index > listed as u128 {
            return Err(ContractError::MarketIndexMismatch);
        }
        let at = (index - 1) as usize;
        if deps.storage.active_markets[at] != info.sender {
            return Err(ContractError::MarketIndexMismatch);
        }
        if deps.storage.statistics.active_events == 0 {
            return Err(ContractError::Overflow);
        }
        let event = Event::Resolution { market: info.sender.clone() };
        swap_remove(&mut deps.storage.active_markets, at);
        append(&mut deps.storage.completed_markets, info.sender.clone());
        deps.storage.statistics.active_events = deps.storage.statistics.active_events - 1;
        deps.storage.statistics.completed_events = completed;
        let response = Response::new().add_event(event);
        proof {
            assert(response@.events =~= report_events(
                env.contract_address@,
                info.sender@,
                amount,
                account@,
                stat_type@,
                data@,
            ));
        }
        Ok(response)
    } else {
        Ok(Response::new())
    }
}

/// The address that `cw0::parse_instantiate_response_data` reads out of the data that the
/// creation of a contract gave back, if it reads one.
pub uninterp spec fn instantiate_address(data: Seq<u8>) -> Option<Seq<char>>;

/// The text of a string that may be missing.
pub open spec fn text_of(s: Option<String>) -> Option<Seq<char>> {
    match s {
        Some(s) => Some(s@),
        None => None,
    }
}

/// Calls `cw0::parse_instantiate_response_data` on the data that the creation of a contract
/// gave back. The contract claims that the address it yields depends on the data alone;
/// `None` stands for data that the parser refuses.
#[verifier::external_body]
fn parse_instantiate_address(data: &Vec<u8>) -> (r: Option<String>)
    ensures
        text_of(r) == instantiate_address(data@),
{
    match cw0::parse_instantiate_response_data(data.as_slice()) {
        Ok(response) => Some(response.contract_address),
        Err(_) => None,
    }
}

/// Why a market cannot be registered, if it cannot.
pub open spec fn registration_rejection(pre: StorageView) -> Option<ContractError> {
    if pre.temp_information is None {
        Some(ContractError::NothingPending)
    } else if pre.statistics.total_pools + 1 > u128::MAX || pre.statistics.active_events + 1
        > u128::MAX {
        Some(ContractError::Overflow)
    } else {
        None
    }
}

/// The registry after the market that was being created is registered at `address`: it is
/// known, listed last among all markets and among the active ones, and has its media.
pub open spec fn registered(pre: StorageView, address: Seq<char>) -> StorageView {
    StorageView {
        statistics: Statistics {
            total_pools: (pre.statistics.total_pools + 1) as u128,
            active_events: (pre.statistics.active_events + 1) as u128,
            ..pre.statistics
        },
        known_markets: saved(pre.known_markets, address, true),
        active_markets: pre.active_markets.push(address),
        markets: pre.markets.push(address),
        media: saved(pre.media, address, pre.temp_information->0.media),
        ..pre
    }
}

/// Registers the market that was being created at the address where it stands.
pub fn register_market(deps: &mut Deps, contract_address: String) -> (r: Result<
    Response,
    ContractError,
>)
    ensures
        match registration_rejection(old(deps)@) {
            Some(e) => r == Err::<Response, ContractError>(e) && *final(deps) == *old(deps),
            None => r is Ok && r->Ok_0@ == (ResponseView {
                messages: Seq::empty(),
                events: seq![EventView::Created { contract_address: contract_address@ }],
            }) && final(deps)@ == registered(old(deps)@, contract_address@),
        },
{
    let media = match &deps.storage.temp_information {
        Some(t) => clone_texts(&t.media),
        None => {
            return Err(ContractError::NothingPending);
        },
    };
    let total_pools = match deps.storage.statistics.total_pools.checked_add(1) {
        Some(v) => v,
        None => {
            return Err(ContractError::Overflow);
        },
    };
    let active_events = match deps.storage.statistics.active_events.checked_add(1) {
        Some(v) => v,
        None => {
            return Err(ContractError::Overflow);
        },
    };
    proof {
        assert(media.deep_view() =~= texts(media@));
    }
    deps.storage.statistics.total_pools = total_pools;
    deps.storage.statistics.active_events = active_events;
    deps.storage.known_markets.save(&contract_address, true);
    append(&mut deps.storage.active_markets, contract_address.clone());
    append(&mut deps.storage.markets, contract_address.clone());
    deps.storage.media.save(&contract_address, media);
    let response = Response::new().add_event(Event::Created { contract_address });
    proof {
        assert(response@.events =~= seq![
            EventView::Created { contract_address: contract_address@ },
        ]);
    }
    Ok(response)
}

/// The address that a reply on the creation of a market tells, if it tells one: the
/// creation succeeded and gave back data that names the address.
pub open spec fn reply_address(msg: Reply) -> Option<Seq<char>> {
    match msg.result {
        Ok(Some(data)) => instantiate_address(data@),
        _ => None,
    }
}

/// Why a reply on the creation of a market is rejected, if it is.
pub open spec fn reply_rejection(pre: StorageView, msg: Reply) -> Option<ContractError> {
    if pre.temp_information is None {
        Some(ContractError::NothingPending)
    } else if reply_address(msg) is None {
        Some(ContractError::InvalidReply)
    } else {
        registration_rejection(pre)
    }
}

/// Takes the reply on the creation of a market: registers the market at the address that
/// the reply tells.
pub fn instantiate_reply(deps: &mut Deps, _env: &Env, msg: Reply) -> (r: Result<
    Response,
    ContractError,
>)
    ensures
        match reply_rejection(old(deps)@, msg) {
            Some(e) => r == Err::<Response, ContractError>(e) && *final(deps) == *old(deps),
            None => r is Ok && r->Ok_0@ == (ResponseView {
                messages: Seq::empty(),
                events: seq![EventView::Created { contract_address: reply_address(msg)->0 }],
            }) && final(deps)@ == registered(old(deps)@, reply_address(msg)->0),
        },
{
    if deps.storage.temp_information.is_none() {
        return Err(ContractError::NothingPending);
    }
    let parsed = match &msg.result {
        Ok(Some(data)) => parse_instantiate_address(data),
        _ => None,
    };
    match parsed {
        Some(contract_address) => register_market(deps, contract_address),
        None => Err(ContractError::InvalidReply),
    }
}

/// Takes a reply. Only the reply on the creation of a market means anything.
pub fn reply(deps: &mut Deps, env: &Env, msg: Reply) -> (r: Result<Response, ContractError>)
    ensures
        if msg.id == INSTANTIATE_REPLY_ID {
            match reply_rejection(old(deps)@, msg) {
                Some(e) => r == Err::<Response, ContractError>(e) && *final(deps) == *old(deps),
                None => r is Ok && r->Ok_0@ == (ResponseView {
                    messages: Seq::empty(),
                    events: seq![EventView::Created { contract_address: reply_address(msg)->0 }],
                }) && final(deps)@ == registered(old(deps)@, reply_address(msg)->0),
            }
        } else {
            r is Ok && r->Ok_0@ == sending(Seq::empty()) && *final(deps) == *old(deps)
        },
{
    if msg.id == INSTANTIATE_REPLY_ID {
        instantiate_reply(deps, env, msg)
    } else {
        Ok(Response::new())
    }
}

} // verus!
