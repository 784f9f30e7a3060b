use crate::book::{lookup, saved, Book, EntryView};
use crate::error::ContractError;
use crate::factory::execute::{
    add_admin, add_liquidity, claim, create_market, creation, creation_rejection, forwarded,
    initialize_liquidity, market_rejection, order_rejection, paid, pending, place_order, points,
    record_stats, remove_admin, remove_liquidity, report_events, report_rejection, reported,
    resolve_market, volume_of, ORDER_INCENTIVE,
};
use crate::factory::query::{
    fees_address, fetch_markets, get_details, get_incentives, get_market_info, get_statistics,
    is_admin, list_of, listed_contracts, listed_indexes, media_of, MarketInfoView,
};
use crate::factory::state::{counted, flagged, Deps, Storage, StorageView};
use crate::host::{coins, sending, CoinView, Env, MessageInfo, Response, ResponseView};
use crate::packages::factory::{
    Details, DetailsView, ExecuteMsg, InstantiateMsg, MarketInfo, MarketList, QueryMsg, Statistics,
};
use crate::packages::market::{Data, ExecuteMsgView as MarketExecuteMsgView, Quote};
use crate::pagination::page_rejection;
use crate::text::texts;
use vstd::prelude::*;

verus! {

/// A registry right after its creation: it has no markets and has counted nothing, and
/// its creator is its only admin.
pub fn instantiate(_env: &Env, info: &MessageInfo, msg: InstantiateMsg) -> (r: Storage)
    ensures
        r@ == (StorageView {
            details: DetailsView {
                usdc: msg.usdc@,
                fees_address: msg.fees_address@,
                market_code_id: msg.market_code_id,
            },
            statistics: Statistics {
                volume: 0,
                total_pools: 0,
                unique_wallets: 0,
                active_events: 0,
                completed_events: 0,
            },
            temp_information: None,
            markets: Seq::empty(),
            active_markets: Seq::empty(),
            completed_markets: Seq::empty(),
            known_markets: Seq::empty(),
            volumes: Seq::empty(),
            unique_wallets: Seq::empty(),
            media: Seq::empty(),
            admins_map: saved(Seq::<EntryView<bool>>::empty(), info.sender@, true),
            incentives: Seq::empty(),
        }),
        counted(r@),
{
    let details = Details {
        usdc: msg.usdc,
        fees_address: msg.fees_address,
        market_code_id: msg.market_code_id,
    };
    let statistics = Statistics {
        volume: 0,
        total_pools: 0,
        unique_wallets: 0,
        active_events: 0,
        completed_events: 0,
    };
    let mut admins_map: Book<bool> = Book::new();
    admins_map.save(&info.sender, true);
    let r = Storage {
        details,
        statistics,
        temp_information: None,
        markets: Vec::new(),
        active_markets: Vec::new(),
        completed_markets: Vec::new(),
        known_markets: Book::new(),
        volumes: Book::new(),
        unique_wallets: Book::new(),
        media: Book::new(),
        admins_map,
        incentives: Book::new(),
    };
    assert(r@.markets =~= Seq::<Seq<char>>::empty());
    assert(r@.active_markets =~= Seq::<Seq<char>>::empty());
    assert(r@.completed_markets =~= Seq::<Seq<char>>::empty());
    r
}

/// Why a call is rejected, if it is.
pub open spec fn rejection(
    pre: StorageView,
    now: u64,
    sender: Seq<char>,
    funds: Seq<CoinView>,
    msg: ExecuteMsg,
) -> Option<ContractError> {
    match msg {
        ExecuteMsg::CreateMarket { title, description, end_date, categories, media } => creation_rejection(
            pre,
            now,
            sender,
            end_date,
        ),
        ExecuteMsg::RecordStats { amount, account, stat_type, data } => report_rejection(
            pre,
            sender,
            amount,
            account@,
            stat_type@,
            data@,
        ),
        ExecuteMsg::AddAdmin { account } => if flagged(pre.admins_map, sender) {
            None
        } else {
            Some(ContractError::AddAdminNotPermitted)
        },
        ExecuteMsg::RemoveAdmin { account } => if flagged(pre.admins_map, sender) {
            None
        } else {
            Some(ContractError::RemoveAdminNotPermitted)
        },
        ExecuteMsg::InitializeLiquidity { market, yes_price, liquidity } => if market_rejection(
            pre,
            market@,
        ) is Some {
            market_rejection(pre, market@)
        } else if !paid(funds, pre.details.usdc, liquidity) {
            Some(ContractError::InvalidFunds)
        } else {
            None
        },
        ExecuteMsg::AddLiquidity { market, amount } => if market_rejection(pre, market@) is Some {
            market_rejection(pre, market@)
        } else if !paid(funds, pre.details.usdc, amount) {
            Some(ContractError::InvalidFunds)
        } else {
            None
        },
        ExecuteMsg::RemoveLiquidity { market, shares } => market_rejection(pre, market@),
        ExecuteMsg::Claim { market, variant } => market_rejection(pre, market@),
        ExecuteMsg::ResolveMarket { market, variant, market_index } => market_rejection(
            pre,
            market@,
        ),
        ExecuteMsg::PlaceOrder { market, variant, buy_or_sell, amount } => order_rejection(
            pre,
            sender,
            funds,
            market@,
            buy_or_sell,
            amount,
        ),
    }
}

/// The registry after a call that was not rejected.
pub open spec fn outcome(
    pre: StorageView,
    now: u64,
    registry: Seq<char>,
    sender: Seq<char>,
    msg: ExecuteMsg,
) -> StorageView {
    match msg {
        ExecuteMsg::CreateMarket { title, description, end_date, categories, media } => StorageView {
            temp_information: Some(
                pending(
                    pre,
                    now,
                    registry,
                    sender,
                    title@,
                    description@,
                    end_date,
                    texts(categories@),
                    texts(media@),
                ),
            ),
            ..pre
        },
        ExecuteMsg::RecordStats { amount, account, stat_type, data } => reported(
            pre,
            sender,
            amount,
            account@,
            stat_type@,
            data@,
        ),
        ExecuteMsg::AddAdmin { account } => StorageView {
            admins_map: saved(pre.admins_map, account@, true),
            ..pre
        },
        ExecuteMsg::RemoveAdmin { account } => StorageView {
            admins_map: saved(pre.admins_map, account@, false),
            ..pre
        },
        ExecuteMsg::PlaceOrder { market, variant, buy_or_sell, amount } => StorageView {
            incentives: saved(
                pre.incentives,
                sender,
                (points(pre, sender) + ORDER_INCENTIVE) as u64,
            ),
            ..pre
        },
        _ => pre,
    }
}

/// What a call that was not rejected hands back.
pub open spec fn answer(
    pre: StorageView,
    registry: Seq<char>,
    sender: Seq<char>,
    msg: ExecuteMsg,
) -> ResponseView {
    match msg {
        ExecuteMsg::CreateMarket { title, description, end_date, categories, media } => sending(
            seq![
                creation(pre, registry, sender, title@, description@, end_date, texts(categories@)),
            ],
        ),
        ExecuteMsg::RecordStats { amount, account, stat_type, data } => ResponseView {
            messages: Seq::empty(),
            events: report_events(registry, sender, amount, account@, stat_type@, data@),
        },
        ExecuteMsg::AddAdmin { account } => sending(Seq::empty()),
        ExecuteMsg::RemoveAdmin { account } => sending(Seq::empty()),
        ExecuteMsg::InitializeLiquidity { market, yes_price, liquidity } => forwarded(
            market@,
            MarketExecuteMsgView::InitializeLiquidity { yes_price, liquidity, receiver: sender },
            seq![CoinView { denom: pre.details.usdc, amount: liquidity }],
        ),
        ExecuteMsg::AddLiquidity { market, amount } => forwarded(
            market@,
            MarketExecuteMsgView::AddLiquidity { amount, receiver: sender },
            seq![CoinView { denom: pre.details.usdc, amount }],
        ),
        ExecuteMsg::RemoveLiquidity { market, shares } => forwarded(
            market@,
            MarketExecuteMsgView::RemoveLiquidity { shares, receiver: sender },
            Seq::empty(),
        ),
        ExecuteMsg::Claim { market, variant } => forwarded(
            market@,
            MarketExecuteMsgView::Claim { variant, receiver: sender },
            Seq::empty(),
        ),
        ExecuteMsg::ResolveMarket { market, variant, market_index } => forwarded(
            market@,
            MarketExecuteMsgView::ResolveMarket { variant, receiver: sender, market_index },
            Seq::empty(),
        ),
        ExecuteMsg::PlaceOrder { market, variant, buy_or_sell, amount } => forwarded(
            market@,
            MarketExecuteMsgView::PlaceOrder { variant, buy_or_sell, amount, receiver: sender },
            if buy_or_sell == 1 {
                seq![CoinView { denom: pre.details.usdc, amount }]
            } else {
                Seq::empty()
            },
        ),
    }
}

/// Carries out one call. A call that is rejected changes nothing.
pub fn execute(deps: &mut Deps, env: &Env, info: &MessageInfo, msg: ExecuteMsg) -> (r: Result<
    Response,
    ContractError,
>)
    ensures
        match rejection(old(deps)@, env.block_time, info.sender@, coins(info.funds@), msg) {
            Some(e) => r == Err::<Response, ContractError>(e) && *final(deps) == *old(deps),
            None => r is Ok && r->Ok_0@ == answer(
                old(deps)@,
                env.contract_address@,
                info.sender@,
                msg,
            ) && final(deps)@ == outcome(
                old(deps)@,
                env.block_time,
                env.contract_address@,
                info.sender@,
                msg,
            ),
        },
{
    match msg {
        ExecuteMsg::CreateMarket { title, description, end_date, categories, media } => create_market(
            deps,
            env,
            info,
            title,
            description,
            end_date,
            categories,
            media,
        ),
        ExecuteMsg::RecordStats { amount, account, stat_type, data } => record_stats(
            deps,
            env,
            info,
            amount,
            account,
            stat_type,
            data,
        ),
        ExecuteMsg::AddAdmin { account } => add_admin(deps, env, info, account),
        ExecuteMsg::RemoveAdmin { account } => remove_admin(deps, env, info, account),
        ExecuteMsg::InitializeLiquidity { market, yes_price, liquidity } => initialize_liquidity(
            &*deps,
            env,
            info,
            market,
            yes_price,
            liquidity,
        ),
        ExecuteMsg::AddLiquidity { market, amount } => add_liquidity(
            &*deps,
            env,
            info,
            market,
            amount,
        ),
        ExecuteMsg::RemoveLiquidity { market, shares } => remove_liquidity(
            &*deps,
            env,
            info,
            market,
            shares,
        ),
        ExecuteMsg::Claim { market, variant } => claim(&*deps, env, info, market, variant),
        ExecuteMsg::ResolveMarket { market, variant, market_index } => resolve_market(
            &*deps,
            env,
            info,
            market,
            variant,
            market_index,
        ),
        ExecuteMsg::PlaceOrder { market, variant, buy_or_sell, amount } => place_order(
            deps,
            env,
            info,
            market,
            variant,
            buy_or_sell,
            amount,
        ),
    }
}

/// What a market answered to the question that the registry hands on to it.
#[derive(Debug)]
pub enum MarketAnswer {
    Info(Data),
    Quote(Quote),
}

/// An answer of the registry.
#[derive(Debug)]
pub enum QueryResponse {
    MarketInfo(MarketInfo),
    Statistics(Statistics),
    Markets(MarketList),
    Details(Details),
    FeesAddress(String),
    Quote(Quote),
    IsAdmin(bool),
    Incentives(u64),
}

/// Answers one question. Nothing is changed. What is asked about a market's own state is
/// answered with what the market said: `answer` holds it, or nothing if the market gave no
/// answer of the kind that was asked for. A list of markets tells where the markets stand;
/// their records are the markets' own to give.
pub fn query(deps: &Deps, env: &Env, msg: QueryMsg, answer: Option<MarketAnswer>) -> (r: Result<
    QueryResponse,
    ContractError,
>)
    ensures
        match msg {
            QueryMsg::GetMarketInfo { contract_address, account } => match answer {
                Some(MarketAnswer::Info(data)) => if media_of(deps@, contract_address@).len() == 2 {
                    r is Ok && r->Ok_0 is MarketInfo && r->Ok_0->MarketInfo_0@ == (MarketInfoView {
                        information: data@.information,
                        shares: data@.shares,
                        volume: volume_of(deps@, contract_address@),
                        media: media_of(deps@, contract_address@),
                    })
                } else {
                    r == Err::<QueryResponse, ContractError>(ContractError::MissingData)
                },
                _ => r == Err::<QueryResponse, ContractError>(ContractError::QueryFailed),
            },
            QueryMsg::GetStatistics {  } => r is Ok && r->Ok_0 == QueryResponse::Statistics(
                deps@.statistics,
            ),
            QueryMsg::FetchMarkets { page, items_per_page, account, market_type } => match page_rejection(
                list_of(deps@, market_type).len() as int,
                page,
                items_per_page,
            ) {
                Some(e) => r == Err::<QueryResponse, ContractError>(e),
                None => r is Ok && r->Ok_0 is Markets && texts(r->Ok_0->Markets_0.contracts@)
                    == listed_contracts(list_of(deps@, market_type), page, items_per_page)
                    && r->Ok_0->Markets_0.indexes@ == listed_indexes(
                    list_of(deps@, market_type).len() as int,
                    page,
                    items_per_page,
                ),
            },
            QueryMsg::Details {  } => r is Ok && r->Ok_0 is Details && r->Ok_0->Details_0@
                == deps@.details,
            QueryMsg::FeesAddress {  } => r is Ok && r->Ok_0 is FeesAddress
                && r->Ok_0->FeesAddress_0@ == deps@.details.fees_address,
            QueryMsg::Quote { market, variant, buy_or_sell, amount } => match answer {
                Some(MarketAnswer::Quote(q)) => r is Ok && r->Ok_0 == QueryResponse::Quote(q),
                _ => r == Err::<QueryResponse, ContractError>(ContractError::QueryFailed),
            },
            QueryMsg::IsAdmin { account } => r is Ok && r->Ok_0 == QueryResponse::IsAdmin(
                flagged(deps@.admins_map, account@),
            ),
            QueryMsg::GetIncentives { account } => match lookup(deps@.incentives, account@) {
                Some(p) => r is Ok && r->Ok_0 == QueryResponse::Incentives(p),
                None => r == Err::<QueryResponse, ContractError>(ContractError::IncentivesNotFound),
            },
        },
{
    match msg {
        QueryMsg::GetMarketInfo { contract_address, account } => match answer {
            Some(MarketAnswer::Info(data)) => match get_market_info(
                deps,
                env,
                contract_address,
                data,
            ) {
                Ok(shown) => Ok(QueryResponse::MarketInfo(shown)),
                Err(e) => Err(e),
            },
            _ => Err(ContractError::QueryFailed),
        },
        QueryMsg::GetStatistics {  } => match get_statistics(deps, env) {
            Ok(statistics) => Ok(QueryResponse::Statistics(statistics)),
            Err(e) => Err(e),
        },
        QueryMsg::FetchMarkets { page, items_per_page, account, market_type } => match fetch_markets(
            deps,
            env,
            page,
            items_per_page,
            market_type,
        ) {
            Ok(listed) => Ok(QueryResponse::Markets(listed)),
            Err(e) => Err(e),
        },
        QueryMsg::Details {  } => match get_details(deps, env) {
            Ok(details) => Ok(QueryResponse::Details(details)),
            Err(e) => Err(e),
        },
        QueryMsg::FeesAddress {  } => match fees_address(deps, env) {
            Ok(address) => Ok(QueryResponse::FeesAddress(address)),
            Err(e) => Err(e),
        },
        QueryMsg::Quote { market, variant, buy_or_sell, amount } => match answer {
            Some(MarketAnswer::Quote(q)) => Ok(QueryResponse::Quote(q)),
            _ => Err(ContractError::QueryFailed),
        },
        QueryMsg::IsAdmin { account } => match is_admin(deps, env, account) {
            Ok(admin) => Ok(QueryResponse::IsAdmin(admin)),
            Err(e) => Err(e),
        },
        QueryMsg::GetIncentives { account } => match get_incentives(deps, env, account) {
            Ok(points) => Ok(QueryResponse::Incentives(points)),
            Err(e) => Err(e),
        },
    }
}

} // verus!
