use crate::book::lookup;
use crate::error::ContractError;
use crate::factory::execute::volume_of;
use crate::factory::state::{flag, flagged, Deps, StorageView};
use crate::host::Env;
use crate::packages::factory::{Details, MarketInfo, MarketList, Statistics};
use crate::packages::market::{Data, InformationView, Shares};
use crate::pagination::{lemma_page_bounds, page_bounds, page_end, page_rejection, page_start};
use crate::text::texts;
use vstd::prelude::*;

verus! {

/// The account that collects fees.
pub fn fees_address(deps: &Deps, _env: &Env) -> (r: Result<String, ContractError>)
    ensures
        r is Ok,
        r->Ok_0@ == deps@.details.fees_address,
{
    Ok(deps.storage.details.fees_address.clone())
}

/// Whether the account is an admin.
pub fn is_admin(deps: &Deps, _env: &Env, account: String) -> (r: Result<bool, ContractError>)
    ensures
        r == Ok::<bool, ContractError>(flagged(deps@.admins_map, account@)),
{
    Ok(flag(&deps.storage.admins_map, &account))
}

/// The points that the account earned: an account that never placed an order has none on
/// record.
pub fn get_incentives(deps: &Deps, _env: &Env, account: String) -> (r: Result<u64, ContractError>)
    ensures
        match lookup(deps@.incentives, account@) {
            Some(p) => r == Ok::<u64, ContractError>(p),
            None => r == Err::<u64, ContractError>(ContractError::IncentivesNotFound),
        },
{
    match deps.storage.incentives.load(&account) {
        Some(p) => Ok(*p),
        None => Err(ContractError::IncentivesNotFound),
    }
}

/// What the registry counts.
pub fn get_statistics(deps: &Deps, _env: &Env) -> (r: Result<Statistics, ContractError>)
    ensures
        r == Ok::<Statistics, ContractError>(deps@.statistics),
{
    Ok(deps.storage.statistics)
}

/// What the registry is configured with.
pub fn get_details(deps: &Deps, _env: &Env) -> (r: Result<Details, ContractError>)
    ensures
        r is Ok,
        r->Ok_0@ == deps@.details,
{
    Ok(deps.storage.details.clone())
}

/// The media of a market: two empty ones, if the registry keeps none for it.
pub open spec fn media_of(pre: StorageView, market: Seq<char>) -> Seq<Seq<char>> {
    match lookup(pre.media, market) {
        Some(m) => m,
        None => seq![Seq::<char>::empty(), Seq::<char>::empty()],
    }
}

/// A market as the registry shows it.
pub struct MarketInfoView {
    pub information: InformationView,
    pub shares: Shares,
    pub volume: u128,
    pub media: Seq<Seq<char>>,
}

impl View for MarketInfo {
    type V = MarketInfoView;

    open spec fn view(&self) -> MarketInfoView {
        MarketInfoView {
            information: self.information@,
            shares: self.shares,
            volume: self.volume,
            media: texts(self.media@),
        }
    }
}

/// What the market at `contract_address` answered about itself and an account, together
/// with the volume and the media that the registry keeps for that market.
pub fn get_market_info(deps: &Deps, _env: &Env, contract_address: String, data: Data) -> (r: Result<
    MarketInfo,
    ContractError,
>)
    ensures
        if media_of(deps@, contract_address@).len() == 2 {
            r is Ok && r->Ok_0@ == (MarketInfoView {
                information: data@.information,
                shares: data@.shares,
                volume: volume_of(deps@, contract_address@),
                media: media_of(deps@, contract_address@),
            })
        } else {
            r == Err::<MarketInfo, ContractError>(ContractError::MissingData)
        },
{
    let volume = match deps.storage.volumes.load(&contract_address) {
        Some(v) => *v,
        None => 0,
    };
    let media = match deps.storage.media.load(&contract_address) {
        Some(m) => {
            assert(m.deep_view() =~= texts(m@));
            if m.len() != 2 {
                return Err(ContractError::MissingData);
            }
            [m[0].clone(), m[1].clone()]
        },
        None => [String::new(), String::new()],
    };
    assert(texts(media@) =~= media_of(deps@, contract_address@));
    Ok(MarketInfo { information: data.information, shares: data.shares, volume, media })
}

/// The list of markets of one kind: 0 stands for all markets, 1 for the active ones,
/// anything else for the completed ones.
pub open spec fn list_of(pre: StorageView, market_type: u128) -> Seq<Seq<char>> {
    if market_type == 0 {
        pre.markets
    } else if market_type == 1 {
        pre.active_markets
    } else {
        pre.completed_markets
    }
}

/// The markets on a page of a list, newest first.
pub open spec fn listed_contracts(list: Seq<Seq<char>>, page: u128, items_per_page: u128) -> Seq<
    Seq<char>,
> {
    let start = page_start(list.len() as int, page, items_per_page);
    let end = page_end(list.len() as int, page, items_per_page);
    Seq::new((start - end + 1) as nat, |i: int| list[start - 1 - i])
}

/// The positions, counted from 1, of the markets on a page of a list.
pub open spec fn listed_indexes(total: int, page: u128, items_per_page: u128) -> Seq<u128> {
    let start = page_start(total, page, items_per_page);
    let end = page_end(total, page, items_per_page);
    Seq::new((start - end + 1) as nat, |i: int| (start - i) as u128)
}

/// One page of the markets of one kind, newest first. Page 1 holds the markets that joined
/// the list last.
pub fn fetch_markets(
    deps: &Deps,
    _env: &Env,
    page_: u128,
    items_per_page: u128,
    market_type: u128,
) -> (r: Result<MarketList, ContractError>)
    ensures
        match page_rejection(list_of(deps@, market_type).len() as int, page_, items_per_page) {
            Some(e) => r == Err::<MarketList, ContractError>(e),
            None => r is Ok && texts(r->Ok_0.contracts@) == listed_contracts(
                list_of(deps@, market_type),
                page_,
                items_per_page,
            ) && r->Ok_0.indexes@ == listed_indexes(
                list_of(deps@, market_type).len() as int,
                page_,
                items_per_page,
            ),
        },
{
    let list = if market_type == 0 {
        &deps.storage.markets
    } else if market_type == 1 {
        &deps.storage.active_markets
    } else {
        &deps.storage.completed_markets
    };
    let (start, end) = match page_bounds(list.len(), page_, items_per_page) {
        Ok(bounds) => bounds,
        Err(e) => {
            return Err(e);
        },
    };
    proof {
        lemma_page_bounds(list@.len() as int, page_, items_per_page);
    }
    let mut contracts: Vec<String> = Vec::new();
    let mut indexes: Vec<u128> = Vec::new();
    let mut current_index = start;
    while current_index >= end
        invariant
            1 <= end <= start <= list@.len(),
            end - 1 <= current_index <= start,
            contracts@.len() == start - current_index,
            indexes@.len() == start - current_index,
            forall|i: int| 0 <= i < contracts@.len() ==> contracts@[i]@ == list@[start - 1 - i]@,
            forall|i: int| 0 <= i < indexes@.len() ==> indexes@[i] == start - i,
        decreases current_index,
    {
        contracts.push(list[current_index - 1].clone());
        indexes.push(current_index as u128);
        current_index = current_index - 1;
    }
    assert(texts(contracts@) =~= listed_contracts(texts(list@), page_, items_per_page));
    assert(indexes@ =~= listed_indexes(list@.len() as int, page_, items_per_page));
    Ok(MarketList { contracts, indexes })
}

} // verus!
