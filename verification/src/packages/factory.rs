use crate::packages::market::{Information, InformationView, Shares};
use crate::text::texts;
use vstd::prelude::*;

verus! {

/// What a registry is created with.
#[derive(Debug)]
pub struct InstantiateMsg {
    pub usdc: String,
    pub fees_address: String,
    pub market_code_id: u64,
}

/// What a registry is configured with: the settlement currency, the account that collects
/// fees, and the code that markets are created from.
#[derive(Debug)]
pub struct Details {
    pub usdc: String,
    pub fees_address: String,
    pub market_code_id: u64,
}

/// A `Details` as a mathematical value: texts and sequences in place of strings and
/// vectors.
pub struct DetailsView {
    pub usdc: Seq<char>,
    pub fees_address: Seq<char>,
    pub market_code_id: u64,
}

impl View for Details {
    type V = DetailsView;

    open spec fn view(&self) -> DetailsView {
        DetailsView {
            usdc: self.usdc@,
            fees_address: self.fees_address@,
            market_code_id: self.market_code_id,
        }
    }
}

impl Clone for Details {
    fn clone(&self) -> (r: Self)
        ensures
            r@ == self@,
    {
        Details {
            usdc: self.usdc.clone(),
            fees_address: self.fees_address.clone(),
            market_code_id: self.market_code_id,
        }
    }
}

/// What a registry counts over all its markets.
#[derive(Clone, Copy, Debug, PartialEq, Eq, Structural)]
pub struct Statistics {
    pub volume: u128,
    pub total_pools: u128,
    pub unique_wallets: u128,
    pub active_events: u128,
    pub completed_events: u128,
}

/// The calls that change a registry. Calls on a market are handed on to it in the caller's
/// name.
#[derive(Debug)]
pub enum ExecuteMsg {
    CreateMarket {
        title: String,
        description: String,
        end_date: u64,
        categories: Vec<String>,
        media: [String; 2],
    },
    RecordStats { amount: u128, account: String, stat_type: String, data: Vec<u128> },
    AddAdmin { account: String },
    RemoveAdmin { account: String },
    InitializeLiquidity { market: String, yes_price: u128, liquidity: u128 },
    AddLiquidity { market: String, amount: u128 },
    RemoveLiquidity { market: String, shares: u128 },
    Claim { market: String, variant: u128 },
    ResolveMarket { market: String, variant: u128, market_index: u128 },
    PlaceOrder { market: String, variant: u128, buy_or_sell: u128, amount: u128 },
}

/// A market as the registry shows it: the market's own record and the account's holdings,
/// with the volume and the media that the registry keeps for it.
#[derive(Debug)]
pub struct MarketInfo {
    pub information: Information,
    pub shares: Shares,
    pub volume: u128,
    pub media: [String; 2],
}

/// One page of a list of markets, newest first: where each market stands and at which
/// position of the list.
#[derive(Debug)]
pub struct MarketList {
    pub contracts: Vec<String>,
    pub indexes: Vec<u128>,
}

/// What the registry remembers of the market that is being created.
#[derive(Clone, Debug)]
pub struct TempInformation {
    pub title: String,
    pub description: String,
    pub yes_price: u128,
    pub no_price: u128,
    pub yes_liquidity: u128,
    pub no_liquidity: u128,
    pub yes_shares: u128,
    pub no_shares: u128,
    pub market_created: u64,
    pub market_end: u64,
    pub categories: Vec<String>,
    pub liquidity_shares: u128,
    pub usdc: String,
    pub owner: String,
    pub resolved: bool,
    pub factory: String,
    pub resolved_to: u128,
    pub media: Vec<String>,
}

/// A `TempInformation` as a mathematical value: texts and sequences in place of strings and
/// vectors.
pub struct TempInformationView {
    pub information: InformationView,
    pub media: Seq<Seq<char>>,
}

impl View for TempInformation {
    type V = TempInformationView;

    open spec fn view(&self) -> TempInformationView {
        TempInformationView {
            information: InformationView {
                title: self.title@,
                description: self.description@,
                yes_price: self.yes_price,
                no_price: self.no_price,
                yes_liquidity: self.yes_liquidity,
                no_liquidity: self.no_liquidity,
                yes_shares: self.yes_shares,
                no_shares: self.no_shares,
                market_created: self.market_created,
                market_end: self.market_end,
                categories: texts(self.categories@),
                liquidity_shares: self.liquidity_shares,
                usdc: self.usdc@,
                owner: self.owner@,
                resolved: self.resolved,
                factory: self.factory@,
                resolved_to: self.resolved_to,
            },
            media: texts(self.media@),
        }
    }
}

/// The questions a registry answers.
#[derive(Debug)]
pub enum QueryMsg {
    GetMarketInfo { contract_address: String, account: String },
    GetStatistics {},
    FetchMarkets { page: u128, items_per_page: u128, account: String, market_type: u128 },
    Details {},
    FeesAddress {},
    Quote { market: String, variant: u128, buy_or_sell: u128, amount: u128 },
    IsAdmin { account: String },
    GetIncentives { account: String },
}

/// The two media of a market as a list.
pub fn media_list(media: &[String; 2]) -> (r: Vec<String>)
    ensures
        texts(r@) == texts(media@),
{
    let mut r: Vec<String> = Vec::new();
    r.push(media[0].clone());
    r.push(media[1].clone());
    assert(texts(r@) =~= texts(media@));
    r
}

} // verus!
