use crate::text::{clone_texts, texts};
use vstd::prelude::*;

verus! {

/// What a market is created with.
#[derive(Debug, PartialEq, Eq)]
pub struct InstantiateMsg {
    pub title: String,
    pub description: String,
    pub end_date: u64,
    pub categories: Vec<String>,
    pub usdc: String,
    pub owner: String,
    pub factory: String,
}

/// An `InstantiateMsg` as a mathematical value: texts and sequences in place of strings and
/// vectors.
pub struct InstantiateMsgView {
    pub title: Seq<char>,
    pub description: Seq<char>,
    pub end_date: u64,
    pub categories: Seq<Seq<char>>,
    pub usdc: Seq<char>,
    pub owner: Seq<char>,
    pub factory: Seq<char>,
}

impl View for InstantiateMsg {
    type V = InstantiateMsgView;

    open spec fn view(&self) -> InstantiateMsgView {
        InstantiateMsgView {
            title: self.title@,
            description: self.description@,
            end_date: self.end_date,
            categories: texts(self.categories@),
            usdc: self.usdc@,
            owner: self.owner@,
            factory: self.factory@,
        }
    }
}

/// The calls that change a market. `receiver` is the account on whose behalf the registry calls.
#[derive(Debug, PartialEq, Eq)]
pub enum ExecuteMsg {
    InitializeLiquidity { yes_price: u128, liquidity: u128, receiver: String },
    AddLiquidity { amount: u128, receiver: String },
    RemoveLiquidity { shares: u128, receiver: String },
    Claim { variant: u128, receiver: String },
    ResolveMarket { variant: u128, receiver: String, market_index: u128 },
    PlaceOrder { variant: u128, buy_or_sell: u128, amount: u128, receiver: String },
}

/// An `ExecuteMsg` as a mathematical value: texts and sequences in place of strings and
/// vectors.
pub enum ExecuteMsgView {
    InitializeLiquidity { yes_price: u128, liquidity: u128, receiver: Seq<char> },
    AddLiquidity { amount: u128, receiver: Seq<char> },
    RemoveLiquidity { shares: u128, receiver: Seq<char> },
    Claim { variant: u128, receiver: Seq<char> },
    ResolveMarket { variant: u128, receiver: Seq<char>, market_index: u128 },
    PlaceOrder { variant: u128, buy_or_sell: u128, amount: u128, receiver: Seq<char> },
}

impl View for ExecuteMsg {
    type V = ExecuteMsgView;

    open spec fn view(&self) -> ExecuteMsgView {
        match *self {
            ExecuteMsg::InitializeLiquidity { yes_price, liquidity, receiver } => ExecuteMsgView::InitializeLiquidity {
                yes_price,
                liquidity,
                receiver: receiver@,
            },
            ExecuteMsg::AddLiquidity { amount, receiver } => ExecuteMsgView::AddLiquidity {
                amount,
                receiver: receiver@,
            },
            ExecuteMsg::RemoveLiquidity { shares, receiver } => ExecuteMsgView::RemoveLiquidity {
                shares,
                receiver: receiver@,
            },
            ExecuteMsg::Claim { variant, receiver } => ExecuteMsgView::Claim {
                variant,
                receiver: receiver@,
            },
            ExecuteMsg::ResolveMarket { variant, receiver, market_index } => ExecuteMsgView::ResolveMarket {
                variant,
                receiver: receiver@,
                market_index,
            },
            ExecuteMsg::PlaceOrder { variant, buy_or_sell, amount, receiver } => ExecuteMsgView::PlaceOrder {
                variant,
                buy_or_sell,
                amount,
                receiver: receiver@,
            },
        }
    }
}

/// The market record: prices, reserves, share totals and resolution status.
#[derive(Debug)]
pub struct Information {
    pub title: String,
    pub description: String,
    pub yes_price: u128,
    pub no_price: u128,
    pub yes_liquidity: u128,
    pub no_liquidity: u128,
    pub yes_shares: u128,
    pub no_shares: u128,
    pub market_created: u64,
    pub market_end: u64,
    pub categories: Vec<String>,
    pub liquidity_shares: u128,
    pub usdc: String,
    pub owner: String,
    pub resolved: bool,
    pub factory: String,
    pub resolved_to: u128,
}

/// The market record as a mathematical value.
pub struct InformationView {
    pub title: Seq<char>,
    pub description: Seq<char>,
    pub yes_price: u128,
    pub no_price: u128,
    pub yes_liquidity: u128,
    pub no_liquidity: u128,
    pub yes_shares: u128,
    pub no_shares: u128,
    pub market_created: u64,
    pub market_end: u64,
    pub categories: Seq<Seq<char>>,
    pub liquidity_shares: u128,
    pub usdc: Seq<char>,
    pub owner: Seq<char>,
    pub resolved: bool,
    pub factory: Seq<char>,
    pub resolved_to: u128,
}

impl View for Information {
    type V = InformationView;

    open spec fn view(&self) -> InformationView {
        InformationView {
            title: self.title@,
            description: self.description@,
            yes_price: self.yes_price,
            no_price: self.no_price,
            yes_liquidity: self.yes_liquidity,
            no_liquidity: self.no_liquidity,
            yes_shares: self.yes_shares,
            no_shares: self.no_shares,
            market_created: self.market_created,
            market_end: self.market_end,
            categories: texts(self.categories@),
            liquidity_shares: self.liquidity_shares,
            usdc: self.usdc@,
            owner: self.owner@,
            resolved: self.resolved,
            factory: self.factory@,
            resolved_to: self.resolved_to,
        }
    }
}

impl Clone for Information {
    fn clone(&self) -> (r: Self)
        ensures
            r@ == self@,
    {
        Information {
            title: self.title.clone(),
            description: self.description.clone(),
            yes_price: self.yes_price,
            no_price: self.no_price,
            yes_liquidity: self.yes_liquidity,
            no_liquidity: self.no_liquidity,
            yes_shares: self.yes_shares,
            no_shares: self.no_shares,
            market_created: self.market_created,
            market_end: self.market_end,
            categories: clone_texts(&self.categories),
            liquidity_shares: self.liquidity_shares,
            usdc: self.usdc.clone(),
            owner: self.owner.clone(),
            resolved: self.resolved,
            factory: self.factory.clone(),
            resolved_to: self.resolved_to,
        }
    }
}

/// One point of the price history: the price of Yes right after a trade.
#[derive(Clone, Copy, Debug, PartialEq, Eq, Structural)]
pub struct Order {
    pub timestamp: u64,
    pub price: u128,
}

/// What one account holds in one market.
#[derive(Clone, Copy, Debug, PartialEq, Eq, Structural)]
pub struct Shares {
    pub yes_shares: u128,
    pub no_shares: u128,
    pub liquidity_shares: u128,
}

impl DeepView for Shares {
    type V = Shares;

    open spec fn deep_view(&self) -> Shares {
        *self
    }
}

impl Shares {
    /// The holdings of an account that was never seen.
    pub open spec fn zero() -> Shares {
        Shares { yes_shares: 0, no_shares: 0, liquidity_shares: 0 }
    }

    /// The holdings of an account that holds nothing.
    pub fn new() -> (r: Self)
        ensures
            r == Shares::zero(),
    {
        Shares { yes_shares: 0, no_shares: 0, liquidity_shares: 0 }
    }
}

impl Default for Shares {
    fn default() -> (r: Self)
        ensures
            r == Shares::zero(),
    {
        Shares::new()
    }
}

/// The market record together with one account's holdings.
#[derive(Debug)]
pub struct Data {
    pub information: Information,
    pub shares: Shares,
}

/// A `Data` as a mathematical value: texts and sequences in place of strings and
/// vectors.
pub struct DataView {
    pub information: InformationView,
    pub shares: Shares,
}

impl View for Data {
    type V = DataView;

    open spec fn view(&self) -> DataView {
        DataView { information: self.information@, shares: self.shares }
    }
}

/// What a trade would give, computed without changing anything.
#[derive(Clone, Copy, Debug, PartialEq, Eq, Structural)]
pub struct Quote {
    /// Shares delivered to a buyer, or currency paid to a seller, after the fee.
    pub amount_out: u128,
    /// By how many basis points the trade moves the reserve of its outcome.
    pub impact: u128,
    /// The price of the traded outcome after the trade.
    pub price: u128,
    /// The fee, 2% of the amount before the fee.
    pub fees: u128,
}

/// The questions a market answers.
#[derive(Debug)]
pub enum QueryMsg {
    GetInfo { account: String },
    Quote { variant: u128, buy_or_sell: u128, amount: u128 },
    GetOrders { page: u128, items_per_page: u128 },
    GetTotalOrders {},
}

} // verus!
