use vstd::prelude::*;

verus! {

/// Why a call was rejected. A rejected call changes nothing and sends nothing.
#[derive(Clone, Copy, Debug, PartialEq, Eq, Structural)]
pub enum ContractError {
    /// The caller is not the registry the market was created by.
    OnlyFactory,
    /// The beneficiary of a bootstrap is neither the market's owner nor an admin.
    InitializeNotPermitted,
    /// The resolver is neither the market's owner nor an admin.
    ResolveNotPermitted,
    /// A bootstrap deposit under the minimum.
    LiquidityTooLow,
    /// The market is resolved: it takes no bootstrap and no order.
    MarketResolved,
    /// The pool was bootstrapped before.
    AlreadyInitialized,
    /// The starting price lies outside the band from 10% to 90%.
    ProbabilityOutOfRange,
    /// The pool was never bootstrapped.
    NotInitialized,
    /// The market is resolved: it takes no deposit.
    ResolvedNoDeposits,
    /// A deposit that would mint no liquidity share.
    DepositTooSmall,
    /// The account holds fewer liquidity shares than it wants to withdraw.
    InsufficientShares,
    /// A withdrawal that rounds to nothing.
    WithdrawalTooSmall,
    /// A withdrawal that would leave an open market with less than the minimum.
    LiquidityFloor,
    /// Claims wait for the resolution.
    NotResolved,
    /// The claimed outcome is not the one the market resolved to.
    NotWinningOutcome,
    /// The account holds no share of the winning outcome.
    NothingToClaim,
    /// A resolution before the market's end.
    BeforeDeadline,
    /// A resolution to an outcome other than 0 (No) and 1 (Yes).
    InvalidOutcome,
    /// A second resolution.
    AlreadyResolved,
    /// An order in the quiet period that starts at the market's end.
    ResolutionWindow,
    /// An order of amount zero.
    ZeroAmount,
    /// A trade in an outcome other than 0 (No) and 1 (Yes).
    InvalidVariant,
    /// A trade whose side is neither 0 (sell) nor 1 (buy).
    InvalidSide,
    /// A trade that would move the reserve by more than 5%.
    PriceImpact,
    /// Pages are counted from 1.
    PageZero,
    /// A page holds at least one item.
    ItemsPerPageZero,
    /// The page lies behind the last one.
    PageOutOfBounds,
    /// A collaborator gave no answer to a query.
    QueryFailed,
    /// A quantity left the range of unsigned 128-bit integers.
    Overflow,
    /// A division by a reserve, price or share total that is zero.
    DivideByZero,
    /// A market that ends no later than now.
    EndDateInPast,
    /// Only admins create markets.
    CreateNotPermitted,
    /// Only admins name new admins.
    AddAdminNotPermitted,
    /// Only admins remove admins.
    RemoveAdminNotPermitted,
    /// Statistics are taken from markets of this registry only.
    UnknownCaller,
    /// The position handed in does not hold the market that resolved.
    MarketIndexMismatch,
    /// The registry never created a market at this address.
    MarketNotFound,
    /// The registry does not vouch for the market at this address.
    IncorrectMarket,
    /// A report without the numbers it must hold, or a market without its two media.
    MissingData,
    /// A reply that does not tell where the new market stands.
    InvalidReply,
    /// The account has no incentives on record.
    IncentivesNotFound,
    /// The funds sent are not the amount named, in the settlement currency.
    InvalidFunds,
    /// A reply came though no market was being created.
    NothingPending,
}

impl ContractError {
    /// The reason in words.
    pub open spec fn text(self) -> Seq<char> {
        match self {
            ContractError::OnlyFactory => "Only callable by factory"@,
            ContractError::InitializeNotPermitted => "Only owner or admins can initialize price"@,
            ContractError::ResolveNotPermitted => "Only owner or admins can resolve a market"@,
            ContractError::LiquidityTooLow => "Liquidity must be up to 10 USD"@,
            ContractError::MarketResolved => "Market has already been resolved"@,
            ContractError::AlreadyInitialized => "Liquidity has already been initialized"@,
            ContractError::ProbabilityOutOfRange => {
                "Initial probability must be up to 10% and less than or equal to 90%"@
            },
            ContractError::NotInitialized => "Liquidity has not been initialized"@,
            ContractError::ResolvedNoDeposits => "Market has been resolved. Cannot add liquidity."@,
            ContractError::DepositTooSmall => "Must use higher deposit limit."@,
            ContractError::InsufficientShares => {
                "User must own up to the specified amount of shares"@
            },
            ContractError::WithdrawalTooSmall => "Shares too minute for withdrawal."@,
            ContractError::LiquidityFloor => "There must be at least 10 USDC leftover"@,
            ContractError::NotResolved => "Market must be resolved for user to claim"@,
            ContractError::NotWinningOutcome => "Can only claim from resolved (won) market"@,
            ContractError::NothingToClaim => "Must own shares to claim"@,
            ContractError::BeforeDeadline => "Can only resolve when market has reached deadline"@,
            ContractError::InvalidOutcome => "Variant must only be 0 (No) or 1 (Yes)"@,
            ContractError::AlreadyResolved => "Market already resolved"@,
            ContractError::ResolutionWindow => "Cannot trade within resolution window"@,
            ContractError::ZeroAmount => "Amount must be greater than 0"@,
            ContractError::InvalidVariant => "Variant must be 1 for Yes or 0 for No"@,
            ContractError::InvalidSide => "Variant must be 1 for Buy or 0 for Sell"@,
            ContractError::PriceImpact => "Price impact must not be more than 5%"@,
            ContractError::PageZero => "Page must be greater than 0"@,
            ContractError::ItemsPerPageZero => "Items per page must be greater than 0"@,
            ContractError::PageOutOfBounds => "Page is out of bounds"@,
            ContractError::QueryFailed => "Query failed"@,
            ContractError::Overflow => "Arithmetic overflow"@,
            ContractError::DivideByZero => "Division by zero"@,
            ContractError::EndDateInPast => "End date must be a date in the future"@,
            ContractError::CreateNotPermitted => "Only admins can create markets"@,
            ContractError::AddAdminNotPermitted => "Only admins can add new admins"@,
            ContractError::RemoveAdminNotPermitted => "Only admins can remove admins"@,
            ContractError::UnknownCaller => "Call must be made from known market contract"@,
            ContractError::MarketIndexMismatch => "Market index does not match intended market"@,
            ContractError::MarketNotFound => "Market not found"@,
            ContractError::IncorrectMarket => "Incorrect market"@,
            ContractError::MissingData => "Missing data"@,
            ContractError::InvalidReply => "parse reply instantiate data error"@,
            ContractError::IncentivesNotFound => "Incentives not found"@,
            ContractError::InvalidFunds => "Invalid funds"@,
            ContractError::NothingPending => "No market is being created"@,
        }
    }

    /// The reason in words, for the caller to show.
    pub fn message(&self) -> (r: String)
        ensures
            r@ == self.text(),
    {
        match self {
            ContractError::OnlyFactory => "Only callable by factory".to_string(),
            ContractError::InitializeNotPermitted => {
                "Only owner or admins can initialize price".to_string()
            },
            ContractError::ResolveNotPermitted => {
                "Only owner or admins can resolve a market".to_string()
            },
            ContractError::LiquidityTooLow => "Liquidity must be up to 10 USD".to_string(),
            ContractError::MarketResolved => "Market has already been resolved".to_string(),
            ContractError::AlreadyInitialized => {
                "Liquidity has already been initialized".to_string()
            },
            ContractError::ProbabilityOutOfRange => {
                "Initial probability must be up to 10% and less than or equal to 90%".to_string()
            },
            ContractError::NotInitialized => "Liquidity has not been initialized".to_string(),
            ContractError::ResolvedNoDeposits => {
                "Market has been resolved. Cannot add liquidity.".to_string()
            },
            ContractError::DepositTooSmall => "Must use higher deposit limit.".to_string(),
            ContractError::InsufficientShares => {
                "User must own up to the specified amount of shares".to_string()
            },
            ContractError::WithdrawalTooSmall => "Shares too minute for withdrawal.".to_string(),
            ContractError::LiquidityFloor => "There must be at least 10 USDC leftover".to_string(),
            ContractError::NotResolved => "Market must be resolved for user to claim".to_string(),
            ContractError::NotWinningOutcome => {
                "Can only claim from resolved (won) market".to_string()
            },
            ContractError::NothingToClaim => "Must own shares to claim".to_string(),
            ContractError::BeforeDeadline => {
                "Can only resolve when market has reached deadline".to_string()
            },
            ContractError::InvalidOutcome => "Variant must only be 0 (No) or 1 (Yes)".to_string(),
            ContractError::AlreadyResolved => "Market already resolved".to_string(),
            ContractError::ResolutionWindow => "Cannot trade within resolution window".to_string(),
            ContractError::ZeroAmount => "Amount must be greater than 0".to_string(),
            ContractError::InvalidVariant => "Variant must be 1 for Yes or 0 for No".to_string(),
            ContractError::InvalidSide => "Variant must be 1 for Buy or 0 for Sell".to_string(),
            ContractError::PriceImpact => "Price impact must not be more than 5%".to_string(),
            ContractError::PageZero => "Page must be greater than 0".to_string(),
            ContractError::ItemsPerPageZero => "Items per page must be greater than 0".to_string(),
            ContractError::PageOutOfBounds => "Page is out of bounds".to_string(),
            ContractError::QueryFailed => "Query failed".to_string(),
            ContractError::Overflow => "Arithmetic overflow".to_string(),
            ContractError::DivideByZero => "Division by zero".to_string(),
            ContractError::EndDateInPast => "End date must be a date in the future".to_string(),
            ContractError::CreateNotPermitted => "Only admins can create markets".to_string(),
            ContractError::AddAdminNotPermitted => "Only admins can add new admins".to_string(),
            ContractError::RemoveAdminNotPermitted => "Only admins can remove admins".to_string(),
            ContractError::UnknownCaller => {
                "Call must be made from known market contract".to_string()
            },
            ContractError::MarketIndexMismatch => {
                "Market index does not match intended market".to_string()
            },
            ContractError::MarketNotFound => "Market not found".to_string(),
            ContractError::IncorrectMarket => "Incorrect market".to_string(),
            ContractError::MissingData => "Missing data".to_string(),
            ContractError::InvalidReply => "parse reply instantiate data error".to_string(),
            ContractError::IncentivesNotFound => "Incentives not found".to_string(),
            ContractError::InvalidFunds => "Invalid funds".to_string(),
            ContractError::NothingPending => "No market is being created".to_string(),
        }
    }
}

} // verus!
