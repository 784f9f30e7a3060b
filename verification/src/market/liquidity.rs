use crate::book::saved;
use crate::error::ContractError;
use crate::host::{sending, Env, Message, MessageInfo, MessageView, Response};
use crate::market::state::{balance, balance_of, Deps, DepsView, StorageView};
use crate::math::{fits, integer_sqrt, isqrt, lemma_integer_sqrt, MINIMUM_LIQUIDITY, MULTIPLIER};
use crate::packages::market::{InformationView, Order, Shares};
use vstd::prelude::*;

verus! {

/// Whether the account may act for the market: it is the owner, or the registry counts
/// it among its admins.
pub open spec fn is_steward(info: InformationView, account: Seq<char>, is_admin: bool) -> bool {
    account == info.owner || is_admin
}

/// The part of a deposit that goes to the reserve of an outcome priced at `price`.
pub open spec fn portion(price: u128, deposit: u128) -> int {
    price * deposit / (MULTIPLIER as int)
}

/// Why a bootstrap is rejected, if it is. The reasons are tried in this order.
pub open spec fn bootstrap_rejection(
    pre: DepsView,
    sender: Seq<char>,
    yes_price: u128,
    liquidity: u128,
    receiver: Seq<char>,
) -> Option<ContractError> {
    let info = pre.storage.information;
    if pre.querier.is_admin is None {
        Some(ContractError::QueryFailed)
    } else if !is_steward(info, receiver, pre.querier.is_admin->0) {
        Some(ContractError::InitializeNotPermitted)
    } else if sender != info.factory {
        Some(ContractError::OnlyFactory)
    } else if liquidity < MINIMUM_LIQUIDITY {
        Some(ContractError::LiquidityTooLow)
    } else if info.resolved {
        Some(ContractError::MarketResolved)
    } else if info.yes_price != 0 {
        Some(ContractError::AlreadyInitialized)
    } else if yes_price < MULTIPLIER / 10 || yes_price > 9 * (MULTIPLIER / 10) {
        Some(ContractError::ProbabilityOutOfRange)
    } else {
        let yes = portion(yes_price, liquidity);
        let no = portion((MULTIPLIER - yes_price) as u128, liquidity);
        let minted = integer_sqrt(yes * no);
        if !fits(yes_price * liquidity) || !fits((MULTIPLIER - yes_price) * liquidity) || !fits(
            yes * no,
        ) || !fits(info.liquidity_shares + minted) || !fits(
            balance_of(pre.storage.shares, receiver).liquidity_shares + minted,
        ) {
            Some(ContractError::Overflow)
        } else {
            None
        }
    }
}

/// The market after a bootstrap that was not rejected: the prices are set, the deposit is
/// split between the reserves by price, the integer square root of the reserves' product is
/// minted as liquidity shares for the depositor, and the price of Yes is recorded.
pub open spec fn bootstrapped(
    storage: StorageView,
    now: u64,
    yes_price: u128,
    liquidity: u128,
    receiver: Seq<char>,
) -> StorageView {
    let info = storage.information;
    let yes = portion(yes_price, liquidity);
    let no = portion((MULTIPLIER - yes_price) as u128, liquidity);
    let minted = integer_sqrt(yes * no);
    let before = balance_of(storage.shares, receiver);
    StorageView {
        information: InformationView {
            yes_price,
            no_price: (MULTIPLIER - yes_price) as u128,
            yes_liquidity: yes as u128,
            no_liquidity: no as u128,
            liquidity_shares: (info.liquidity_shares + minted) as u128,
            ..info
        },
        order_list: storage.order_list.push(Order { timestamp: now, price: yes_price }),
        shares: saved(
            storage.shares,
            receiver,
            Shares { liquidity_shares: (before.liquidity_shares + minted) as u128, ..before },
        ),
    }
}

/// Bootstraps the pool with a starting price of Yes and a deposit, on the registry's call
/// for the market's owner or an admin. It can be done once.
pub fn initialize_liquidity(
    deps: &mut Deps,
    env: &Env,
    info_: &MessageInfo,
    yes_price: u128,
    liquidity: u128,
    receiver: String,
) -> (r: Result<Response, ContractError>)
    ensures
        match bootstrap_rejection(old(deps)@, info_.sender@, yes_price, liquidity, receiver@) {
            Some(e) => r == Err::<Response, ContractError>(e) && *final(deps) == *old(deps),
            None => r is Ok && r->Ok_0@ == sending(Seq::<MessageView>::empty())
                && final(deps)@.storage == bootstrapped(
                old(deps)@.storage,
                env.block_time,
                yes_price,
                liquidity,
                receiver@,
            ) && final(deps).querier == old(deps).querier,
        },
        r is Ok ==> final(deps)@.storage.information.yes_price
            + final(deps)@.storage.information.no_price == MULTIPLIER,
{
    let is_admin = match deps.querier.is_admin {
        Some(b) => b,
        None => {
            return Err(ContractError::QueryFailed);
        },
    };
    if receiver != deps.storage.information.owner && !is_admin {
        return Err(ContractError::InitializeNotPermitted);
    }
    if info_.sender != deps.storage.information.factory {
        return Err(ContractError::OnlyFactory);
    }
    if liquidity < MINIMUM_LIQUIDITY {
        return Err(ContractError::LiquidityTooLow);
    }
    if deps.storage.information.resolved {
        return Err(ContractError::MarketResolved);
    }
    if deps.storage.information.yes_price != 0 {
        return Err(ContractError::AlreadyInitialized);
    }
    if yes_price < MULTIPLIER / 10 || yes_price > 9 * (MULTIPLIER / 10) {
        return Err(ContractError::ProbabilityOutOfRange);
    }
    let no_price = MULTIPLIER - yes_price;
    let yes_scaled = match yes_price.checked_mul(liquidity) {
        Some(v) => v,
        None => {
            return Err(ContractError::Overflow);
        },
    };
    let no_scaled = match no_price.checked_mul(liquidity) {
        Some(v) => v,
        None => {
            return Err(ContractError::Overflow);
        },
    };
    let yes_liquidity = yes_scaled / MULTIPLIER;
    let no_liquidity = no_scaled / MULTIPLIER;
    let product = match yes_liquidity.checked_mul(no_liquidity) {
        Some(v) => v,
        None => {
            return Err(ContractError::Overflow);
        },
    };
    let shares_to_give = isqrt(product);
    proof {
        lemma_integer_sqrt(product as int, shares_to_give as int);
    }
    let total = match deps.storage.information.liquidity_shares.checked_add(shares_to_give) {
        Some(v) => v,
        None => {
            return Err(ContractError::Overflow);
        },
    };
    let shares = balance(&deps.storage.shares, &receiver);
    let owned = match shares.liquidity_shares.checked_add(shares_to_give) {
        Some(v) => v,
        None => {
            return Err(ContractError::Overflow);
        },
    };
    deps.storage.information.yes_price = yes_price;
    deps.storage.information.no_price = no_price;
    deps.storage.information.yes_liquidity = yes_liquidity;
    deps.storage.information.no_liquidity = no_liquidity;
    deps.storage.information.liquidity_shares = total;
    deps.storage.order_list.push(Order { timestamp: env.block_time, price: yes_price });
    deps.storage.shares.save(&receiver, Shares { liquidity_shares: owned, ..shares });
    Ok(Response::new())
}

/// The smaller of two numbers.
pub open spec fn smaller(x: int, y: int) -> int {
    if x < y {
        x
    } else {
        y
    }
}

/// The liquidity shares that a deposit mints: what its part for each reserve is worth in
/// shares at that reserve's present size, and of the two the smaller.
pub open spec fn deposit_shares(info: InformationView, amount: u128) -> int {
    smaller(
        portion(info.yes_price, amount) * info.liquidity_shares / (info.yes_liquidity as int),
        portion(info.no_price, amount) * info.liquidity_shares / (info.no_liquidity as int),
    )
}

/// Why a deposit is rejected, if it is. The reasons are tried in this order.
pub open spec fn deposit_rejection(
    pre: DepsView,
    sender: Seq<char>,
    amount: u128,
    receiver: Seq<char>,
) -> Option<ContractError> {
    let info = pre.storage.information;
    let yes = portion(info.yes_price, amount);
    let no = portion(info.no_price, amount);
    let minted = deposit_shares(info, amount);
    if sender != info.factory {
        Some(ContractError::OnlyFactory)
    } else if info.yes_price == 0 {
        Some(ContractError::NotInitialized)
    } else if info.resolved {
        Some(ContractError::ResolvedNoDeposits)
    } else if !fits(info.yes_price * amount) || !fits(info.no_price * amount) || !fits(
        yes * info.liquidity_shares,
    ) {
        Some(ContractError::Overflow)
    } else if info.yes_liquidity == 0 {
        Some(ContractError::DivideByZero)
    } else if !fits(no * info.liquidity_shares) {
        Some(ContractError::Overflow)
    } else if info.no_liquidity == 0 {
        Some(ContractError::DivideByZero)
    } else if minted == 0 {
        Some(ContractError::DepositTooSmall)
    } else if !fits(balance_of(pre.storage.shares, receiver).liquidity_shares + minted) || !fits(
        info.liquidity_shares + minted,
    ) || !fits(info.yes_liquidity + yes) || !fits(info.no_liquidity + no) {
        Some(ContractError::Overflow)
    } else {
        None
    }
}

/// The market after a deposit that was not rejected: the deposit is split between the
/// reserves by price and the depositor receives the liquidity shares it mints.
pub open spec fn deposited(storage: StorageView, amount: u128, receiver: Seq<char>) -> StorageView {
    let info = storage.information;
    let minted = deposit_shares(info, amount);
    let before = balance_of(storage.shares, receiver);
    StorageView {
        information: InformationView {
            liquidity_shares: (info.liquidity_shares + minted) as u128,
            yes_liquidity: (info.yes_liquidity + portion(info.yes_price, amount)) as u128,
            no_liquidity: (info.no_liquidity + portion(info.no_price, amount)) as u128,
            ..info
        },
        shares: saved(
            storage.shares,
            receiver,
            Shares { liquidity_shares: (before.liquidity_shares + minted) as u128, ..before },
        ),
        ..storage
    }
}

/// Adds `amount` of settlement currency to the pool for `receiver`, on the registry's call.
pub fn add_liquidity(
    deps: &mut Deps,
    _env: &Env,
    info_: &MessageInfo,
    amount: u128,
    receiver: String,
) -> (r: Result<Response, ContractError>)
    ensures
        match deposit_rejection(old(deps)@, info_.sender@, amount, receiver@) {
            Some(e) => r == Err::<Response, ContractError>(e) && *final(deps) == *old(deps),
            None => r is Ok && r->Ok_0@ == sending(Seq::<MessageView>::empty())
                && final(deps)@.storage == deposited(old(deps)@.storage, amount, receiver@)
                && final(deps).querier == old(deps).querier,
        },
{
    if info_.sender != deps.storage.information.factory {
        return Err(ContractError::OnlyFactory);
    }
    if deps.storage.information.yes_price == 0 {
        return Err(ContractError::NotInitialized);
    }
    if deps.storage.information.resolved {
        return Err(ContractError::ResolvedNoDeposits);
    }
    let total = deps.storage.information.liquidity_shares;
    let yes_scaled = match deps.storage.information.yes_price.checked_mul(amount) {
        Some(v) => v,
        None => {
            return Err(ContractError::Overflow);
        },
    };
    let yes_liquidity = yes_scaled / MULTIPLIER;
    let no_scaled = match deps.storage.information.no_price.checked_mul(amount) {
        Some(v) => v,
        None => {
            return Err(ContractError::Overflow);
        },
    };
    let no_liquidity = no_scaled / MULTIPLIER;
    let yes_worth = match yes_liquidity.checked_mul(total) {
        Some(v) => v,
        None => {
            return Err(ContractError::Overflow);
        },
    };
    if deps.storage.information.yes_liquidity == 0 {
        return Err(ContractError::DivideByZero);
    }
    let by_yes = yes_worth / deps.storage.information.yes_liquidity;
    let no_worth = match no_liquidity.checked_mul(total) {
        Some(v) => v,
        None => {
            return Err(ContractError::Overflow);
        },
    };
    if deps.storage.information.no_liquidity == 0 {
        return Err(ContractError::DivideByZero);
    }
    let by_no = no_worth / deps.storage.information.no_liquidity;
    let shares_to_give = if by_yes < by_no {
        by_yes
    } else {
        by_no
    };
    if shares_to_give == 0 {
        return Err(ContractError::DepositTooSmall);
    }
    let shares = balance(&deps.storage.shares, &receiver);
    let owned = match shares.liquidity_shares.checked_add(shares_to_give) {
        Some(v) => v,
        None => {
            return Err(ContractError::Overflow);
        },
    };
    let total_after = match total.checked_add(shares_to_give) {
        Some(v) => v,
        None => {
            return Err(ContractError::Overflow);
        },
    };
    let yes_after = match deps.storage.information.yes_liquidity.checked_add(yes_liquidity) {
        Some(v) => v,
        None => {
            return Err(ContractError::Overflow);
        },
    };
    let no_after = match deps.storage.information.no_liquidity.checked_add(no_liquidity) {
        Some(v) => v,
        None => {
            return Err(ContractError::Overflow);
        },
    };
    deps.storage.shares.save(&receiver, Shares { liquidity_shares: owned, ..shares });
    deps.storage.information.liquidity_shares = total_after;
    deps.storage.information.yes_liquidity = yes_after;
    deps.storage.information.no_liquidity = no_after;
    Ok(Response::new())
}

/// The part of a reserve that `shares` of the `total` liquidity shares stand for.
pub open spec fn pro_rata(shares: u128, reserve: u128, total: u128) -> int {
    shares * reserve / (total as int)
}

/// What a withdrawal pays: the parts of both reserves, but no more than the market holds.
pub open spec fn withdrawal_payout(pre: DepsView, shares: u128) -> int {
    let info = pre.storage.information;
    smaller(
        pro_rata(shares, info.yes_liquidity, info.liquidity_shares) + pro_rata(
            shares,
            info.no_liquidity,
            info.liquidity_shares,
        ),
        pre.querier.balance->0 as int,
    )
}

/// Why a withdrawal is rejected, if it is. The reasons are tried in this order.
pub open spec fn withdrawal_rejection(
    pre: DepsView,
    sender: Seq<char>,
    shares: u128,
    receiver: Seq<char>,
) -> Option<ContractError> {
    let info = pre.storage.information;
    let yes = pro_rata(shares, info.yes_liquidity, info.liquidity_shares);
    let no = pro_rata(shares, info.no_liquidity, info.liquidity_shares);
    if sender != info.factory {
        Some(ContractError::OnlyFactory)
    } else if balance_of(pre.storage.shares, receiver).liquidity_shares < shares {
        Some(ContractError::InsufficientShares)
    } else if !fits(shares * info.yes_liquidity) {
        Some(ContractError::Overflow)
    } else if info.liquidity_shares == 0 {
        Some(ContractError::DivideByZero)
    } else if !fits(shares * info.no_liquidity) || info.liquidity_shares < shares || !fits(
        yes + no,
    ) {
        Some(ContractError::Overflow)
    } else if yes + no == 0 {
        Some(ContractError::WithdrawalTooSmall)
    } else if pre.querier.balance is None {
        Some(ContractError::QueryFailed)
    } else if !info.resolved && !fits(info.yes_liquidity + info.no_liquidity) {
        Some(ContractError::Overflow)
    } else if !info.resolved && info.yes_liquidity + info.no_liquidity - withdrawal_payout(
        pre,
        shares,
    ) < MINIMUM_LIQUIDITY {
        Some(ContractError::LiquidityFloor)
    } else {
        None
    }
}

/// The market after a withdrawal that was not rejected: the liquidity shares are burnt and
/// their part leaves each reserve.
pub open spec fn withdrawn(storage: StorageView, shares: u128, receiver: Seq<char>) -> StorageView {
    let info = storage.information;
    let before = balance_of(storage.shares, receiver);
    StorageView {
        information: InformationView {
            liquidity_shares: (info.liquidity_shares - shares) as u128,
            yes_liquidity: (info.yes_liquidity - pro_rata(
                shares,
                info.yes_liquidity,
                info.liquidity_shares,
            )) as u128,
            no_liquidity: (info.no_liquidity - pro_rata(
                shares,
                info.no_liquidity,
                info.liquidity_shares,
            )) as u128,
            ..info
        },
        shares: saved(
            storage.shares,
            receiver,
            Shares { liquidity_shares: (before.liquidity_shares - shares) as u128, ..before },
        ),
        ..storage
    }
}

/// A part of a reserve is not more than the reserve.
pub proof fn lemma_pro_rata(shares: u128, reserve: u128, total: u128)
    requires
        shares <= total,
        0 < total,
    ensures
        0 <= pro_rata(shares, reserve, total) <= reserve,
{
    let s = shares as int;
    let r = reserve as int;
    let t = total as int;
    assert(0 <= s * r <= t * r) by (nonlinear_arith)
        requires
            0 <= s <= t,
            0 <= r,
    ;
    vstd::arithmetic::div_mod::lemma_div_is_ordered(s * r, t * r, t);
    assert(t * r == r * t) by (nonlinear_arith);
    vstd::arithmetic::div_mod::lemma_div_multiples_vanish(r, t);
    vstd::arithmetic::div_mod::lemma_div_pos_is_pos(s * r, t);
}

/// Gives up `shares_` liquidity shares of `receiver` for their part of the reserves, on the
/// registry's call.
pub fn remove_liquidity(
    deps: &mut Deps,
    _env: &Env,
    info_: &MessageInfo,
    shares_: u128,
    receiver: String,
) -> (r: Result<Response, ContractError>)
    ensures
        match withdrawal_rejection(old(deps)@, info_.sender@, shares_, receiver@) {
            Some(e) => r == Err::<Response, ContractError>(e) && *final(deps) == *old(deps),
            None => r is Ok && r->Ok_0@ == sending(seq![
                MessageView::Send {
                    to_address: receiver@,
                    denom: old(deps)@.storage.information.usdc,
                    amount: withdrawal_payout(old(deps)@, shares_) as u128,
                },
            ]) && final(deps)@.storage == withdrawn(old(deps)@.storage, shares_, receiver@)
                && final(deps).querier == old(deps).querier,
        },
{
    if info_.sender != deps.storage.information.factory {
        return Err(ContractError::OnlyFactory);
    }
    let shares = balance(&deps.storage.shares, &receiver);
    if shares.liquidity_shares < shares_ {
        return Err(ContractError::InsufficientShares);
    }
    let total = deps.storage.information.liquidity_shares;
    let yes_reserve = deps.storage.information.yes_liquidity;
    let no_reserve = deps.storage.information.no_liquidity;
    let yes_scaled = match shares_.checked_mul(yes_reserve) {
        Some(v) => v,
        None => {
            return Err(ContractError::Overflow);
        },
    };
    if total == 0 {
        return Err(ContractError::DivideByZero);
    }
    let yes_to_remove = yes_scaled / total;
    let no_scaled = match shares_.checked_mul(no_reserve) {
        Some(v) => v,
        None => {
            return Err(ContractError::Overflow);
        },
    };
    let no_to_remove = no_scaled / total;
    if total < shares_ {
        return Err(ContractError::Overflow);
    }
    let mut amount_to_remove = match yes_to_remove.checked_add(no_to_remove) {
        Some(v) => v,
        None => {
            return Err(ContractError::Overflow);
        },
    };
    if amount_to_remove == 0 {
        return Err(ContractError::WithdrawalTooSmall);
    }
    let total_balance = match deps.querier.balance {
        Some(b) => b,
        None => {
            return Err(ContractError::QueryFailed);
        },
    };
    if amount_to_remove > total_balance {
        amount_to_remove = total_balance;
    }
    proof {
        lemma_pro_rata(shares_, yes_reserve, total);
        lemma_pro_rata(shares_, no_reserve, total);
    }
    if !deps.storage.information.resolved {
        let reserves = match yes_reserve.checked_add(no_reserve) {
            Some(v) => v,
            None => {
                return Err(ContractError::Overflow);
            },
        };
        if reserves - amount_to_remove < MINIMUM_LIQUIDITY {
            return Err(ContractError::LiquidityFloor);
        }
    }
    let payment = Message::Send {
        to_address: receiver.clone(),
        denom: deps.storage.information.usdc.clone(),
        amount: amount_to_remove,
    };
    deps.storage.information.liquidity_shares = total - shares_;
    deps.storage.information.yes_liquidity = yes_reserve - yes_to_remove;
    deps.storage.information.no_liquidity = no_reserve - no_to_remove;
    deps.storage.shares.save(
        &receiver,
        Shares { liquidity_shares: shares.liquidity_shares - shares_, ..shares },
    );
    let response = Response::new().add_message(payment);
    proof {
        assert(response@.messages =~= seq![
            MessageView::Send {
                to_address: receiver@,
                denom: old(deps)@.storage.information.usdc,
                amount: withdrawal_payout(old(deps)@, shares_) as u128,
            },
        ]);
    }
    Ok(response)
}

} // verus!
