use crate::book::saved;
use crate::error::ContractError;
use crate::host::{sending, Env, Message, MessageInfo, MessageView, Response};
use crate::market::liquidity::is_steward;
use crate::market::order::{held, with_held};
use crate::market::quote::{minted_of, price_of};
use crate::market::state::{balance, balance_of, Deps, DepsView, StorageView};
use crate::math::{fits, MULTIPLIER};
use crate::packages::market::{InformationView, Shares};
use vstd::prelude::*;

verus! {

/// What a claim pays: the shares held of the outcome, at the outcome's price.
pub open spec fn claim_payout(storage: StorageView, variant: u128, receiver: Seq<char>) -> int {
    held(balance_of(storage.shares, receiver), variant) * price_of(storage.information, variant) / (
    MULTIPLIER as int)
}

/// The part of a payout that a reserve gives up: as much as the reserve is of both.
pub open spec fn retired(reserve: u128, payout: int, reserves: int) -> int {
    reserve * payout / reserves
}

/// Why a claim is rejected, if it is. The reasons are tried in this order.
pub open spec fn claim_rejection(
    pre: DepsView,
    sender: Seq<char>,
    variant: u128,
    receiver: Seq<char>,
) -> Option<ContractError> {
    let info = pre.storage.information;
    let owned = held(balance_of(pre.storage.shares, receiver), variant);
    let payout = claim_payout(pre.storage, variant, receiver);
    let reserves = info.yes_liquidity + info.no_liquidity;
    if sender != info.factory {
        Some(ContractError::OnlyFactory)
    } else if !info.resolved {
        Some(ContractError::NotResolved)
    } else if variant != info.resolved_to {
        Some(ContractError::NotWinningOutcome)
    } else if variant > 1 {
        None
    } else if owned == 0 {
        Some(ContractError::NothingToClaim)
    } else if !fits(owned * price_of(info, variant)) || !fits(reserves) || !fits(
        info.yes_liquidity * payout,
    ) {
        Some(ContractError::Overflow)
    } else if reserves == 0 {
        Some(ContractError::DivideByZero)
    } else if !fits(info.no_liquidity * payout) || minted_of(info, variant) < owned
        || info.yes_liquidity < retired(info.yes_liquidity, payout, reserves) || info.no_liquidity
        < retired(info.no_liquidity, payout, reserves) {
        Some(ContractError::Overflow)
    } else {
        None
    }
}

/// The market after a claim that was not rejected: the claimant's shares of the winning
/// outcome are burnt, and each reserve gives up its part of the payout. A record that is
/// resolved to something other than Yes and No pays nothing and only notes the claimant.
pub open spec fn claimed(storage: StorageView, variant: u128, receiver: Seq<char>) -> StorageView {
    let info = storage.information;
    let before = balance_of(storage.shares, receiver);
    let payout = claim_payout(storage, variant, receiver);
    let reserves = info.yes_liquidity + info.no_liquidity;
    if variant > 1 {
        StorageView { shares: saved(storage.shares, receiver, before), ..storage }
    } else {
        let paid = InformationView {
            yes_liquidity: (info.yes_liquidity - retired(info.yes_liquidity, payout, reserves))
                as u128,
            no_liquidity: (info.no_liquidity - retired(info.no_liquidity, payout, reserves))
                as u128,
            ..info
        };
        StorageView {
            information: if variant == 1 {
                InformationView {
                    yes_shares: (info.yes_shares - held(before, variant)) as u128,
                    ..paid
                }
            } else {
                InformationView {
                    no_shares: (info.no_shares - held(before, variant)) as u128,
                    ..paid
                }
            },
            shares: saved(storage.shares, receiver, with_held(before, variant, 0)),
            ..storage
        }
    }
}

/// What a claim that was not rejected has the ledger do: pay the claimant.
pub open spec fn claim_messages(storage: StorageView, variant: u128, receiver: Seq<char>) -> Seq<
    MessageView,
> {
    if variant > 1 {
        Seq::empty()
    } else {
        seq![
            MessageView::Send {
                to_address: receiver,
                denom: storage.information.usdc,
                amount: claim_payout(storage, variant, receiver) as u128,
            },
        ]
    }
}

/// Redeems the shares that `receiver` holds of the winning outcome `variant`, on the
/// registry's call.
pub fn claim(
    deps: &mut Deps,
    _env: &Env,
    info_: &MessageInfo,
    variant: u128,
    receiver: String,
) -> (r: Result<Response, ContractError>)
    ensures
        match claim_rejection(old(deps)@, info_.sender@, variant, receiver@) {
            Some(e) => r == Err::<Response, ContractError>(e) && *final(deps) == *old(deps),
            None => r is Ok && r->Ok_0@ == sending(
                claim_messages(old(deps)@.storage, variant, receiver@),
            )
                && final(deps)@.storage == claimed(old(deps)@.storage, variant, receiver@)
                && final(deps).querier == old(deps).querier,
        },
{
    let shares = balance(&deps.storage.shares, &receiver);
    if info_.sender != deps.storage.information.factory {
        return Err(ContractError::OnlyFactory);
    }
    if !deps.storage.information.resolved {
        return Err(ContractError::NotResolved);
    }
    if variant != deps.storage.information.resolved_to {
        return Err(ContractError::NotWinningOutcome);
    }
    if variant > 1 {
        deps.storage.shares.save(&receiver, shares);
        return Ok(Response::new());
    }
    let owned_shares = if variant == 1 {
        shares.yes_shares
    } else {
        shares.no_shares
    };
    if owned_shares == 0 {
        return Err(ContractError::NothingToClaim);
    }
    let price = if variant == 1 {
        deps.storage.information.yes_price
    } else {
        deps.storage.information.no_price
    };
    let worth = match owned_shares.checked_mul(price) {
        Some(v) => v,
        None => {
            return Err(ContractError::Overflow);
        },
    };
    let expected_usdc = worth / MULTIPLIER;
    let yes_reserve = deps.storage.information.yes_liquidity;
    let no_reserve = deps.storage.information.no_liquidity;
    let total_liquidity = match yes_reserve.checked_add(no_reserve) {
        Some(v) => v,
        None => {
            return Err(ContractError::Overflow);
        },
    };
    let yes_scaled = match yes_reserve.checked_mul(expected_usdc) {
        Some(v) => v,
        None => {
            return Err(ContractError::Overflow);
        },
    };
    if total_liquidity == 0 {
        return Err(ContractError::DivideByZero);
    }
    let yes_to_remove = yes_scaled / total_liquidity;
    let no_scaled = match no_reserve.checked_mul(expected_usdc) {
        Some(v) => v,
        None => {
            return Err(ContractError::Overflow);
        },
    };
    let no_to_remove = no_scaled / total_liquidity;
    let minted = if variant == 1 {
        deps.storage.information.yes_shares
    } else {
        deps.storage.information.no_shares
    };
    if minted < owned_shares || yes_reserve < yes_to_remove || no_reserve < no_to_remove {
        return Err(ContractError::Overflow);
    }
    let payment = Message::Send {
        to_address: receiver.clone(),
        denom: deps.storage.information.usdc.clone(),
        amount: expected_usdc,
    };
    deps.storage.information.yes_liquidity = yes_reserve - yes_to_remove;
    deps.storage.information.no_liquidity = no_reserve - no_to_remove;
    if variant == 1 {
        deps.storage.information.yes_shares = minted - owned_shares;
        deps.storage.shares.save(&receiver, Shares { yes_shares: 0, ..shares });
    } else {
        deps.storage.information.no_shares = minted - owned_shares;
        deps.storage.shares.save(&receiver, Shares { no_shares: 0, ..shares });
    }
    let response = Response::new().add_message(payment);
    proof {
        assert(response@.messages =~= claim_messages(old(deps)@.storage, variant, receiver@));
    }
    Ok(response)
}

/// Why a resolution is rejected, if it is. The reasons are tried in this order.
pub open spec fn resolution_rejection(
    pre: DepsView,
    now: u64,
    sender: Seq<char>,
    variant: u128,
    receiver: Seq<char>,
) -> Option<ContractError> {
    let info = pre.storage.information;
    if sender != info.factory {
        Some(ContractError::OnlyFactory)
    } else if pre.querier.is_admin is None {
        Some(ContractError::QueryFailed)
    } else if !is_steward(info, receiver, pre.querier.is_admin->0) {
        Some(ContractError::ResolveNotPermitted)
    } else if now < info.market_end {
        Some(ContractError::BeforeDeadline)
    } else if variant > 1 {
        Some(ContractError::InvalidOutcome)
    } else if info.resolved {
        Some(ContractError::AlreadyResolved)
    } else {
        None
    }
}

/// The record after it is resolved to an outcome: the winning outcome is priced at one
/// whole, the other at nothing.
pub open spec fn settled(info: InformationView, variant: u128) -> InformationView {
    InformationView {
        yes_price: if variant == 1 {
            MULTIPLIER
        } else {
            0
        },
        no_price: if variant == 1 {
            0
        } else {
            MULTIPLIER
        },
        resolved: true,
        resolved_to: variant,
        ..info
    }
}

/// The report on a resolution for the registry, with the position at which the registry
/// lists the market among the active ones.
pub open spec fn resolution_report(
    info: InformationView,
    receiver: Seq<char>,
    market_index: u128,
) -> MessageView {
    MessageView::RecordStats {
        contract_addr: info.factory,
        amount: 0,
        account: receiver,
        stat_type: "resolve"@,
        data: seq![market_index],
    }
}

/// Resolves the market to the outcome `variant`, on the registry's call for the market's
/// owner or an admin, at or after the market's end. It can be done once.
pub fn resolve_market(
    deps: &mut Deps,
    env: &Env,
    info_: &MessageInfo,
    variant: u128,
    receiver: String,
    market_index: u128,
) -> (r: Result<Response, ContractError>)
    ensures
        match resolution_rejection(old(deps)@, env.block_time, info_.sender@, variant, receiver@) {
            Some(e) => r == Err::<Response, ContractError>(e) && *final(deps) == *old(deps),
            None => r is Ok && r->Ok_0@ == sending(seq![
                resolution_report(old(deps)@.storage.information, receiver@, market_index),
            ]) && final(deps)@.storage == (StorageView {
                information: settled(old(deps)@.storage.information, variant),
                ..old(deps)@.storage
            }) && final(deps).querier == old(deps).querier,
        },
{
    if info_.sender != deps.storage.information.factory {
        return Err(ContractError::OnlyFactory);
    }
    let is_admin = match deps.querier.is_admin {
        Some(b) => b,
        None => {
            return Err(ContractError::QueryFailed);
        },
    };
    if receiver != deps.storage.information.owner && !is_admin {
        return Err(ContractError::ResolveNotPermitted);
    }
    if env.block_time < deps.storage.information.market_end {
        return Err(ContractError::BeforeDeadline);
    }
    if variant > 1 {
        return Err(ContractError::InvalidOutcome);
    }
    if deps.storage.information.resolved {
        return Err(ContractError::AlreadyResolved);
    }
    let data = vec![market_index];
    assert(data@ =~= seq![market_index]);
    let stats = Message::RecordStats {
        contract_addr: deps.storage.information.factory.clone(),
        amount: 0,
        account: receiver.clone(),
        stat_type: "resolve".to_string(),
        data,
    };
    let response = Response::new().add_message(stats);
    proof {
        assert(response@.messages =~= seq![
            resolution_report(deps@.storage.information, receiver@, market_index),
        ]);
    }
    if variant == 1 {
        deps.storage.information.yes_price = MULTIPLIER;
        deps.storage.information.no_price = 0;
    } else {
        deps.storage.information.no_price = MULTIPLIER;
        deps.storage.information.yes_price = 0;
    }
    deps.storage.information.resolved = true;
    deps.storage.information.resolved_to = variant;
    Ok(response)
}

} // verus!
