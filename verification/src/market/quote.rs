use crate::error::ContractError;
use crate::host::Env;
use crate::market::state::Deps;
use crate::math::{fits, BASIS_POINTS, MULTIPLIER};
use crate::packages::market::{InformationView, Quote};
use vstd::prelude::*;

verus! {

/// By how many basis points a reserve grows when `moved` is added to it:
/// `BASIS_POINTS * (reserve + moved) / reserve - BASIS_POINTS`, rounded down.
pub open spec fn impact_of(reserve: u128, moved: u128) -> Result<u128, ContractError> {
    if !fits(BASIS_POINTS * (reserve + moved)) {
        Err(ContractError::Overflow)
    } else if reserve == 0 {
        Err(ContractError::DivideByZero)
    } else {
        Ok((BASIS_POINTS * (reserve + moved) / (reserve as int) - BASIS_POINTS) as u128)
    }
}

/// The quote for paying `amount` into the reserve of one outcome, `other` being the reserve
/// of the other outcome. The payment joins the reserve, the new price is the grown reserve's
/// part of both reserves, the payment buys shares at the new price, and 2% of them are the
/// fee. Every product and sum must fit 128 bits, and no division may be by zero; the
/// failures are named in the order in which the steps meet them.
#[verifier::opaque]
pub open spec fn buy_quote(reserve: u128, other: u128, amount: u128) -> Result<
    Quote,
    ContractError,
> {
    let grown = reserve + amount;
    match impact_of(reserve, amount) {
        Err(e) => Err(e),
        Ok(impact) => if !fits(MULTIPLIER * grown) || !fits(grown + other) {
            Err(ContractError::Overflow)
        } else {
            let price = MULTIPLIER * grown / (grown + other);
            if price == 0 {
                Err(ContractError::DivideByZero)
            } else {
                let minted = amount * MULTIPLIER / price;
                if !fits(2 * minted) {
                    Err(ContractError::Overflow)
                } else {
                    let fees = 2 * minted / 100;
                    Ok(
                        Quote {
                            amount_out: (minted - fees) as u128,
                            impact,
                            price: price as u128,
                            fees: fees as u128,
                        },
                    )
                }
            }
        },
    }
}

/// The quote for redeeming `amount` shares of an outcome that trades at `price` and has
/// the reserve `reserve`, `other` being the reserve of the other outcome. What the shares
/// are worth at the present price leaves the reserve, the new price is the shrunk reserve's
/// part of both reserves, the shares are paid at the new price, and 2% of the payment are
/// the fee. The impact is that of the amount that leaves. Every product and sum must fit
/// 128 bits, and no division may be by zero; the failures are named in the order in which
/// the steps meet them.
#[verifier::opaque]
pub open spec fn sell_quote(reserve: u128, other: u128, price: u128, amount: u128) -> Result<
    Quote,
    ContractError,
> {
    if !fits(amount * price) {
        Err(ContractError::Overflow)
    } else {
        let expected = amount * price / (MULTIPLIER as int);
        match impact_of(reserve, expected as u128) {
            Err(e) => Err(e),
            Ok(impact) => if expected > reserve {
                Err(ContractError::Overflow)
            } else {
                let left = reserve - expected;
                if !fits(MULTIPLIER * left) || !fits(left + other) {
                    Err(ContractError::Overflow)
                } else if left + other == 0 {
                    Err(ContractError::DivideByZero)
                } else {
                    let new_price = MULTIPLIER * left / (left + other);
                    if !fits(amount * new_price) {
                        Err(ContractError::Overflow)
                    } else {
                        let output = amount * new_price / (MULTIPLIER as int);
                        let fees = 2 * output / 100;
                        Ok(
                            Quote {
                                amount_out: (output - fees) as u128,
                                impact,
                                price: new_price as u128,
                                fees: fees as u128,
                            },
                        )
                    }
                }
            },
        }
    }
}

/// The reserve behind an outcome: 1 is Yes, anything else No.
pub open spec fn reserve_of(info: InformationView, variant: u128) -> u128 {
    if variant == 1 {
        info.yes_liquidity
    } else {
        info.no_liquidity
    }
}

/// The price of an outcome.
pub open spec fn price_of(info: InformationView, variant: u128) -> u128 {
    if variant == 1 {
        info.yes_price
    } else {
        info.no_price
    }
}

/// The shares of an outcome that are outstanding.
pub open spec fn minted_of(info: InformationView, variant: u128) -> u128 {
    if variant == 1 {
        info.yes_shares
    } else {
        info.no_shares
    }
}

/// What a trade against the market's reserves would give.
pub open spec fn quote_of(
    info: InformationView,
    variant: u128,
    buy_or_sell: u128,
    amount: u128,
) -> Result<Quote, ContractError> {
    if variant > 1 {
        Err(ContractError::InvalidVariant)
    } else if buy_or_sell > 1 {
        Err(ContractError::InvalidSide)
    } else if buy_or_sell == 1 {
        buy_quote(reserve_of(info, variant), reserve_of(info, (1 - variant) as u128), amount)
    } else {
        sell_quote(
            reserve_of(info, variant),
            reserve_of(info, (1 - variant) as u128),
            price_of(info, variant),
            amount,
        )
    }
}

/// A quotient of naturals is not above its numerator's share: `n * a / (a + b) <= n`.
pub proof fn lemma_share_bounded(n: int, a: int, b: int)
    requires
        0 <= n,
        0 <= a,
        0 <= b,
        0 < a + b,
    ensures
        0 <= n * a / (a + b) <= n,
{
    assert(n * a <= n * (a + b)) by (nonlinear_arith)
        requires
            0 <= n,
            0 <= a,
            0 <= b,
    ;
    assert(0 <= n * a) by (nonlinear_arith)
        requires
            0 <= n,
            0 <= a,
    ;
    vstd::arithmetic::div_mod::lemma_div_is_ordered(n * a, n * (a + b), a + b);
    vstd::arithmetic::div_mod::lemma_div_multiples_vanish(n, a + b);
    assert(n * (a + b) == (a + b) * n) by (nonlinear_arith);
    vstd::arithmetic::div_mod::lemma_div_pos_is_pos(n * a, a + b);
}

/// The price impact of adding `amount_b` to a reserve of `amount_a`, in basis points.
pub fn calculate_impact(amount_a: u128, amount_b: u128) -> (r: Result<u128, ContractError>)
    ensures
        r == impact_of(amount_a, amount_b),
{
    let new_sum = match amount_a.checked_add(amount_b) {
        Some(v) => v,
        None => {
            return Err(ContractError::Overflow);
        },
    };
    let scaled = match BASIS_POINTS.checked_mul(new_sum) {
        Some(v) => v,
        None => {
            return Err(ContractError::Overflow);
        },
    };
    if amount_a == 0 {
        return Err(ContractError::DivideByZero);
    }
    let ratio = scaled / amount_a;
    proof {
        let a = amount_a as int;
        let b = amount_b as int;
        assert(BASIS_POINTS * (a + b) == a * (BASIS_POINTS as int) + BASIS_POINTS * b)
            by (nonlinear_arith);
        assert(0 <= BASIS_POINTS * b) by (nonlinear_arith)
            requires
                0 <= b,
        ;
        vstd::arithmetic::div_mod::lemma_div_is_ordered(
            a * (BASIS_POINTS as int),
            BASIS_POINTS * (a + b),
            a,
        );
        vstd::arithmetic::div_mod::lemma_div_multiples_vanish(BASIS_POINTS as int, a);
    }
    Ok(ratio - BASIS_POINTS)
}

/// Quotes a purchase.
fn quote_buy(reserve: u128, other: u128, amount: u128) -> (r: Result<Quote, ContractError>)
    ensures
        r == buy_quote(reserve, other, amount),
{
    reveal(buy_quote);
    let impact = match calculate_impact(reserve, amount) {
        Ok(v) => v,
        Err(e) => {
            return Err(e);
        },
    };
    assert(reserve + amount <= u128::MAX) by {
        assert(reserve + amount <= BASIS_POINTS * (reserve + amount));
    }
    let grown = reserve + amount;
    let scaled = match MULTIPLIER.checked_mul(grown) {
        Some(v) => v,
        None => {
            return Err(ContractError::Overflow);
        },
    };
    let total = match grown.checked_add(other) {
        Some(v) => v,
        None => {
            return Err(ContractError::Overflow);
        },
    };
    let price = scaled / total;
    if price == 0 {
        return Err(ContractError::DivideByZero);
    }
    assert(amount * MULTIPLIER <= MULTIPLIER * grown);
    let minted = (amount * MULTIPLIER) / price;
    let doubled = match minted.checked_mul(2) {
        Some(v) => v,
        None => {
            return Err(ContractError::Overflow);
        },
    };
    let fees = doubled / 100;
    assert(minted * 2 == 2 * minted);
    Ok(Quote { amount_out: minted - fees, impact, price, fees })
}

/// Quotes a sale.
fn quote_sell(reserve: u128, other: u128, price: u128, amount: u128) -> (r: Result<
    Quote,
    ContractError,
>)
    ensures
        r == sell_quote(reserve, other, price, amount),
{
    reveal(sell_quote);
    let product = match amount.checked_mul(price) {
        Some(v) => v,
        None => {
            return Err(ContractError::Overflow);
        },
    };
    let expected = product / MULTIPLIER;
    let impact = match calculate_impact(reserve, expected) {
        Ok(v) => v,
        Err(e) => {
            return Err(e);
        },
    };
    let left = match reserve.checked_sub(expected) {
        Some(v) => v,
        None => {
            return Err(ContractError::Overflow);
        },
    };
    let scaled = match MULTIPLIER.checked_mul(left) {
        Some(v) => v,
        None => {
            return Err(ContractError::Overflow);
        },
    };
    let total = match left.checked_add(other) {
        Some(v) => v,
        None => {
            return Err(ContractError::Overflow);
        },
    };
    if total == 0 {
        return Err(ContractError::DivideByZero);
    }
    let new_price = scaled / total;
    let paid = match amount.checked_mul(new_price) {
        Some(v) => v,
        None => {
            return Err(ContractError::Overflow);
        },
    };
    let output = paid / MULTIPLIER;
    let fees = (2 * output) / 100;
    Ok(Quote { amount_out: output - fees, impact, price: new_price, fees })
}

/// What buying (`buy_or_sell` 1) or selling (0) `amount` of the outcome `variant` (1 for
/// Yes, 0 for No) would give at the market's present reserves. Nothing is changed.
pub fn quote(deps: &Deps, _env: &Env, variant: u128, buy_or_sell: u128, amount: u128) -> (r: Result<
    Quote,
    ContractError,
>)
    ensures
        r == quote_of(deps@.storage.information, variant, buy_or_sell, amount),
{
    if variant > 1 {
        return Err(ContractError::InvalidVariant);
    }
    if buy_or_sell > 1 {
        return Err(ContractError::InvalidSide);
    }
    let info = &deps.storage.information;
    if variant == 1 {
        if buy_or_sell == 1 {
            quote_buy(info.yes_liquidity, info.no_liquidity, amount)
        } else {
            quote_sell(info.yes_liquidity, info.no_liquidity, info.yes_price, amount)
        }
    } else {
        if buy_or_sell == 1 {
            quote_buy(info.no_liquidity, info.yes_liquidity, amount)
        } else {
            quote_sell(info.no_liquidity, info.yes_liquidity, info.no_price, amount)
        }
    }
}

} // verus!
