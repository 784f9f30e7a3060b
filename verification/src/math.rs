use vstd::prelude::*;

verus! {

/// One whole, in the fixed-point scale of prices: a price of `MULTIPLIER` is certainty.
pub const MULTIPLIER: u128 = 100_000_000;

/// One whole, in basis points.
pub const BASIS_POINTS: u128 = 10_000;

/// The least amount of settlement currency a pool is bootstrapped with, and the least an
/// open market keeps.
pub const MINIMUM_LIQUIDITY: u128 = 10_000_000;

/// The largest price impact an order may have, in basis points.
pub const MAXIMUM_IMPACT: u128 = 500;

/// For how many seconds from its end a market takes no orders.
pub const RESOLVE_DURATION: u64 = 180;

/// Whether an integer can be held in 128 unsigned bits.
pub open spec fn fits(x: int) -> bool {
    0 <= x <= u128::MAX
}

/// Whether `r` is the integer square root of `n`: the largest integer whose square is not
/// above `n`.
pub open spec fn is_integer_sqrt(n: int, r: int) -> bool {
    0 <= r && r * r <= n < (r + 1) * (r + 1)
}

/// The integer square root of a natural number.
pub open spec fn integer_sqrt(n: int) -> int {
    choose|r: int| is_integer_sqrt(n, r)
}

/// A number has one integer square root only.
pub proof fn lemma_integer_sqrt(n: int, r: int)
    requires
        is_integer_sqrt(n, r),
    ensures
        integer_sqrt(n) == r,
{
    let c = integer_sqrt(n);
    assert(is_integer_sqrt(n, c));
    if c < r {
        assert((c + 1) * (c + 1) <= r * r) by (nonlinear_arith)
            requires
                0 <= c + 1 <= r,
        ;
    }
    if r < c {
        assert((r + 1) * (r + 1) <= c * c) by (nonlinear_arith)
            requires
                0 <= r + 1 <= c,
        ;
    }
}

/// The integer square root that `cosmwasm_std::Isqrt::isqrt` computes for a `u128`: the
/// largest integer whose square is not above `n`.
#[verifier::external_body]
pub(crate) fn isqrt(n: u128) -> (r: u128)
    ensures
        r * r <= n < (r + 1) * (r + 1),
{
    cosmwasm_std::Isqrt::isqrt(n)
}

} // verus!
