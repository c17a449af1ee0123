//! Pure arithmetic that turns burn totals into basis-point figures.
use vstd::prelude::*;

verus! {

/// 100% expressed in basis points.
pub const BASIS_POINTS: u64 = 10000;

/// Largest boost that burning can add, in basis points (50%).
pub const MAX_BOOST: u64 = 5000;

/// Share of `initial_supply` that `total_burned` makes up, in basis points,
/// rounded down.
pub open spec fn burned_bp(total_burned: int, initial_supply: int) -> int {
    (total_burned * 10000) / initial_supply
}

/// Boost earned by a burned share of `pct_bp` basis points: a tenth of it,
/// capped at `MAX_BOOST`.
pub open spec fn boost_bp(pct_bp: int) -> int {
    if (pct_bp * 10) / 100 < MAX_BOOST {
        (pct_bp * 10) / 100
    } else {
        MAX_BOOST as int
    }
}

/// Boost multiplier for a burned share of `pct_bp` basis points.
pub open spec fn multiplier_bp(pct_bp: int) -> int {
    BASIS_POINTS + boost_bp(pct_bp)
}

/// Multiplier that a token with these counters carries.
pub open spec fn multiplier_for(total_burned: int, initial_supply: int) -> int {
    multiplier_bp(burned_bp(total_burned, initial_supply))
}

/// Market cap shown for a base market cap scaled by a multiplier.
pub open spec fn market_cap(base: int, mult_bp: int) -> int {
    (base * mult_bp) / 10000
}

/// Errors of the arithmetic helpers.
#[derive(Clone, Copy, Debug, PartialEq, Eq, Structural)]
pub enum CalcError {
    /// A divisor was zero.
    DivisionByZero,
    /// A result does not fit in 64 bits.
    Overflow,
}

/// Burned share in basis points: `total_burned * 10000 / initial_supply`,
/// multiplied before dividing in 128-bit arithmetic.
pub fn burned_percentage(total_burned: u64, initial_supply: u64) -> (r: Result<u64, CalcError>)
    ensures
        initial_supply == 0 ==> r == Err::<u64, CalcError>(CalcError::DivisionByZero),
        initial_supply > 0 && burned_bp(total_burned as int, initial_supply as int) <= u64::MAX
            ==> r == Ok::<u64, CalcError>(burned_bp(total_burned as int, initial_supply as int) as u64),
        initial_supply > 0 && burned_bp(total_burned as int, initial_supply as int) > u64::MAX
            ==> r == Err::<u64, CalcError>(CalcError::Overflow),
{
    if initial_supply == 0 {
        return Err(CalcError::DivisionByZero);
    }
    assert((total_burned as int) * 10000 <= u64::MAX as int * 10000) by (nonlinear_arith);
    let scaled: u128 = total_burned as u128 * 10000;
    let pct: u128 = scaled / initial_supply as u128;
    if pct > u64::MAX as u128 {
        Err(CalcError::Overflow)
    } else {
        Ok(pct as u64)
    }
}

/// Boost multiplier for a burned share: `10000 + min(pct_bp * 10 / 100, 5000)`.
pub fn boost_multiplier(pct_bp: u64) -> (r: u64)
    ensures
        r == multiplier_bp(pct_bp as int),
        BASIS_POINTS <= r <= BASIS_POINTS + MAX_BOOST,
{
    let boost: u128 = (pct_bp as u128 * 10) / 100;
    if boost < MAX_BOOST as u128 {
        BASIS_POINTS + boost as u64
    } else {
        BASIS_POINTS + MAX_BOOST
    }
}

/// Market cap scaled by a multiplier: `base * mult_bp / 10000`, multiplied
/// before dividing in 128-bit arithmetic.
pub fn current_market_cap(base: u64, mult_bp: u64) -> (r: Result<u64, CalcError>)
    ensures
        market_cap(base as int, mult_bp as int) <= u64::MAX
            ==> r == Ok::<u64, CalcError>(market_cap(base as int, mult_bp as int) as u64),
        market_cap(base as int, mult_bp as int) > u64::MAX
            ==> r == Err::<u64, CalcError>(CalcError::Overflow),
{
    assert((base as int) * (mult_bp as int) <= (u64::MAX as int) * (u64::MAX as int))
        by (nonlinear_arith);
    let cap: u128 = (base as u128 * mult_bp as u128) / 10000;
    if cap > u64::MAX as u128 {
        Err(CalcError::Overflow)
    } else {
        Ok(cap as u64)
    }
}

/// Boost part of a multiplier: `mult_bp - 10000`.
pub fn boost_percentage(mult_bp: u64) -> (r: u64)
    requires
        mult_bp >= BASIS_POINTS,
    ensures
        r == mult_bp - BASIS_POINTS,
{
    mult_bp - BASIS_POINTS
}

} // verus!
