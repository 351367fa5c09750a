//! Fixed-point risk arithmetic. Values carry six decimals, ratios are in basis
//! points (10 000 = 100%), and every product is checked before it is divided.
use vstd::prelude::*;

use crate::errors::ProtocolError;

verus! {

/// One hundred percent, in basis points.
pub const BPS_SCALE: u64 = 10_000;

/// The unit of a six-decimal price or value.
pub const PRICE_SCALE: u64 = 1_000_000;

/// The number of decimals of the canonical value unit.
pub const CANONICAL_DECIMALS: u8 = 6;

pub open spec fn pow10(n: nat) -> nat
    decreases n,
{
    if n == 0 {
        1
    } else {
        10 * pow10((n - 1) as nat)
    }
}

/// Loan-to-value: `debt × 10 000 / total`, failing on a zero total or an overflowing product.
pub open spec fn ltv_result(total_value: u64, debt_value: u64) -> Result<u64, ProtocolError> {
    if total_value == 0 {
        Err(ProtocolError::InvalidAmount)
    } else if debt_value * 10_000 > u64::MAX {
        Err(ProtocolError::MathOverflow)
    } else {
        Ok((debt_value * 10_000 / total_value as int) as u64)
    }
}

/// Health factor: `collateral × 10 000 / debt`, or `u64::MAX` without debt.
pub open spec fn health_factor_result(collateral_value: u64, debt_value: u64) -> Result<
    u64,
    ProtocolError,
> {
    if debt_value == 0 {
        Ok(u64::MAX)
    } else if collateral_value * 10_000 > u64::MAX {
        Err(ProtocolError::MathOverflow)
    } else {
        Ok((collateral_value * 10_000 / debt_value as int) as u64)
    }
}

/// An amount of a token with `decimals` decimals, expressed with six decimals.
pub open spec fn rescaled_amount(amount: u64, decimals: u8) -> int {
    if decimals > 6 {
        amount as int / pow10((decimals - 6) as nat) as int
    } else {
        amount as int * pow10((6 - decimals) as nat) as int
    }
}

/// Value of `amount` at a six-decimal `price`, in six-decimal units.
pub open spec fn collateral_value_result(amount: u64, price: u64, decimals: u8) -> Result<
    u64,
    ProtocolError,
> {
    let scaled = rescaled_amount(amount, decimals);
    if scaled > u64::MAX || scaled * price > u64::MAX {
        Err(ProtocolError::MathOverflow)
    } else {
        Ok((scaled * price / 1_000_000int) as u64)
    }
}

/// The liquidator's share: `proceeds × penalty_bps / 10 000`.
pub open spec fn liquidation_penalty_result(total_proceeds: u64, penalty_bps: u16) -> Result<
    u64,
    ProtocolError,
> {
    if total_proceeds * penalty_bps > u64::MAX {
        Err(ProtocolError::MathOverflow)
    } else {
        Ok((total_proceeds * penalty_bps / 10_000int) as u64)
    }
}

proof fn lemma_pow10_monotonic(i: nat, j: nat)
    requires
        i <= j,
    ensures
        pow10(i) <= pow10(j),
    decreases j,
{
    if i < j {
        lemma_pow10_monotonic(i, (j - 1) as nat);
    }
}

proof fn lemma_pow10_19()
    ensures
        pow10(18) == 1_000_000_000_000_000_000,
        pow10(19) == 10_000_000_000_000_000_000,
        pow10(20) == 100_000_000_000_000_000_000,
{
    reveal_with_fuel(pow10, 21);
}

/// `10^n` for the exponents that fit in a `u64`.
fn pow10_u64(n: u8) -> (r: u64)
    requires
        n <= 19,
    ensures
        r == pow10(n as nat),
        r >= 1,
{
    proof {
        lemma_pow10_19();
        lemma_pow10_monotonic(0, n as nat);
    }
    let mut r: u64 = 1;
    let mut i: u8 = 0;
    while i < n
        invariant
            i <= n <= 19,
            r == pow10(i as nat),
            pow10(18) == 1_000_000_000_000_000_000,
        decreases n - i,
    {
        proof {
            lemma_pow10_monotonic(i as nat, 18);
        }
        r = r * 10;
        i = i + 1;
    }
    r
}

/// Loan-to-value ratio in basis points: `debt_value × 10 000 / total_value`.
pub fn calculate_ltv(collateral_value: u64, debt_value: u64) -> (r: Result<u64, ProtocolError>)
    ensures
        r == ltv_result(collateral_value, debt_value),
{
    if collateral_value == 0 {
        return Err(ProtocolError::InvalidAmount);
    }
    if debt_value > u64::MAX / BPS_SCALE {
        return Err(ProtocolError::MathOverflow);
    }
    Ok(debt_value * BPS_SCALE / collateral_value)
}

/// Health factor in basis points: `collateral_value × 10 000 / debt_value`;
/// a position without debt is unconditionally healthy.
pub fn calculate_health_factor(collateral_value: u64, debt_value: u64) -> (r: Result<
    u64,
    ProtocolError,
>)
    ensures
        r == health_factor_result(collateral_value, debt_value),
        debt_value == 0 ==> r == Ok::<u64, ProtocolError>(u64::MAX),
{
    if debt_value == 0 {
        return Ok(u64::MAX);
    }
    if collateral_value > u64::MAX / BPS_SCALE {
        return Err(ProtocolError::MathOverflow);
    }
    Ok(collateral_value * BPS_SCALE / debt_value)
}

/// Value of `collateral_amount` (a token with `decimals` decimals) at a
/// six-decimal `price`, in six-decimal units.
pub fn calculate_collateral_value(collateral_amount: u64, price: u64, decimals: u8) -> (r: Result<
    u64,
    ProtocolError,
>)
    ensures
        r == collateral_value_result(collateral_amount, price, decimals),
{
    let adjusted: u64;
    if decimals > CANONICAL_DECIMALS {
        let shift = decimals - CANONICAL_DECIMALS;
        if shift > 19 {
            proof {
                lemma_pow10_19();
                lemma_pow10_monotonic(20, shift as nat);
                let p = pow10(shift as nat) as int;
                assert(collateral_amount as int / p == 0) by (nonlinear_arith)
                    requires
                        0 <= collateral_amount < p,
                ;
            }
            adjusted = 0;
        } else {
            let divisor = pow10_u64(shift);
            adjusted = collateral_amount / divisor;
        }
    } else {
        let factor = pow10_u64(CANONICAL_DECIMALS - decimals);
        if collateral_amount > u64::MAX / factor {
            assert(collateral_amount * factor > u64::MAX) by (nonlinear_arith)
                requires
                    collateral_amount > u64::MAX / factor,
                    factor > 0,
            ;
            return Err(ProtocolError::MathOverflow);
        }
        assert(collateral_amount * factor <= u64::MAX) by (nonlinear_arith)
            requires
                collateral_amount <= u64::MAX / factor,
                factor > 0,
        ;
        adjusted = collateral_amount * factor;
    }
    assert(adjusted == rescaled_amount(collateral_amount, decimals));
    if adjusted != 0 && price > u64::MAX / adjusted {
        assert(adjusted * price > u64::MAX) by (nonlinear_arith)
            requires
                price > u64::MAX / adjusted,
                adjusted > 0,
        ;
        return Err(ProtocolError::MathOverflow);
    }
    assert(adjusted * price <= u64::MAX) by (nonlinear_arith)
        requires
            adjusted == 0 || price <= u64::MAX / adjusted,
    ;
    Ok(adjusted * price / PRICE_SCALE)
}

/// The liquidator's share of `total_proceeds`: `total_proceeds × penalty_bps / 10 000`.
pub fn calculate_liquidation_penalty(total_proceeds: u64, penalty_bps: u16) -> (r: Result<
    u64,
    ProtocolError,
>)
    ensures
        r == liquidation_penalty_result(total_proceeds, penalty_bps),
{
    let bps = penalty_bps as u64;
    if bps != 0 && total_proceeds > u64::MAX / bps {
        assert(total_proceeds * bps > u64::MAX) by (nonlinear_arith)
            requires
                total_proceeds > u64::MAX / bps,
                bps > 0,
        ;
        return Err(ProtocolError::MathOverflow);
    }
    assert(total_proceeds * bps <= u64::MAX) by (nonlinear_arith)
        requires
            bps == 0 || total_proceeds <= u64::MAX / bps,
    ;
    Ok(total_proceeds * bps / BPS_SCALE)
}

/// Loan-to-value of a position holding `collateral_amount` and owing
/// `debt_amount`, both priced at `price`: the debt's value over the value of
/// the whole position (collateral plus debt), in basis points.
pub open spec fn position_ltv_result(collateral_amount: u64, debt_amount: u64, price: u64, decimals: u8) -> Result<
    u64,
    ProtocolError,
> {
    match collateral_value_result(collateral_amount, price, decimals) {
        Err(e) => Err(e),
        Ok(collateral_value) => match collateral_value_result(debt_amount, price, decimals) {
            Err(e) => Err(e),
            Ok(debt_value) => if collateral_value + debt_value > u64::MAX {
                Err(ProtocolError::MathOverflow)
            } else {
                ltv_result((collateral_value + debt_value) as u64, debt_value)
            },
        },
    }
}

/// Loan-to-value of a position, in basis points: the value of `debt_amount`
/// over the value of `collateral_amount` and `debt_amount` together.
pub fn calculate_position_ltv(collateral_amount: u64, debt_amount: u64, price: u64, decimals: u8) -> (r:
    Result<u64, ProtocolError>)
    ensures
        r == position_ltv_result(collateral_amount, debt_amount, price, decimals),
{
    let collateral_value = match calculate_collateral_value(collateral_amount, price, decimals) {
        Ok(v) => v,
        Err(e) => {
            return Err(e);
        },
    };
    let debt_value = match calculate_collateral_value(debt_amount, price, decimals) {
        Ok(v) => v,
        Err(e) => {
            return Err(e);
        },
    };
    if collateral_value > u64::MAX - debt_value {
        return Err(ProtocolError::MathOverflow);
    }
    calculate_ltv(collateral_value + debt_value, debt_value)
}

} // verus!
