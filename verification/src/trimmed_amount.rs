//! Bounded-precision representation of token amounts crossing chains.
//!
//! Chains disagree on how many decimals a token carries, and the wire format
//! caps precision at [`TRIMMED_DECIMALS`] digits. Encoding truncates an
//! amount down to the wire precision and reports the truncated-away residual;
//! decoding scales a wire amount back up to a chain's native precision.
//! Truncation never rounds up, so a bridge can never mint more than was
//! debited.

use vstd::prelude::*;
use vstd::arithmetic::div_mod::{lemma_fundamental_div_mod, lemma_small_mod, lemma_basic_div};
use vstd::arithmetic::mul::{
    lemma_mul_inequality,
    lemma_mul_is_commutative,
    lemma_mul_is_distributive_add_other_way,
};
use crate::error::NttError;

verus! {

/// Maximum number of decimal digits an amount keeps on the wire.
pub const TRIMMED_DECIMALS: u8 = 8;

/// Ten to the power `e`.
pub open spec fn pow10(e: nat) -> nat
    decreases e,
{
    if e == 0 {
        1
    } else {
        10 * pow10((e - 1) as nat)
    }
}

pub proof fn lemma_pow10_positive(e: nat)
    ensures
        pow10(e) >= 1,
    decreases e,
{
    if e > 0 {
        lemma_pow10_positive((e - 1) as nat);
    }
}

pub proof fn lemma_pow10_monotone(a: nat, b: nat)
    requires
        a <= b,
    ensures
        pow10(a) <= pow10(b),
    decreases b,
{
    if a < b {
        lemma_pow10_monotone(a, (b - 1) as nat);
        lemma_pow10_positive((b - 1) as nat);
    }
}

/// The wire precision used between a chain with `from_decimals` and one with
/// `to_decimals`: the smaller of the two, capped at [`TRIMMED_DECIMALS`].
pub open spec fn spec_trim_target(from_decimals: u8, to_decimals: u8) -> u8 {
    let m = if from_decimals <= to_decimals {
        from_decimals
    } else {
        to_decimals
    };
    if m <= TRIMMED_DECIMALS {
        m
    } else {
        TRIMMED_DECIMALS
    }
}

/// The truncated quotient an encode produces.
pub open spec fn spec_trimmed(amount: u64, from_decimals: u8, to_decimals: u8) -> nat {
    amount as nat / pow10((from_decimals - spec_trim_target(from_decimals, to_decimals)) as nat)
}

/// The truncated-away remainder an encode reports.
pub open spec fn spec_residual(amount: u64, from_decimals: u8, to_decimals: u8) -> nat {
    amount as nat % pow10((from_decimals - spec_trim_target(from_decimals, to_decimals)) as nat)
}

/// An amount at wire precision: `amount` units of `10^-decimals`.
#[derive(Clone, Copy, Debug, PartialEq, Eq, Structural)]
pub struct TrimmedAmount {
    pub amount: u64,
    pub decimals: u8,
}

/// The mathematical value a decode produces: scaling up multiplies, scaling
/// down truncates.
pub open spec fn spec_scaled(ta: TrimmedAmount, to_decimals: u8) -> nat {
    if to_decimals >= ta.decimals {
        ta.amount as nat * pow10((to_decimals - ta.decimals) as nat)
    } else {
        ta.amount as nat / pow10((ta.decimals - to_decimals) as nat)
    }
}

/// `10^e` as a `u64`, or `None` when it does not fit.
fn checked_pow10(e: u8) -> (r: Option<u64>)
    ensures
        r matches Some(v) ==> v == pow10(e as nat),
        r is None ==> pow10(e as nat) > u64::MAX,
{
    let mut acc: u64 = 1;
    let mut k: u8 = 0;
    while k < e
        invariant
            0 <= k <= e,
            acc == pow10(k as nat),
        decreases e - k,
    {
        if acc > u64::MAX / 10 {
            proof {
                lemma_pow10_monotone((k + 1) as nat, e as nat);
            }
            return None;
        }
        acc = acc * 10;
        k += 1;
    }
    Some(acc)
}

impl TrimmedAmount {
    /// Normalizes `amount`, carried with `from_decimals` decimals, for the
    /// wire between this chain and one using `to_decimals` decimals.
    ///
    /// Returns the trimmed amount together with the residual that truncation
    /// dropped; fails with `AmountTooLarge` exactly when scaling the trimmed
    /// value back up to `to_decimals` on the far side would overflow 64 bits.
    pub fn encode(amount: u64, from_decimals: u8, to_decimals: u8) -> (r: Result<
        (TrimmedAmount, u64),
        NttError,
    >)
        ensures
            ({
                let t = spec_trim_target(from_decimals, to_decimals);
                let q = spec_trimmed(amount, from_decimals, to_decimals);
                let res = spec_residual(amount, from_decimals, to_decimals);
                &&& (r matches Ok((ta, dust)) ==> ta.amount == q && ta.decimals == t && dust == res)
                &&& (r is Ok <==> q * pow10((to_decimals - t) as nat) <= u64::MAX)
                &&& (r is Err ==> r == Err::<(TrimmedAmount, u64), NttError>(
                    NttError::AmountTooLarge,
                ))
            }),
    {
        let target = trim_target(from_decimals, to_decimals);
        let down = from_decimals - target;
        let ghost p = pow10(down as nat);
        proof {
            lemma_pow10_positive(down as nat);
        }
        let divisor_opt = checked_pow10(down);
        let q: u64 = match divisor_opt {
            Some(d) => amount / d,
            None => 0,
        };
        let rem: u64 = match divisor_opt {
            Some(d) => amount % d,
            None => amount,
        };
        proof {
            if divisor_opt is None {
                lemma_basic_div_small(amount as int, p as int);
                lemma_small_mod(amount as nat, p);
            }
        }
        let up = to_decimals - target;
        if q == 0 {
            proof {
                lemma_pow10_positive(up as nat);
            }
            return Ok((TrimmedAmount { amount: 0, decimals: target }, rem));
        }
        match checked_pow10(up) {
            None => {
                proof {
                    lemma_pow10_positive(up as nat);
                    lemma_mul_inequality(1, q as int, pow10(up as nat) as int);
                    lemma_mul_is_commutative(q as int, pow10(up as nat) as int);
                }
                Err(NttError::AmountTooLarge)
            },
            Some(factor) => {
                proof {
                    lemma_pow10_positive(up as nat);
                }
                if q > u64::MAX / factor {
                    proof {
                        lemma_mul_div_equivalence(q as int, factor as int, u64::MAX as int);
                    }
                    Err(NttError::AmountTooLarge)
                } else {
                    proof {
                        lemma_mul_div_equivalence(q as int, factor as int, u64::MAX as int);
                    }
                    Ok((TrimmedAmount { amount: q, decimals: target }, rem))
                }
            },
        }
    }

    /// Scales the wire amount to a chain using `to_decimals` decimals.
    ///
    /// Scaling up fails with `AmountOverflow` exactly when the product
    /// overflows 64 bits; scaling down truncates and cannot fail.
    pub fn decode(&self, to_decimals: u8) -> (r: Result<u64, NttError>)
        ensures
            r matches Ok(v) ==> v == spec_scaled(*self, to_decimals),
            r is Ok <==> (to_decimals < self.decimals || spec_scaled(*self, to_decimals)
                <= u64::MAX),
            r is Err ==> r == Err::<u64, NttError>(NttError::AmountOverflow),
    {
        if to_decimals >= self.decimals {
            let up = to_decimals - self.decimals;
            let ghost p = pow10(up as nat);
            if self.amount == 0 {
                return Ok(0);
            }
            match checked_pow10(up) {
                None => {
                    proof {
                        lemma_pow10_positive(up as nat);
                        lemma_mul_inequality(1, self.amount as int, p as int);
                        lemma_mul_is_commutative(self.amount as int, p as int);
                    }
                    Err(NttError::AmountOverflow)
                },
                Some(factor) => {
                    proof {
                        lemma_pow10_positive(up as nat);
                    }
                    if self.amount > u64::MAX / factor {
                        proof {
                            lemma_mul_div_equivalence(
                                self.amount as int,
                                factor as int,
                                u64::MAX as int,
                            );
                        }
                        Err(NttError::AmountOverflow)
                    } else {
                        proof {
                            lemma_mul_div_equivalence(
                                self.amount as int,
                                factor as int,
                                u64::MAX as int,
                            );
                        }
                        Ok(self.amount * factor)
                    }
                },
            }
        } else {
            let down = self.decimals - to_decimals;
            let ghost p = pow10(down as nat);
            proof {
                lemma_pow10_positive(down as nat);
            }
            match checked_pow10(down) {
                None => {
                    proof {
                        lemma_basic_div_small(self.amount as int, p as int);
                    }
                    Ok(0)
                },
                Some(factor) => Ok(self.amount / factor),
            }
        }
    }
}

/// The wire precision, as executable code.
fn trim_target(from_decimals: u8, to_decimals: u8) -> (r: u8)
    ensures
        r == spec_trim_target(from_decimals, to_decimals),
        r <= from_decimals,
        r <= to_decimals,
        r <= TRIMMED_DECIMALS,
{
    let m = if from_decimals <= to_decimals {
        from_decimals
    } else {
        to_decimals
    };
    if m <= TRIMMED_DECIMALS {
        m
    } else {
        TRIMMED_DECIMALS
    }
}

/// Division of a nonnegative value by a larger divisor yields zero.
proof fn lemma_basic_div_small(x: int, d: int)
    requires
        0 <= x < d,
    ensures
        x / d == 0,
{
    lemma_basic_div(x, d);
}

/// For positive `f`, the quotient test `q <= max / f` decides whether
/// `q * f` stays within `max`.
proof fn lemma_mul_div_equivalence(q: int, f: int, max: int)
    requires
        1 <= f,
        0 <= q,
        0 <= max,
    ensures
        (q <= max / f) <==> (q * f <= max),
{
    lemma_fundamental_div_mod(max, f);
    if q <= max / f {
        lemma_mul_inequality(q, max / f, f);
        lemma_mul_is_commutative(max / f, f);
    }
    if q > max / f {
        lemma_mul_inequality(max / f + 1, q, f);
        lemma_mul_is_distributive_add_other_way(f, max / f, 1);
        lemma_mul_is_commutative(max / f, f);
    }
}

/// Trimming and then restoring at the source precision returns exactly the
/// amount minus the reported residual, and the residual stays below one unit
/// of the dropped precision: a round trip can never over-return.
pub proof fn lemma_trim_then_restore(amount: u64, from_decimals: u8, to_decimals: u8)
    ensures
        ({
            let t = spec_trim_target(from_decimals, to_decimals);
            let p = pow10((from_decimals - t) as nat);
            let q = spec_trimmed(amount, from_decimals, to_decimals);
            let res = spec_residual(amount, from_decimals, to_decimals);
            &&& q * p + res == amount
            &&& res < p
            &&& q * p <= amount
        }),
{
    let t = spec_trim_target(from_decimals, to_decimals);
    let p = pow10((from_decimals - t) as nat);
    lemma_pow10_positive((from_decimals - t) as nat);
    lemma_fundamental_div_mod(amount as int, p as int);
    lemma_mul_is_commutative(p as int, amount as int / p as int);
}

} // verus!
