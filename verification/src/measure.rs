//! What one timed workload yields, and the numbers derived from it.
//!
//! Elapsed time is kept in whole nanoseconds as the clock gave it. The two
//! printed quantities are exact quotients rounded to the nearest unit of
//! their last printed digit, halves rounded up.

use crate::workload::Workload;
use vstd::prelude::*;

verus! {

/// Hundredths of an operation per second in one operation per nanosecond.
pub const RATE_SCALE: u128 = 100_000_000_000;

/// Nanoseconds in a ten-thousandth of a second.
pub const TIME_UNIT: u128 = 100_000;

/// The quotient `num / den` rounded to the nearest whole number, halves
/// rounded up. Meaningful for a positive `den`.
pub open spec fn nearest(num: nat, den: nat) -> nat {
    (2 * num + den) / (2 * den)
}

/// Throughput in hundredths of an operation per second. Meaningful for a
/// positive elapsed time.
pub open spec fn rate_hundredths(operations: nat, nanos: nat) -> nat {
    nearest(operations * (RATE_SCALE as nat), nanos)
}

/// Elapsed time in ten-thousandths of a second.
pub open spec fn time_ten_thousandths(nanos: nat) -> nat {
    nearest(nanos, TIME_UNIT as nat)
}

/// Whether `r` is within one half of the exact quotient `num / den`, the
/// upper end excluded: `r - 1/2 <= num / den < r + 1/2`.
pub open spec fn is_nearest(num: nat, den: nat, r: nat) -> bool {
    2 * den * r - den <= 2 * num < 2 * den * r + den
}

/// The rounded quotient lies within one half of the exact quotient, and a
/// quotient that lies exactly between two whole numbers goes to the larger.
pub proof fn lemma_nearest(num: nat, den: nat)
    requires
        den > 0,
    ensures
        is_nearest(num, den, nearest(num, den)),
{
    let x = (2 * num + den) as int;
    let d = (2 * den) as int;
    vstd::arithmetic::div_mod::lemma_fundamental_div_mod(x, d);
    vstd::arithmetic::div_mod::lemma_mod_bound(x, d);
    assert(2 * den * nearest(num, den) == d * (x / d)) by (nonlinear_arith)
        requires
            d == 2 * den,
            nearest(num, den) == x / d,
    ;
}

/// Only one whole number is that close to the exact quotient.
pub proof fn lemma_nearest_unique(num: nat, den: nat, r: nat)
    requires
        den > 0,
        is_nearest(num, den, r),
    ensures
        r == nearest(num, den),
{
    let x = (2 * num + den) as int;
    let d = (2 * den) as int;
    let rem = x - 2 * den * r;
    assert(x == r * d + rem) by (nonlinear_arith)
        requires
            rem == x - 2 * den * r,
            d == 2 * den,
    ;
    vstd::arithmetic::div_mod::lemma_fundamental_div_mod_converse(x, d, r as int, rem);
}

/// The quotient `num / den` rounded to the nearest whole number, halves
/// rounded up; nothing where `den` is zero.
pub fn rounded_quotient(num: u128, den: u128) -> (q: Option<u128>)
    ensures
        q is None <==> den == 0,
        den > 0 ==> q == Some(nearest(num as nat, den as nat) as u128),
        den > 0 ==> nearest(num as nat, den as nat) <= u128::MAX,
{
    if den == 0 {
        return None;
    }
    let whole: u128 = num / den;
    let rest: u128 = num % den;
    let up: bool = rest >= den - rest;
    proof {
        let bump: nat = if up {
            1
        } else {
            0
        };
        let r: nat = whole as nat + bump;
        vstd::arithmetic::div_mod::lemma_fundamental_div_mod(num as int, den as int);
        assert(2 * den * r == 2 * (den * whole) + 2 * den * bump) by (nonlinear_arith)
            requires
                r == whole + bump,
        ;
        lemma_nearest_unique(num as nat, den as nat, r);
        if up {
            assert(whole < u128::MAX) by {
                if den == 1 {
                    assert(rest == 0);
                } else {
                    assert(den * whole >= 2 * whole) by (nonlinear_arith)
                        requires
                            den >= 2,
                            whole >= 0,
                    ;
                }
            }
        }
    }
    if up {
        Some(whole + 1)
    } else {
        Some(whole)
    }
}

/// The throughput of a measurement.
#[derive(Clone, Copy, Debug, PartialEq, Eq, Structural)]
pub enum Throughput {
    /// So many hundredths of an operation per second.
    Finite { hundredths: u128 },
    /// Some operations in no time at all.
    Infinite,
    /// No operations in no time at all.
    Undefined,
}

/// One timed run of a workload.
#[derive(Clone, Copy, Debug, PartialEq, Eq, Structural)]
pub struct Measurement {
    /// The workload that ran.
    pub workload: Workload,
    /// How many elementary operations it performed.
    pub operations: u64,
    /// How long that took, in nanoseconds.
    pub nanos: u128,
}

impl Measurement {
    /// Puts a measurement together.
    pub fn new(workload: Workload, operations: u64, nanos: u128) -> (m: Measurement)
        ensures
            m == (Measurement { workload, operations, nanos }),
    {
        Measurement { workload, operations, nanos }
    }

    /// Operations per second, to the nearest hundredth. A run that took no
    /// measurable time has no finite throughput.
    pub fn throughput(&self) -> (t: Throughput)
        ensures
            match t {
                Throughput::Finite { hundredths } => self.nanos > 0 && hundredths
                    == rate_hundredths(self.operations as nat, self.nanos as nat),
                Throughput::Infinite => self.nanos == 0 && self.operations > 0,
                Throughput::Undefined => self.nanos == 0 && self.operations == 0,
            },
    {
        assert(self.operations * RATE_SCALE <= u128::MAX) by (nonlinear_arith)
            requires
                self.operations <= u64::MAX,
                RATE_SCALE == 100_000_000_000,
        ;
        let scaled: u128 = self.operations as u128 * RATE_SCALE;
        match rounded_quotient(scaled, self.nanos) {
            Some(hundredths) => Throughput::Finite { hundredths },
            None => {
                if self.operations > 0 {
                    Throughput::Infinite
                } else {
                    Throughput::Undefined
                }
            },
        }
    }

    /// Elapsed time to the nearest ten-thousandth of a second.
    pub fn elapsed(&self) -> (t: u128)
        ensures
            t == time_ten_thousandths(self.nanos as nat),
    {
        match rounded_quotient(self.nanos, TIME_UNIT) {
            Some(t) => t,
            None => 0,
        }
    }
}

/// The throughput of a run that took measurable time rounds to a positive
/// number of hundredths exactly when the run performed at least half a
/// hundredth of an operation per second; a slower run rounds to zero.
pub proof fn lemma_throughput_positive(operations: nat, nanos: nat)
    requires
        nanos > 0,
    ensures
        rate_hundredths(operations, nanos) > 0 <==> 2 * operations * RATE_SCALE >= nanos,
{
    lemma_nearest(operations * (RATE_SCALE as nat), nanos);
    let r = rate_hundredths(operations, nanos);
    if r > 0 {
        assert(2 * nanos * r >= 2 * nanos) by (nonlinear_arith)
            requires
                r >= 1,
                nanos > 0,
        ;
    } else {
        assert(2 * nanos * r == 0) by (nonlinear_arith)
            requires
                r == 0,
        ;
    }
}

} // verus!
