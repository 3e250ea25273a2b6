//! The arithmetic a filter sample type provides.
use vstd::prelude::*;

verus! {

/// A numeric sample type: a zero value, addition and multiplication.
///
/// Comparison comes from `PartialOrd`. Each operation is described by a spec
/// function, and the filter's contracts are stated over those.
pub trait Sample: Copy + PartialOrd + Sized {
    /// The zero value.
    spec fn zero_spec() -> Self;

    /// The sum of two samples.
    spec fn add_spec(a: Self, b: Self) -> Self;

    /// The product of two samples.
    spec fn mul_spec(a: Self, b: Self) -> Self;

    fn zero() -> (r: Self)
        ensures
            r == Self::zero_spec(),
    ;

    fn add(self, rhs: Self) -> (r: Self)
        ensures
            r == Self::add_spec(self, rhs),
    ;

    fn mul(self, rhs: Self) -> (r: Self)
        ensures
            r == Self::mul_spec(self, rhs),
    ;
}

/// The value of `x` brought into the range of `i64`: the nearest bound when
/// it lies outside.
pub open spec fn saturate_i64(x: int) -> i64 {
    if x < i64::MIN {
        i64::MIN
    } else if x > i64::MAX {
        i64::MAX
    } else {
        x as i64
    }
}

fn saturate_i128(x: i128) -> (r: i64)
    ensures
        r == saturate_i64(x as int),
{
    if x < i64::MIN as i128 {
        i64::MIN
    } else if x > i64::MAX as i128 {
        i64::MAX
    } else {
        x as i64
    }
}

/// Integer samples with saturating arithmetic: a sum or product that would
/// leave the range of `i64` stops at its nearest bound.
impl Sample for i64 {
    open spec fn zero_spec() -> i64 {
        0
    }

    open spec fn add_spec(a: i64, b: i64) -> i64 {
        saturate_i64(a + b)
    }

    open spec fn mul_spec(a: i64, b: i64) -> i64 {
        saturate_i64(a * b)
    }

    fn zero() -> (r: i64) {
        0
    }

    fn add(self, rhs: i64) -> (r: i64) {
        saturate_i128(self as i128 + rhs as i128)
    }

    fn mul(self, rhs: i64) -> (r: i64) {
        proof {
            assert(-0x4000_0000_0000_0000_0000_0000_0000_0000 <= (self as int) * (rhs as int)
                <= 0x4000_0000_0000_0000_0000_0000_0000_0000) by (nonlinear_arith)
                requires
                    i64::MIN <= self <= i64::MAX,
                    i64::MIN <= rhs <= i64::MAX,
            ;
        }
        saturate_i128(self as i128 * rhs as i128)
    }
}

} // verus!
