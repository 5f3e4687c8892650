//! The normalized value: a fraction between zero and one.

use crate::fixed::{clamp, div_toward_zero, lemma_product_bound, trunc_div, NORMAL_ONE};
use vstd::prelude::*;

verus! {

/// A value between zero and one inclusive, independent of any unit.
///
/// It is stored as a count of 1/4294967296 steps, so zero is `0` and one is
/// `4294967296`. The view of a normal is that count.
#[derive(Clone, Copy, Debug, PartialEq, Eq, Structural)]
pub struct Normal {
    bits: u64,
}

impl View for Normal {
    type V = int;

    closed spec fn view(&self) -> int {
        self.bits as int
    }
}

impl Normal {
    /// A normal never leaves the unit interval.
    #[verifier::type_invariant]
    pub open spec fn wf(self) -> bool {
        0 <= self@ <= NORMAL_ONE
    }

    /// Two normals with the same count are the same normal.
    pub proof fn lemma_view_injective(a: Normal, b: Normal)
        requires
            a@ == b@,
        ensures
            a == b,
    {
    }

    /// The normal nearest to `raw`, which counts 1/4294967296 steps: values
    /// below zero give zero, values above one give one.
    pub closed spec fn nearest(raw: int) -> Normal {
        Normal { bits: clamp(raw, 0, NORMAL_ONE as int) as u64 }
    }

    /// The normal nearest to a count is the count itself, clamped.
    pub proof fn lemma_nearest(raw: int)
        ensures
            Normal::nearest(raw)@ == clamp(raw, 0, NORMAL_ONE as int),
            Normal::nearest(raw).wf(),
    {
    }

    /// The normal nearest to `raw`, which counts 1/4294967296 steps: values
    /// below zero give zero, values above one give one.
    pub fn new(raw: i64) -> (n: Normal)
        ensures
            n == Normal::nearest(raw as int),
            n@ == clamp(raw as int, 0, NORMAL_ONE as int),
            n.wf(),
    {
        if raw < 0 {
            Normal { bits: 0 }
        } else if raw > 4294967296 {
            Normal { bits: 4294967296 }
        } else {
            Normal { bits: raw as u64 }
        }
    }

    /// Zero, the lowest normal.
    pub fn min() -> (n: Normal)
        ensures
            n@ == 0,
            n.wf(),
    {
        Normal { bits: 0 }
    }

    /// One, the highest normal.
    pub fn max() -> (n: Normal)
        ensures
            n@ == NORMAL_ONE,
            n.wf(),
    {
        Normal { bits: 4294967296 }
    }

    /// One half.
    pub fn center() -> (n: Normal)
        ensures
            n@ == NORMAL_ONE / 2,
            n.wf(),
    {
        Normal { bits: 2147483648 }
    }

    /// The count of 1/4294967296 steps that this normal stands for.
    pub fn bits(&self) -> (b: u64)
        ensures
            b == self@,
            b <= NORMAL_ONE,
    {
        proof {
            use_type_invariant(self);
        }
        self.bits
    }

    /// Replaces the value by the normal nearest to `raw`.
    pub fn set(&mut self, raw: i64)
        ensures
            *final(self) == Normal::nearest(raw as int),
            final(self)@ == clamp(raw as int, 0, NORMAL_ONE as int),
            final(self).wf(),
    {
        *self = Normal::new(raw);
    }

    /// The distance from the start of a span of `length` at which this normal
    /// lies, rounded toward zero.
    pub fn scale(&self, length: i64) -> (r: i64)
        ensures
            r == scaled(self@, length as int),
    {
        proof {
            use_type_invariant(self);
        }
        proof {
            lemma_product_bound(self@, length as int, 0x1_0000_0000, 0x8000_0000_0000_0000);
        }
        let product: i128 = (self.bits as i128) * (length as i128);
        let q: i128 = div_toward_zero(product, 4294967296);
        proof {
            lemma_scaled_bounds(self@, length as int);
        }
        q as i64
    }

    /// The distance from the end of a span of `length` at which this normal
    /// lies, rounded toward zero.
    pub fn scale_inv(&self, length: i64) -> (r: i64)
        ensures
            r == scaled(NORMAL_ONE - self@, length as int),
    {
        proof {
            use_type_invariant(self);
        }
        proof {
            lemma_product_bound(
                NORMAL_ONE - self@,
                length as int,
                0x1_0000_0000,
                0x8000_0000_0000_0000,
            );
        }
        let product: i128 = ((4294967296 - self.bits) as i128) * (length as i128);
        let q: i128 = div_toward_zero(product, 4294967296);
        proof {
            lemma_scaled_bounds(NORMAL_ONE - self@, length as int);
        }
        q as i64
    }
}

/// The part `n / 4294967296` of `length`, rounded toward zero.
pub open spec fn scaled(n: int, length: int) -> int {
    trunc_div(n * length, NORMAL_ONE as int)
}

/// Scaling by a normal never lengthens a span and keeps its direction.
pub proof fn lemma_scaled_bounds(n: int, length: int)
    requires
        0 <= n <= NORMAL_ONE,
    ensures
        length >= 0 ==> 0 <= scaled(n, length) <= length,
        length <= 0 ==> length <= scaled(n, length) <= 0,
{
    let one = NORMAL_ONE as int;
    if length >= 0 {
        assert(0 <= n * length <= one * length) by (nonlinear_arith)
            requires
                0 <= n <= one,
                length >= 0,
        ;
        assert((n * length) / one <= length) by (nonlinear_arith)
            requires
                0 <= n * length <= one * length,
                one > 0,
        ;
        assert(0 <= (n * length) / one) by (nonlinear_arith)
            requires
                0 <= n * length,
                one > 0,
        ;
    } else {
        assert(0 <= -(n * length) <= one * (-length)) by (nonlinear_arith)
            requires
                0 <= n <= one,
                length < 0,
        ;
        assert((-(n * length)) / one <= -length) by (nonlinear_arith)
            requires
                0 <= -(n * length) <= one * (-length),
                one > 0,
        ;
        assert(0 <= (-(n * length)) / one) by (nonlinear_arith)
            requires
                0 <= -(n * length),
                one > 0,
        ;
    }
}

} // verus!
