//! Ranges: converters between raw parameter units and normalized values.

use crate::fixed::{clamp, round_div, NORMAL_ONE};
use crate::normal::Normal;
use crate::normal_param::NormalParam;
use vstd::prelude::*;

verus! {

/// The two ends of a range of whole numbers.
pub struct RangeModel {
    /// The lowest raw value.
    pub min: int,
    /// The highest raw value.
    pub max: int,
}

impl RangeModel {
    /// A range has more than one value, and few enough that each has a
    /// normal of its own.
    pub open spec fn wf(self) -> bool {
        self.min < self.max && self.max - self.min < NORMAL_ONE
    }

    /// The distance between the two ends.
    pub open spec fn span(self) -> int {
        self.max - self.min
    }

    /// The normal of a raw value: its distance from `min` as a part of the
    /// span, rounded to the nearest step of a normal. Values outside the
    /// range count as the nearer end.
    pub open spec fn to_normal(self, value: int) -> int {
        round_div((clamp(value, self.min, self.max) - self.min) * NORMAL_ONE, self.span())
    }

    /// The raw value nearest to where a normal lies in the range.
    pub open spec fn to_raw(self, normal: int) -> int {
        self.min + round_div(normal * self.span(), NORMAL_ONE as int)
    }

    /// The normal of the raw value nearest to a normal.
    pub open spec fn snapped(self, normal: int) -> int {
        self.to_normal(self.to_raw(normal))
    }
}

/// A quotient is the number whose multiples enclose the dividend.
proof fn lemma_quotient_is(a: int, d: int, q: int)
    requires
        d > 0,
        q * d <= a < (q + 1) * d,
    ensures
        a / d == q,
{
    assert(a / d == q) by (nonlinear_arith)
        requires
            d > 0,
            q * d <= a < (q + 1) * d,
    ;
}

/// A dividend lies between two neighbouring multiples of the divisor.
proof fn lemma_quotient_bounds(a: int, d: int)
    requires
        d > 0,
    ensures
        (a / d) * d <= a < (a / d) * d + d,
{
    assert((a / d) * d <= a < (a / d) * d + d) by (nonlinear_arith)
        requires
            d > 0,
    ;
}

/// The normal of a raw value of the range is a normal, and is the raw
/// value's distance from `min`, in steps of a normal, to within half a span.
pub proof fn lemma_to_normal_near(range: RangeModel, value: int)
    requires
        range.wf(),
        range.min <= value <= range.max,
    ensures
        0 <= range.to_normal(value) <= NORMAL_ONE,
        2 * (value - range.min) * NORMAL_ONE - range.span() < 2 * range.to_normal(value)
            * range.span() <= 2 * (value - range.min) * NORMAL_ONE + range.span(),
{
    let one = NORMAL_ONE as int;
    let span = range.span();
    let k = value - range.min;
    let a = 2 * (k * one) + span;
    let d = 2 * span;
    let n = a / d;
    assert(range.to_normal(value) == n);
    lemma_quotient_bounds(a, d);
    assert(n * d == 2 * n * span) by (nonlinear_arith)
        requires
            d == 2 * span,
    ;
    assert(2 * (k * one) == 2 * k * one) by (nonlinear_arith);
    assert(0 <= k * one <= span * one) by (nonlinear_arith)
        requires
            0 <= k <= span,
            one > 0,
    ;
    assert(a < (one + 1) * d) by (nonlinear_arith)
        requires
            a == 2 * (k * one) + span,
            k * one <= span * one,
            d == 2 * span,
            span > 0,
    ;
    assert(n <= one) by (nonlinear_arith)
        requires
            n * d <= a,
            a < (one + 1) * d,
            d > 0,
    ;
    assert(n >= 0) by (nonlinear_arith)
        requires
            a < n * d + d,
            a >= 0,
            d > 0,
    ;
}

/// A raw value of the range comes back unchanged from its normal.
pub proof fn lemma_round_trip(range: RangeModel, value: int)
    requires
        range.wf(),
        range.min <= value <= range.max,
    ensures
        range.to_raw(range.to_normal(value)) == value,
{
    let one = NORMAL_ONE as int;
    let span = range.span();
    let k = value - range.min;
    let n = range.to_normal(value);
    lemma_to_normal_near(range, value);
    let b = 2 * (n * span) + one;
    assert(2 * (n * span) == 2 * n * span) by (nonlinear_arith);
    assert(2 * k * one == k * (2 * one)) by (nonlinear_arith);
    assert((k + 1) * (2 * one) == 2 * k * one + 2 * one) by (nonlinear_arith);
    lemma_quotient_is(b, 2 * one, k);
}

/// The raw value of a normal lies in the range.
pub proof fn lemma_to_raw_in_range(range: RangeModel, normal: int)
    requires
        range.wf(),
        0 <= normal <= NORMAL_ONE,
    ensures
        range.min <= range.to_raw(normal) <= range.max,
{
    let one = NORMAL_ONE as int;
    let span = range.span();
    let b = 2 * (normal * span) + one;
    let q = b / (2 * one);
    assert(0 <= normal * span <= one * span) by (nonlinear_arith)
        requires
            0 <= normal <= one,
            span > 0,
    ;
    lemma_quotient_bounds(b, 2 * one);
    assert(q <= span) by (nonlinear_arith)
        requires
            q * (2 * one) <= b,
            b <= 2 * (one * span) + one,
            one > 0,
    ;
    assert(q >= 0) by (nonlinear_arith)
        requires
            b < q * (2 * one) + 2 * one,
            b >= 0,
            one > 0,
    ;
}

/// Snapping a normal a second time changes nothing.
pub proof fn lemma_snapped_idempotent(range: RangeModel, normal: int)
    requires
        range.wf(),
        0 <= normal <= NORMAL_ONE,
    ensures
        range.snapped(range.snapped(normal)) == range.snapped(normal),
        0 <= range.snapped(normal) <= NORMAL_ONE,
{
    lemma_to_raw_in_range(range, normal);
    lemma_round_trip(range, range.to_raw(normal));
    lemma_to_normal_near(range, range.to_raw(normal));
}

/// The low end of a range is the normal zero and the high end the normal
/// one.
pub proof fn lemma_ends(range: RangeModel)
    requires
        range.wf(),
    ensures
        range.to_normal(range.min) == 0,
        range.to_normal(range.max) == NORMAL_ONE,
        range.to_raw(0) == range.min,
        range.to_raw(NORMAL_ONE as int) == range.max,
{
    let one = NORMAL_ONE as int;
    let span = range.span();
    assert(0 * one == 0) by (nonlinear_arith);
    lemma_quotient_is(2 * (0 * one) + span, 2 * span, 0);
    assert(one * (2 * span) == 2 * (span * one)) by (nonlinear_arith);
    assert((one + 1) * (2 * span) == 2 * (span * one) + 2 * span) by (nonlinear_arith);
    lemma_quotient_is(2 * (span * one) + span, 2 * span, one);
    assert(0 * span == 0) by (nonlinear_arith);
    lemma_quotient_is(2 * (0 * span) + one, 2 * one, 0);
    assert(span * (2 * one) == 2 * (one * span)) by (nonlinear_arith);
    assert((span + 1) * (2 * one) == 2 * (one * span) + 2 * one) by (nonlinear_arith);
    lemma_quotient_is(2 * (one * span) + one, 2 * one, span);
}

/// A larger raw value has no smaller normal.
pub proof fn lemma_to_normal_monotonic(range: RangeModel, low: int, high: int)
    requires
        range.wf(),
        low <= high,
    ensures
        range.to_normal(low) <= range.to_normal(high),
{
    let one = NORMAL_ONE as int;
    let span = range.span();
    let kl = clamp(low, range.min, range.max) - range.min;
    let kh = clamp(high, range.min, range.max) - range.min;
    assert(kl * one <= kh * one) by (nonlinear_arith)
        requires
            kl <= kh,
            one > 0,
    ;
    let al = 2 * (kl * one) + span;
    let ah = 2 * (kh * one) + span;
    assert(al / (2 * span) <= ah / (2 * span)) by (nonlinear_arith)
        requires
            al <= ah,
            span > 0,
    ;
}

/// A range of whole numbers from `min` to `max`, both included.
#[derive(Clone, Copy, Debug, PartialEq, Eq, Structural)]
pub struct IntRange {
    min: i32,
    max: i32,
}

impl View for IntRange {
    type V = RangeModel;

    closed spec fn view(&self) -> RangeModel {
        RangeModel { min: self.min as int, max: self.max as int }
    }
}

impl IntRange {
    /// The low end lies below the high end.
    #[verifier::type_invariant]
    pub open spec fn wf(self) -> bool {
        &&& self@.wf()
        &&& i32::MIN <= self@.min
        &&& self@.max <= i32::MAX
    }

    /// The range from `min` to `max`.
    pub fn new(min: i32, max: i32) -> (range: Self)
        requires
            min < max,
        ensures
            range@.min == min,
            range@.max == max,
            range.wf(),
    {
        IntRange { min, max }
    }

    /// The low end.
    pub fn min(&self) -> (min: i32)
        ensures
            min == self@.min,
    {
        self.min
    }

    /// The high end.
    pub fn max(&self) -> (max: i32)
        ensures
            max == self@.max,
    {
        self.max
    }

    /// The normal of a raw value; a value outside the range counts as the
    /// nearer end.
    pub fn to_normal(&self, value: i32) -> (normal: Normal)
        ensures
            normal@ == self@.to_normal(value as int),
    {
        proof {
            use_type_invariant(self);
        }
        let constrained: i32 = if value < self.min {
            self.min
        } else if value > self.max {
            self.max
        } else {
            value
        };
        let distance: u128 = (constrained as i64 - self.min as i64) as u128;
        let span: u128 = (self.max as i64 - self.min as i64) as u128;
        proof {
            lemma_to_normal_near(self@, constrained as int);
            assert(distance * 4294967296 <= span * 4294967296) by (nonlinear_arith)
                requires
                    distance <= span,
            ;
        }
        let scaled: u128 = distance * 4294967296;
        let quotient: u128 = (2 * scaled + span) / (2 * span);
        Normal::new(quotient as i64)
    }

    /// The raw value nearest to where a normal lies in the range.
    pub fn to_raw(&self, normal: Normal) -> (value: i32)
        ensures
            value == self@.to_raw(normal@),
            self@.min <= value <= self@.max,
    {
        proof {
            use_type_invariant(self);
            use_type_invariant(&normal);
            lemma_to_raw_in_range(self@, normal@);
        }
        let span: u128 = (self.max as i64 - self.min as i64) as u128;
        let bits: u128 = normal.bits() as u128;
        proof {
            assert(bits * span <= 4294967296 * 4294967296) by (nonlinear_arith)
                requires
                    bits <= 4294967296,
                    span <= 4294967296,
            ;
        }
        let scaled: u128 = bits * span;
        let quotient: u128 = (2 * scaled + 4294967296) / 8589934592;
        (self.min as i64 + quotient as i64) as i32
    }

    /// The normal of the raw value nearest to a normal.
    pub fn snapped(&self, normal: Normal) -> (snapped: Normal)
        ensures
            snapped@ == self@.snapped(normal@),
    {
        let value = self.to_raw(normal);
        self.to_normal(value)
    }

    /// A parameter whose value and default are the normals of two raw
    /// values.
    pub fn normal_param(&self, value: i32, default: i32) -> (param: NormalParam)
        ensures
            param.value@ == self@.to_normal(value as int),
            param.default@ == self@.to_normal(default as int),
    {
        NormalParam { value: self.to_normal(value), default: self.to_normal(default) }
    }
}

} // verus!
