//! A parameter: a normalized value together with the default it resets to.

use crate::fixed::{clamp, NORMAL_ONE};
use crate::normal::Normal;
use vstd::prelude::*;

verus! {

/// A parameter that holds a normalized `value` and the `default` that a
/// reset gesture restores.
#[derive(Clone, Copy, Debug, PartialEq, Eq, Structural)]
pub struct NormalParam {
    /// The current value of the parameter.
    pub value: Normal,
    /// The value that the parameter returns to on reset.
    pub default: Normal,
}

impl NormalParam {
    /// A parameter whose value and default are both `value`.
    pub fn new(value: Normal) -> (p: Self)
        ensures
            p.value == value,
            p.default == value,
    {
        NormalParam { value, default: value }
    }

    /// A parameter whose value and default are both the normal nearest to
    /// `raw`, a count of 1/4294967296 steps.
    pub fn from_raw(raw: i64) -> (p: Self)
        ensures
            p.value == Normal::nearest(raw as int),
            p.value@ == clamp(raw as int, 0, NORMAL_ONE as int),
            p.default == p.value,
    {
        let normal = Normal::new(raw);
        Self::new(normal)
    }
}

impl From<i64> for NormalParam {
    /// A parameter whose value and default are both the normal nearest to
    /// `raw`, a count of 1/4294967296 steps.
    fn from(raw: i64) -> (p: Self) {
        Self::from_raw(raw)
    }
}

impl vstd::std_specs::convert::FromSpecImpl<i64> for NormalParam {
    open spec fn obeys_from_spec() -> bool {
        true
    }

    open spec fn from_spec(raw: i64) -> Self {
        NormalParam { value: Normal::nearest(raw as int), default: Normal::nearest(raw as int) }
    }
}

impl Default for NormalParam {
    /// The parameter at zero, with zero as its default.
    fn default() -> (p: Self)
        ensures
            p.value@ == 0,
            p.default@ == 0,
    {
        Self { value: Normal::min(), default: Normal::min() }
    }
}

} // verus!
