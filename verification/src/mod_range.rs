//! A modulation range: a second marker that a control may show beside its
//! value, driven by the host.

use crate::normal::Normal;
use vstd::prelude::*;

verus! {

/// The span between two normals that a host modulates a parameter over. A
/// control only shows it.
#[derive(Clone, Copy, Debug, PartialEq, Eq, Structural)]
pub struct ModulationRange {
    /// Where the span starts.
    pub start: Normal,
    /// Where the span ends.
    pub end: Normal,
    /// Whether the span between the two is filled.
    pub filled_visible: bool,
    /// Whether the filled part is what lies outside the span.
    pub filled_inverse: bool,
}

impl ModulationRange {
    /// A range from `start` to `end`, filled between the two.
    pub fn new(start: Normal, end: Normal) -> (range: Self)
        ensures
            range == (ModulationRange { start, end, filled_visible: true, filled_inverse: false }),
    {
        ModulationRange { start, end, filled_visible: true, filled_inverse: false }
    }
}

} // verus!
