//! Click detection: whether a button press is a single, double or triple
//! click.
//!
//! The toolkit decides this from where and when the presses before it
//! happened. Its answer depends on the clock, so only what holds whatever
//! the clock reads is claimed of it: a press that follows none is a single
//! click, and a press that follows another is a single click or the kind
//! that comes after the kind of the other. What a control does with each
//! possible answer is verified. What the toolkit records of a press fixes
//! its kind, and [`click_kind`] is the name of that kind.

use crate::input::ClickKind;
use vstd::prelude::*;

verus! {

/// A button press together with where and when it happened, as the toolkit
/// keeps it.
#[verifier::external_type_specification]
#[verifier::external_body]
pub struct ExClick(iced_native::mouse::Click);

/// A position on screen, as the toolkit measures it.
#[verifier::external_type_specification]
#[verifier::external_body]
pub struct ExPoint(iced_native::Point);

/// The kind of click that the record of a press stands for: what
/// `iced_native::mouse::Click::kind` returns for that record, variant for
/// variant.
pub uninterp spec fn click_kind(click: iced_native::mouse::Click) -> ClickKind;

/// The kind of click that comes after a kind in a quick series at one
/// place: a double click after a single one, a triple click after a double
/// one, and a double click again after a triple one.
pub open spec fn next_kind(kind: ClickKind) -> ClickKind {
    match kind {
        ClickKind::Single => ClickKind::Double,
        ClickKind::Double => ClickKind::Triple,
        ClickKind::Triple => ClickKind::Double,
    }
}

/// Whether `kind` can be the kind of a press that follows the press
/// `previous`: a single click in any case, and the kind that comes after the
/// kind of `previous`, if there is one.
pub open spec fn can_follow(kind: ClickKind, previous: Option<iced_native::mouse::Click>) -> bool {
    ||| kind == ClickKind::Single
    ||| previous is Some && kind == next_kind(click_kind(previous->0))
}

/// Calls `iced_native::mouse::Click::new`, which reads the clock and makes
/// the record of a press at `position` that follows the press `previous`.
/// Whatever the clock reads, the record is that of a single click where
/// there is no press before it, and else that of a single click or of the
/// kind that comes after the kind of `previous`. Which of the two it is
/// depends on the clock and on where the two presses lie.
#[verifier::external_body]
pub(crate) fn new_click(
    position: iced_native::Point,
    previous: Option<iced_native::mouse::Click>,
) -> (click: iced_native::mouse::Click)
    ensures
        can_follow(click_kind(click), previous),
{
    iced_native::mouse::Click::new(position, previous)
}

/// Calls `iced_native::mouse::Click::kind`, which reads the kind off the
/// record, and names the variant that it returns. The result is the kind of
/// the record; nothing is claimed of which one it is.
#[verifier::external_body]
pub(crate) fn kind_of(click: &iced_native::mouse::Click) -> (kind: ClickKind)
    ensures
        kind == click_kind(*click),
{
    match click.kind() {
        iced_native::mouse::click::Kind::Single => ClickKind::Single,
        iced_native::mouse::click::Kind::Double => ClickKind::Double,
        iced_native::mouse::click::Kind::Triple => ClickKind::Triple,
    }
}

/// Makes the record of a press at `position` that follows the press
/// `previous`, and says what kind of click it is: the kind of that very
/// record, which is a single click or, after another press, the kind that
/// comes after the kind of that press. Which of the two depends on the
/// clock.
pub(crate) fn classify(
    position: iced_native::Point,
    previous: Option<iced_native::mouse::Click>,
) -> (made: (iced_native::mouse::Click, ClickKind))
    ensures
        made.1 == click_kind(made.0),
        can_follow(made.1, previous),
{
    let click = new_click(position, previous);
    let kind = kind_of(&click);
    (click, kind)
}

} // verus!
