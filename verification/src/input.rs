//! What a host delivers to a control, and what the control answers.

use vstd::prelude::*;

verus! {

/// A set of keyboard modifier keys.
#[derive(Clone, Copy, Debug, PartialEq, Eq, Structural)]
pub struct Modifiers {
    /// The shift key.
    pub shift: bool,
    /// The control key.
    pub control: bool,
    /// The alt key.
    pub alt: bool,
    /// The logo key: windows, command or super.
    pub logo: bool,
}

impl Modifiers {
    /// Whether some key is in both sets.
    pub open spec fn intersects_spec(self, other: Modifiers) -> bool {
        ||| self.shift && other.shift
        ||| self.control && other.control
        ||| self.alt && other.alt
        ||| self.logo && other.logo
    }

    /// The set without any key.
    pub fn empty() -> (keys: Modifiers)
        ensures
            keys == (Modifiers { shift: false, control: false, alt: false, logo: false }),
    {
        Modifiers { shift: false, control: false, alt: false, logo: false }
    }

    /// The set that holds the control key alone.
    pub fn ctrl() -> (keys: Modifiers)
        ensures
            keys == (Modifiers { shift: false, control: true, alt: false, logo: false }),
    {
        Modifiers { shift: false, control: true, alt: false, logo: false }
    }

    /// Whether some key is in both sets.
    pub fn intersects(&self, other: &Modifiers) -> (common: bool)
        ensures
            common == self.intersects_spec(*other),
    {
        (self.shift && other.shift) || (self.control && other.control) || (self.alt && other.alt)
            || (self.logo && other.logo)
    }
}

/// How a button press relates to the presses before it, as click detection
/// classified it.
#[derive(Clone, Copy, Debug, PartialEq, Eq, Structural)]
pub enum ClickKind {
    /// A press on its own.
    Single,
    /// The second press of a quick pair at one place.
    Double,
    /// The third press of a quick series at one place.
    Triple,
}

/// A button of the pointing device.
#[derive(Clone, Copy, Debug, PartialEq, Eq, Structural)]
pub enum Button {
    /// The primary button.
    Left,
    /// The secondary button.
    Right,
    /// The middle button.
    Middle,
    /// Any other button.
    Other,
}

/// A movement of the scroll wheel, in 16.16 fixed point.
#[derive(Clone, Copy, Debug, PartialEq, Eq, Structural)]
pub enum ScrollDelta {
    /// A movement counted in lines.
    Lines {
        /// Lines scrolled sideways.
        x: i32,
        /// Lines scrolled up.
        y: i32,
    },
    /// A movement counted in pixels.
    Pixels {
        /// Pixels scrolled sideways.
        x: i32,
        /// Pixels scrolled up.
        y: i32,
    },
}

/// An input event, as a control sees it. The position of the cursor comes
/// beside the event.
#[derive(Clone, Copy, Debug, PartialEq, Eq, Structural)]
pub enum Event {
    /// The cursor moved.
    CursorMoved,
    /// The scroll wheel turned.
    WheelScrolled {
        /// How far it turned.
        delta: ScrollDelta,
    },
    /// A button went down.
    ButtonPressed {
        /// Which button.
        button: Button,
    },
    /// A button came up.
    ButtonReleased {
        /// Which button.
        button: Button,
    },
    /// A key went down.
    KeyPressed {
        /// The modifier keys held after the press.
        modifiers: Modifiers,
    },
    /// A key came up.
    KeyReleased {
        /// The modifier keys held after the release.
        modifiers: Modifiers,
    },
    /// Any other event.
    Other,
}

/// Whether a control made use of an event.
#[derive(Clone, Copy, Debug, PartialEq, Eq, Structural)]
pub enum Status {
    /// The control did nothing with the event: the host may offer it to
    /// others.
    Ignored,
    /// The control handled the event.
    Captured,
}

/// How much of the space that its parent offers a control asks for.
#[derive(Clone, Copy, Debug, PartialEq, Eq, Structural)]
pub enum Length {
    /// All that is left.
    Fill,
    /// A share of what is left, in proportion to the number.
    FillPortion(u16),
    /// As little as possible.
    Shrink,
    /// A number of whole pixels.
    Units(u16),
}

} // verus!
