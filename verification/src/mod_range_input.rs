//! A dot that controls a [`NormalParam`], meant for setting a modulation
//! range.
//!
//! It answers input as a slider does, along the vertical axis: dragging
//! upward raises the value, and a drag across the whole height of the dot
//! changes it by the scalar.

use crate::click::{can_follow, click_kind};
use crate::control::{
    step, takes_press, Control, Outcome, Projection, Response, Sensitivity, StateModel,
};
use crate::fixed::{floor_to_whole, floored};
use crate::geometry::{halved, Bounds, Position, Rectangle};
use crate::input::{ClickKind, Event, Length, Modifiers, Status};
use crate::normal::Normal;
use crate::normal_param::NormalParam;
use crate::primitive::{Color, Quad};
use crate::range::IntRange;
use vstd::prelude::*;

verus! {

/// The size of a dot that was given none, in whole pixels.
pub const DEFAULT_SIZE: u16 = 10;

/// The scalar of a dot that was given none: 0.001925 in 16.16 fixed point.
pub const DEFAULT_SCALAR: i32 = 126;

/// The wheel scalar of a dot that was given none: 0.005 in 16.16 fixed
/// point.
pub const DEFAULT_WHEEL_SCALAR: i32 = 328;

/// The modifier scalar of a dot that was given none: 0.02 in 16.16 fixed
/// point.
pub const DEFAULT_MODIFIER_SCALAR: i32 = 1311;

/// What draws a dot.
pub trait Renderer {
    /// The style that this renderer understands.
    type Style;

    /// What this renderer produces.
    type Output;

    /// Whether `output` is what this renderer makes of a dot in these
    /// bounds, under this cursor, dragged or not, in this style. A renderer
    /// that says nothing of its output leaves this as it is.
    open spec fn draws(
        bounds: Rectangle,
        cursor_position: Position,
        is_dragging: bool,
        style: Self::Style,
        output: Self::Output,
    ) -> bool {
        true
    }

    /// Draws a dot.
    ///
    /// * `bounds` - the bounds of the dot
    /// * `cursor_position` - where the cursor is
    /// * `is_dragging` - whether the dot is being dragged
    /// * `style` - the style of the dot
    fn draw(
        &mut self,
        bounds: Rectangle,
        cursor_position: Position,
        is_dragging: bool,
        style: &Self::Style,
    ) -> (output: Self::Output)
        ensures
            Self::draws(bounds, cursor_position, is_dragging, *style, output),
    ;
}

/// A dot as it is set up for one frame. What lasts from frame to frame is
/// its [`State`].
pub struct ModRangeInput<S> {
    /// The width and the height that the dot asks for.
    pub size: Length,
    /// Change of value per height of the dot that the cursor is dragged.
    pub scalar: i32,
    /// Change of value per line of wheel movement.
    pub wheel_scalar: i32,
    /// What a change is multiplied by while a modifier key is held.
    pub modifier_scalar: i32,
    /// The keys that count as modifier keys.
    pub modifier_keys: Modifiers,
    /// The style of the dot.
    pub style: S,
}

impl<S: Default> ModRangeInput<S> {
    /// A dot of the default size with the default sensitivity, the control
    /// key as modifier key and the default style.
    pub fn new() -> (input: Self)
        ensures
            input.size == Length::Units(DEFAULT_SIZE),
            input.scalar == DEFAULT_SCALAR,
            input.wheel_scalar == DEFAULT_WHEEL_SCALAR,
            input.modifier_scalar == DEFAULT_MODIFIER_SCALAR,
            input.modifier_keys == (Modifiers {
                shift: false,
                control: true,
                alt: false,
                logo: false,
            }),
            call_ensures(S::default, (), input.style),
    {
        ModRangeInput {
            size: Length::Units(DEFAULT_SIZE),
            scalar: DEFAULT_SCALAR,
            wheel_scalar: DEFAULT_WHEEL_SCALAR,
            modifier_scalar: DEFAULT_MODIFIER_SCALAR,
            modifier_keys: Modifiers::ctrl(),
            style: S::default(),
        }
    }
}

impl<S> ModRangeInput<S> {
    /// Sets the diameter of the dot.
    pub fn size(self, size: Length) -> (input: Self)
        ensures
            input == (ModRangeInput { size, ..self }),
    {
        let mut input = self;
        input.size = size;
        input
    }

    /// Sets the style of the dot.
    pub fn style(self, style: S) -> (input: Self)
        ensures
            input == (ModRangeInput { style, ..self }),
    {
        let mut input = self;
        input.style = style;
        input
    }

    /// Sets the change of value per height of the dot that the cursor is
    /// dragged, in 16.16 fixed point.
    pub fn scalar(self, scalar: i32) -> (input: Self)
        ensures
            input == (ModRangeInput { scalar, ..self }),
    {
        let mut input = self;
        input.scalar = scalar;
        input
    }

    /// Sets the change of value per line of wheel movement, in 16.16 fixed
    /// point. Zero turns the wheel off.
    pub fn wheel_scalar(self, wheel_scalar: i32) -> (input: Self)
        ensures
            input == (ModRangeInput { wheel_scalar, ..self }),
    {
        let mut input = self;
        input.wheel_scalar = wheel_scalar;
        input
    }

    /// Sets the keys that count as modifier keys.
    pub fn modifier_keys(self, modifier_keys: Modifiers) -> (input: Self)
        ensures
            input == (ModRangeInput { modifier_keys, ..self }),
    {
        let mut input = self;
        input.modifier_keys = modifier_keys;
        input
    }

    /// Sets what a change is multiplied by while a modifier key is held, in
    /// 16.16 fixed point.
    pub fn modifier_scalar(self, scalar: i32) -> (input: Self)
        ensures
            input == (ModRangeInput { modifier_scalar: scalar, ..self }),
    {
        let mut input = self;
        input.modifier_scalar = scalar;
        input
    }

    /// How strongly the dot answers movement.
    pub open spec fn sensitivity_spec(self) -> Sensitivity {
        Sensitivity {
            scalar: self.scalar,
            wheel_scalar: self.wheel_scalar,
            modifier_scalar: self.modifier_scalar,
            modifier_keys: self.modifier_keys,
        }
    }

    /// How strongly the dot answers movement.
    pub fn sensitivity(&self) -> (sensitivity: Sensitivity)
        ensures
            sensitivity == self.sensitivity_spec(),
    {
        Sensitivity {
            scalar: self.scalar,
            wheel_scalar: self.wheel_scalar,
            modifier_scalar: self.modifier_scalar,
            modifier_keys: self.modifier_keys,
        }
    }

    /// The width that the dot asks for: its size.
    pub fn width(&self) -> (width: Length)
        ensures
            width == self.size,
    {
        self.size
    }

    /// The height that the dot asks for: its size.
    pub fn height(&self) -> (height: Length)
        ensures
            height == self.size,
    {
        self.size
    }

    /// What an event comes to for this dot: what [`step`] says of a control
    /// with the sensitivity of the dot that follows the cursor along its
    /// height.
    pub open spec fn step(
        self,
        state: StateModel,
        event: Event,
        click: ClickKind,
        bounds: Rectangle,
        cursor_position: Position,
    ) -> Outcome {
        step(
            self.sensitivity_spec(),
            Projection::AlongHeight,
            state,
            event,
            click,
            bounds,
            cursor_position,
        )
    }

    /// Changes the position of the dot by `normal_delta` and returns the new
    /// value for the host.
    pub fn move_virtual_slider(&self, state: &mut State, normal_delta: i128) -> (value: Normal)
        ensures
            final(state)@ == old(state)@.after_move(self.sensitivity_spec(), normal_delta as int),
            value@ == final(state)@.value,
            final(state).last_press() == old(state).last_press(),
    {
        let sensitivity = self.sensitivity();
        state.control.move_virtual_slider(&sensitivity, normal_delta)
    }

    /// Handles one event, given the kind of click that it is if it is a
    /// press, and says whether it was used and what the host is to be told.
    pub fn respond(
        &self,
        state: &mut State,
        event: Event,
        click: ClickKind,
        bounds: Rectangle,
        cursor_position: Position,
    ) -> (response: Response)
        ensures
            final(state)@ == self.step(old(state)@, event, click, bounds, cursor_position).state,
            response.tells(self.step(old(state)@, event, click, bounds, cursor_position)),
            old(state)@.wf() ==> final(state)@.wf(),
            final(state).last_press() == old(state).last_press(),
    {
        let sensitivity = self.sensitivity();
        state.control.respond(
            &sensitivity,
            Projection::AlongHeight,
            event,
            click,
            bounds,
            cursor_position,
        )
    }

    /// Handles one event and says whether it was used and what the host is
    /// to be told.
    ///
    /// A press of the left button inside the bounds goes to click detection
    /// first, with `pointer` and the last press that the dot took.
    /// `pointer` is the position of the cursor once more, as the toolkit
    /// measures it: it goes to click detection and nowhere else, and
    /// everything that the dot itself decides goes by `cursor_position`.
    /// Whatever kind of
    /// click detection finds, the dot does what [`Self::step`] says of that
    /// kind, records the kind and keeps the press for the next detection.
    /// Every other event is handled as [`Self::step`] says, whatever the
    /// kind.
    pub fn on_event(
        &self,
        state: &mut State,
        event: Event,
        bounds: Rectangle,
        cursor_position: Position,
        pointer: iced_native::Point,
    ) -> (response: Response)
        ensures
            !takes_press(event, bounds, cursor_position) ==> {
                &&& final(state)@ == self.step(
                    old(state)@,
                    event,
                    ClickKind::Single,
                    bounds,
                    cursor_position,
                ).state
                &&& response.tells(
                    self.step(old(state)@, event, ClickKind::Single, bounds, cursor_position),
                )
                &&& final(state).last_press() == old(state).last_press()
            },
            takes_press(event, bounds, cursor_position) ==> {
                &&& response.status == Status::Captured
                &&& final(state).last_press() is Some
                &&& final(state)@.last_click == Some(click_kind(final(state).last_press()->0))
                &&& can_follow(final(state)@.last_click->0, old(state).last_press())
                &&& final(state)@ == self.step(
                    old(state)@,
                    event,
                    final(state)@.last_click->0,
                    bounds,
                    cursor_position,
                ).state
                &&& response.tells(
                    self.step(
                        old(state)@,
                        event,
                        final(state)@.last_click->0,
                        bounds,
                        cursor_position,
                    ),
                )
            },
            old(state)@.wf() ==> final(state)@.wf(),
    {
        let sensitivity = self.sensitivity();
        state.control.on_event(
            &sensitivity,
            Projection::AlongHeight,
            event,
            bounds,
            cursor_position,
            pointer,
        )
    }

    /// Hands everything that the look of the dot depends on to a renderer,
    /// and returns what the renderer makes of it.
    pub fn draw<R: Renderer<Style = S>>(
        &self,
        state: &State,
        renderer: &mut R,
        bounds: Rectangle,
        cursor_position: Position,
    ) -> (output: R::Output)
        ensures
            R::draws(bounds, cursor_position, state@.dragging, self.style, output),
    {
        renderer.draw(bounds, cursor_position, state.control.is_dragging(), &self.style)
    }
}

/// What lasts of a dot from frame to frame.
#[derive(Clone, Copy, Debug)]
pub struct State {
    control: Control,
}

impl View for State {
    type V = StateModel;

    closed spec fn view(&self) -> StateModel {
        self.control@
    }
}

impl State {
    /// The last press that the dot took, as click detection keeps it.
    pub closed spec fn last_press(&self) -> Option<iced_native::mouse::Click> {
        self.control.last_press()
    }

    /// The state of a dot for a parameter: idle.
    pub fn new(normal_param: NormalParam) -> (state: Self)
        ensures
            state@ == (StateModel {
                value: normal_param.value@,
                default: normal_param.default@,
                continuous: normal_param.value@,
                dragging: false,
                prev_drag: 0,
                pressed: Modifiers { shift: false, control: false, alt: false, logo: false },
                last_click: None,
            }),
            state@.wf(),
            state.last_press() is None,
    {
        State { control: Control::new(normal_param) }
    }

    /// Sets the value of the dot, and its continuous position with it.
    pub fn set_normal(&mut self, normal: Normal)
        ensures
            final(self)@ == (StateModel {
                value: normal@,
                continuous: normal@,
                ..old(self)@
            }),
            final(self).last_press() == old(self).last_press(),
    {
        self.control.set_normal(normal);
    }

    /// The value of the dot.
    pub fn normal(&self) -> (normal: Normal)
        ensures
            normal@ == self@.value,
    {
        self.control.normal()
    }

    /// Sets the value that a reset restores.
    pub fn set_default(&mut self, normal: Normal)
        ensures
            final(self)@ == (StateModel { default: normal@, ..old(self)@ }),
            final(self).last_press() == old(self).last_press(),
    {
        self.control.set_default(normal);
    }

    /// The value that a reset restores.
    pub fn default(&self) -> (normal: Normal)
        ensures
            normal@ == self@.default,
    {
        self.control.default()
    }

    /// Snaps the value that the dot shows to the nearest step of `range`.
    pub fn snap_visible_to(&mut self, range: &IntRange)
        ensures
            final(self)@ == (StateModel {
                value: range@.snapped(old(self)@.value),
                ..old(self)@
            }),
            final(self).last_press() == old(self).last_press(),
    {
        self.control.snap_visible_to(range);
    }

    /// Whether the dot is being dragged.
    pub fn is_dragging(&self) -> (dragging: bool)
        ensures
            dragging == self@.dragging,
    {
        self.control.is_dragging()
    }

    /// The kind of the last press that the dot took.
    pub fn last_click(&self) -> (click: Option<ClickKind>)
        ensures
            click == self@.last_click,
    {
        self.control.last_click()
    }
}

/// How a round dot looks. Widths are whole pixels.
#[derive(Clone, Copy, Debug, PartialEq, Eq, Structural)]
pub struct CircleStyle {
    /// Fill color.
    pub color: Color,
    /// Width of the border line.
    pub border_width: u16,
    /// Color of the border line.
    pub border_color: Color,
}

/// How a square dot looks. Widths are whole pixels.
#[derive(Clone, Copy, Debug, PartialEq, Eq, Structural)]
pub struct SquareStyle {
    /// Fill color.
    pub color: Color,
    /// Width of the border line.
    pub border_width: u16,
    /// Radius of the corners.
    pub border_radius: u16,
    /// Color of the border line.
    pub border_color: Color,
}

/// How a dot looks.
#[derive(Clone, Copy, Debug, PartialEq, Eq, Structural)]
pub enum Style {
    /// A filled circle.
    Circle(CircleStyle),
    /// A filled square.
    Square(SquareStyle),
    /// Nothing is drawn.
    Invisible,
}

/// The looks of a dot in each of its three conditions.
#[derive(Clone, Copy, Debug, PartialEq, Eq, Structural)]
pub struct StyleSheet {
    /// The look of a dot at rest.
    pub active: Style,
    /// The look of a dot under the cursor.
    pub hovered: Style,
    /// The look of a dot that is being dragged.
    pub dragging: Style,
}

impl Default for StyleSheet {
    /// A dot that is never drawn.
    fn default() -> (sheet: Self)
        ensures
            sheet == (StyleSheet {
                active: Style::Invisible,
                hovered: Style::Invisible,
                dragging: Style::Invisible,
            }),
    {
        StyleSheet {
            active: Style::Invisible,
            hovered: Style::Invisible,
            dragging: Style::Invisible,
        }
    }
}

/// The look that applies: that of dragging while the dot is dragged, else
/// that of hovering while the cursor is inside the bounds, else that of
/// rest.
pub open spec fn style_for_state(
    sheet: StyleSheet,
    bounds: Rectangle,
    cursor_position: Position,
    is_dragging: bool,
) -> Style {
    if is_dragging {
        sheet.dragging
    } else if bounds.contains_spec(cursor_position) {
        sheet.hovered
    } else {
        sheet.active
    }
}

/// The square that a dot fills: the bounds lowered to whole pixels, as high
/// as they are wide.
pub open spec fn dot_bounds(bounds: Rectangle) -> Bounds {
    Bounds {
        x: floored(bounds.x as int) as i64,
        y: floored(bounds.y as int) as i64,
        width: floored(bounds.width as int) as i64,
        height: floored(bounds.width as int) as i64,
    }
}

/// The corner radius that makes a square of side `size` a circle: half the
/// side in whole pixels, and never less than zero.
pub open spec fn circle_radius(size: int) -> int {
    if size / 2 < 0 {
        0
    } else {
        floored(size / 2)
    }
}

/// The quad of a dot, if it is drawn at all.
pub open spec fn dot(
    sheet: StyleSheet,
    bounds: Rectangle,
    cursor_position: Position,
    is_dragging: bool,
) -> Option<Quad> {
    match style_for_state(sheet, bounds, cursor_position, is_dragging) {
        Style::Circle(style) => Some(
            Quad {
                bounds: dot_bounds(bounds),
                color: style.color,
                border_radius: circle_radius(dot_bounds(bounds).width as int) as i64,
                border_width: (style.border_width * 65536) as i64,
                border_color: style.border_color,
            },
        ),
        Style::Square(style) => Some(
            Quad {
                bounds: dot_bounds(bounds),
                color: style.color,
                border_radius: (style.border_radius * 65536) as i64,
                border_width: (style.border_width * 65536) as i64,
                border_color: style.border_color,
            },
        ),
        Style::Invisible => None,
    }
}

/// A renderer that turns a dot into a quad.
pub struct QuadRenderer {}

impl Renderer for QuadRenderer {
    type Style = StyleSheet;

    type Output = Option<Quad>;

    /// This renderer makes of a dot the quad of the look that applies.
    open spec fn draws(
        bounds: Rectangle,
        cursor_position: Position,
        is_dragging: bool,
        style: StyleSheet,
        output: Option<Quad>,
    ) -> bool {
        output == dot(style, bounds, cursor_position, is_dragging)
    }

    /// The quad of the dot in the look that applies, if that look draws
    /// anything.
    fn draw(
        &mut self,
        bounds: Rectangle,
        cursor_position: Position,
        is_dragging: bool,
        style_sheet: &StyleSheet,
    ) -> (output: Option<Quad>) {
        let is_mouse_over = bounds.contains(cursor_position);
        let style = if is_dragging {
            style_sheet.dragging
        } else if is_mouse_over {
            style_sheet.hovered
        } else {
            style_sheet.active
        };
        match style {
            Style::Circle(style) => {
                let bounds_x = floor_to_whole(bounds.x);
                let bounds_y = floor_to_whole(bounds.y);
                let bounds_size = floor_to_whole(bounds.width);
                let radius = halved(bounds_size);
                let border_radius: i64 = if radius < 0 {
                    0
                } else {
                    (radius / 65536) * 65536
                };
                Some(
                    Quad {
                        bounds: Bounds {
                            x: bounds_x,
                            y: bounds_y,
                            width: bounds_size,
                            height: bounds_size,
                        },
                        color: style.color,
                        border_radius,
                        border_width: (style.border_width as i64) * 65536,
                        border_color: style.border_color,
                    },
                )
            },
            Style::Square(style) => {
                let bounds_x = floor_to_whole(bounds.x);
                let bounds_y = floor_to_whole(bounds.y);
                let bounds_size = floor_to_whole(bounds.width);
                Some(
                    Quad {
                        bounds: Bounds {
                            x: bounds_x,
                            y: bounds_y,
                            width: bounds_size,
                            height: bounds_size,
                        },
                        color: style.color,
                        border_radius: (style.border_radius as i64) * 65536,
                        border_width: (style.border_width as i64) * 65536,
                        border_color: style.border_color,
                    },
                )
            },
            Style::Invisible => None,
        }
    }
}

} // verus!
