//! A horizontal slider that controls a [`NormalParam`].
//!
//! Dragging to the right raises the value; a drag across the whole width of
//! the slider changes it by the scalar.

use crate::click::{can_follow, click_kind};
use crate::control::{
    step, takes_press, Control, Outcome, Projection, Response, Sensitivity, StateModel,
};
use crate::geometry::{Position, Rectangle};
use crate::input::{ClickKind, Event, Length, Modifiers, Status};
use crate::mod_range::ModulationRange;
use crate::normal::Normal;
use crate::normal_param::NormalParam;
use crate::range::IntRange;
use crate::text_marks;
use crate::tick_marks;
use vstd::prelude::*;

verus! {

/// The height of a slider that was given none, in whole pixels.
pub const DEFAULT_HEIGHT: u16 = 14;

/// The scalar of a slider that was given none: 0.9575 in 16.16 fixed point.
pub const DEFAULT_SCALAR: i32 = 62751;

/// The wheel scalar of a slider that was given none: 0.01 in 16.16 fixed
/// point.
pub const DEFAULT_WHEEL_SCALAR: i32 = 655;

/// The modifier scalar of a slider that was given none: 0.02 in 16.16 fixed
/// point.
pub const DEFAULT_MODIFIER_SCALAR: i32 = 1311;

/// What draws a slider. A renderer gets everything that the look of the
/// slider depends on and answers with its own kind of output.
pub trait Renderer {
    /// The style that this renderer understands.
    type Style;

    /// What this renderer produces.
    type Output;

    /// Whether `output` is what this renderer makes of a slider in these
    /// bounds, under this cursor, with this value, dragged or not, with
    /// these ranges and marks, in this style. A renderer that says nothing
    /// of its output leaves this as it is.
    open spec fn draws(
        bounds: Rectangle,
        cursor_position: Position,
        normal: Normal,
        is_dragging: bool,
        mod_range_1: Option<&ModulationRange>,
        mod_range_2: Option<&ModulationRange>,
        tick_marks: Option<&tick_marks::Group>,
        text_marks: Option<&text_marks::Group>,
        style: Self::Style,
        output: Self::Output,
    ) -> bool {
        true
    }

    /// Draws a slider.
    ///
    /// * `bounds` - the bounds of the slider
    /// * `cursor_position` - where the cursor is
    /// * `normal` - the value that the slider shows
    /// * `is_dragging` - whether the slider is being dragged
    /// * `mod_range_1`, `mod_range_2` - modulation ranges to show
    /// * `tick_marks`, `text_marks` - marks to show
    /// * `style` - the style of the slider
    /// * `tick_marks_cache`, `text_marks_cache` - what was placed last time
    fn draw(
        &mut self,
        bounds: Rectangle,
        cursor_position: Position,
        normal: Normal,
        is_dragging: bool,
        mod_range_1: Option<&ModulationRange>,
        mod_range_2: Option<&ModulationRange>,
        tick_marks: Option<&tick_marks::Group>,
        text_marks: Option<&text_marks::Group>,
        style: &Self::Style,
        tick_marks_cache: &mut tick_marks::PrimitiveCache,
        text_marks_cache: &mut text_marks::PrimitiveCache,
    ) -> (output: Self::Output)
        ensures
            Self::draws(
                bounds,
                cursor_position,
                normal,
                is_dragging,
                mod_range_1,
                mod_range_2,
                tick_marks,
                text_marks,
                *style,
                output,
            ),
    ;
}

/// A horizontal slider as it is set up for one frame: how it answers input
/// and what it shows. What lasts from frame to frame is its [`State`].
pub struct HSlider<'a, S> {
    /// Change of value per slider width that the cursor is dragged.
    pub scalar: i32,
    /// Change of value per line of wheel movement.
    pub wheel_scalar: i32,
    /// What a change is multiplied by while a modifier key is held.
    pub modifier_scalar: i32,
    /// The keys that count as modifier keys.
    pub modifier_keys: Modifiers,
    /// The width that the slider asks for.
    pub width: Length,
    /// The height that the slider asks for.
    pub height: Length,
    /// The style of the slider.
    pub style: S,
    /// The tick marks to show.
    pub tick_marks: Option<&'a tick_marks::Group>,
    /// The text marks to show.
    pub text_marks: Option<&'a text_marks::Group>,
    /// The first modulation range to show.
    pub mod_range_1: Option<&'a ModulationRange>,
    /// The second modulation range to show.
    pub mod_range_2: Option<&'a ModulationRange>,
}

impl<'a, S: Default> HSlider<'a, S> {
    /// A slider with the default sensitivity, the control key as modifier
    /// key, the default style, all the width it can get and the default
    /// height, and nothing else to show.
    pub fn new() -> (slider: Self)
        ensures
            slider.scalar == DEFAULT_SCALAR,
            slider.wheel_scalar == DEFAULT_WHEEL_SCALAR,
            slider.modifier_scalar == DEFAULT_MODIFIER_SCALAR,
            slider.modifier_keys == (Modifiers {
                shift: false,
                control: true,
                alt: false,
                logo: false,
            }),
            slider.width == Length::Fill,
            slider.height == Length::Units(DEFAULT_HEIGHT),
            slider.tick_marks is None,
            slider.text_marks is None,
            slider.mod_range_1 is None,
            slider.mod_range_2 is None,
            call_ensures(S::default, (), slider.style),
    {
        HSlider {
            scalar: DEFAULT_SCALAR,
            wheel_scalar: DEFAULT_WHEEL_SCALAR,
            modifier_scalar: DEFAULT_MODIFIER_SCALAR,
            modifier_keys: Modifiers::ctrl(),
            width: Length::Fill,
            height: Length::Units(DEFAULT_HEIGHT),
            style: S::default(),
            tick_marks: None,
            text_marks: None,
            mod_range_1: None,
            mod_range_2: None,
        }
    }
}

impl<'a, S> HSlider<'a, S> {
    /// Sets the width of the slider.
    pub fn width(self, width: Length) -> (slider: Self)
        ensures
            slider == (HSlider { width, ..self }),
    {
        let mut slider = self;
        slider.width = width;
        slider
    }

    /// Sets the height of the slider.
    pub fn height(self, height: Length) -> (slider: Self)
        ensures
            slider == (HSlider { height, ..self }),
    {
        let mut slider = self;
        slider.height = height;
        slider
    }

    /// Sets the style of the slider.
    pub fn style(self, style: S) -> (slider: Self)
        ensures
            slider == (HSlider { style, ..self }),
    {
        let mut slider = self;
        slider.style = style;
        slider
    }

    /// Sets the keys that count as modifier keys.
    pub fn modifier_keys(self, modifier_keys: Modifiers) -> (slider: Self)
        ensures
            slider == (HSlider { modifier_keys, ..self }),
    {
        let mut slider = self;
        slider.modifier_keys = modifier_keys;
        slider
    }

    /// Sets the change of value per slider width that the cursor is dragged,
    /// in 16.16 fixed point.
    pub fn scalar(self, scalar: i32) -> (slider: Self)
        ensures
            slider == (HSlider { scalar, ..self }),
    {
        let mut slider = self;
        slider.scalar = scalar;
        slider
    }

    /// Sets the change of value per line of wheel movement, in 16.16 fixed
    /// point. Zero turns the wheel off.
    pub fn wheel_scalar(self, wheel_scalar: i32) -> (slider: Self)
        ensures
            slider == (HSlider { wheel_scalar, ..self }),
    {
        let mut slider = self;
        slider.wheel_scalar = wheel_scalar;
        slider
    }

    /// Sets what a change is multiplied by while a modifier key is held, in
    /// 16.16 fixed point.
    pub fn modifier_scalar(self, scalar: i32) -> (slider: Self)
        ensures
            slider == (HSlider { modifier_scalar: scalar, ..self }),
    {
        let mut slider = self;
        slider.modifier_scalar = scalar;
        slider
    }

    /// Sets the tick marks to show.
    pub fn tick_marks(self, tick_marks: &'a tick_marks::Group) -> (slider: Self)
        ensures
            slider == (HSlider { tick_marks: Some(tick_marks), ..self }),
    {
        let mut slider = self;
        slider.tick_marks = Some(tick_marks);
        slider
    }

    /// Sets the text marks to show.
    pub fn text_marks(self, text_marks: &'a text_marks::Group) -> (slider: Self)
        ensures
            slider == (HSlider { text_marks: Some(text_marks), ..self }),
    {
        let mut slider = self;
        slider.text_marks = Some(text_marks);
        slider
    }

    /// Sets the first modulation range to show.
    pub fn mod_range(self, mod_range: &'a ModulationRange) -> (slider: Self)
        ensures
            slider == (HSlider { mod_range_1: Some(mod_range), ..self }),
    {
        let mut slider = self;
        slider.mod_range_1 = Some(mod_range);
        slider
    }

    /// Sets the second modulation range to show.
    pub fn mod_range_2(self, mod_range: &'a ModulationRange) -> (slider: Self)
        ensures
            slider == (HSlider { mod_range_2: Some(mod_range), ..self }),
    {
        let mut slider = self;
        slider.mod_range_2 = Some(mod_range);
        slider
    }

    /// How strongly the slider answers movement.
    pub open spec fn sensitivity_spec(self) -> Sensitivity {
        Sensitivity {
            scalar: self.scalar,
            wheel_scalar: self.wheel_scalar,
            modifier_scalar: self.modifier_scalar,
            modifier_keys: self.modifier_keys,
        }
    }

    /// How strongly the slider answers movement.
    pub fn sensitivity(&self) -> (sensitivity: Sensitivity)
        ensures
            sensitivity == self.sensitivity_spec(),
    {
        Sensitivity {
            scalar: self.scalar,
            wheel_scalar: self.wheel_scalar,
            modifier_scalar: self.modifier_scalar,
            modifier_keys: self.modifier_keys,
        }
    }

    /// What an event comes to for this slider: what [`step`] says of a
    /// control with the sensitivity of the slider that follows the cursor
    /// along its width.
    pub open spec fn step(
        self,
        state: StateModel,
        event: Event,
        click: ClickKind,
        bounds: Rectangle,
        cursor_position: Position,
    ) -> Outcome {
        step(
            self.sensitivity_spec(),
            Projection::AlongWidth,
            state,
            event,
            click,
            bounds,
            cursor_position,
        )
    }

    /// Changes the position of the slider by `normal_delta` and returns the
    /// new value for the host.
    pub fn move_virtual_slider(&self, state: &mut State, normal_delta: i128) -> (value: Normal)
        ensures
            final(state)@ == old(state)@.after_move(self.sensitivity_spec(), normal_delta as int),
            value@ == final(state)@.value,
            final(state).last_press() == old(state).last_press(),
            final(state).caches() == old(state).caches(),
    {
        let sensitivity = self.sensitivity();
        state.control.move_virtual_slider(&sensitivity, normal_delta)
    }

    /// Handles one event, given the kind of click that it is if it is a
    /// press, and says whether it was used and what the host is to be told.
    pub fn respond(
        &self,
        state: &mut State,
        event: Event,
        click: ClickKind,
        bounds: Rectangle,
        cursor_position: Position,
    ) -> (response: Response)
        ensures
            final(state)@ == self.step(old(state)@, event, click, bounds, cursor_position).state,
            response.tells(self.step(old(state)@, event, click, bounds, cursor_position)),
            old(state)@.wf() ==> final(state)@.wf(),
            final(state).last_press() == old(state).last_press(),
            final(state).caches() == old(state).caches(),
    {
        let sensitivity = self.sensitivity();
        state.control.respond(
            &sensitivity,
            Projection::AlongWidth,
            event,
            click,
            bounds,
            cursor_position,
        )
    }

    /// Handles one event and says whether it was used and what the host is
    /// to be told.
    ///
    /// A press of the left button inside the bounds goes to click detection
    /// first, with `pointer` and the last press that the slider took.
    /// `pointer` is the position of the cursor once more, as the toolkit
    /// measures it: it goes to click detection and nowhere else, and
    /// everything that the slider itself decides goes by `cursor_position`.
    /// Whatever kind of
    /// click detection finds, the slider does what [`Self::step`] says of that
    /// kind, records the kind and keeps the press for the next detection.
    /// Every other event is handled as [`Self::step`] says, whatever the
    /// kind.
    pub fn on_event(
        &self,
        state: &mut State,
        event: Event,
        bounds: Rectangle,
        cursor_position: Position,
        pointer: iced_native::Point,
    ) -> (response: Response)
        ensures
            !takes_press(event, bounds, cursor_position) ==> {
                &&& final(state)@ == self.step(
                    old(state)@,
                    event,
                    ClickKind::Single,
                    bounds,
                    cursor_position,
                ).state
                &&& response.tells(
                    self.step(old(state)@, event, ClickKind::Single, bounds, cursor_position),
                )
                &&& final(state).last_press() == old(state).last_press()
            },
            takes_press(event, bounds, cursor_position) ==> {
                &&& response.status == Status::Captured
                &&& final(state).last_press() is Some
                &&& final(state)@.last_click == Some(click_kind(final(state).last_press()->0))
                &&& can_follow(final(state)@.last_click->0, old(state).last_press())
                &&& final(state)@ == self.step(
                    old(state)@,
                    event,
                    final(state)@.last_click->0,
                    bounds,
                    cursor_position,
                ).state
                &&& response.tells(
                    self.step(
                        old(state)@,
                        event,
                        final(state)@.last_click->0,
                        bounds,
                        cursor_position,
                    ),
                )
            },
            old(state)@.wf() ==> final(state)@.wf(),
            final(state).caches() == old(state).caches(),
    {
        let sensitivity = self.sensitivity();
        state.control.on_event(
            &sensitivity,
            Projection::AlongWidth,
            event,
            bounds,
            cursor_position,
            pointer,
        )
    }

    /// Hands everything that the look of the slider depends on to a
    /// renderer, and returns what the renderer makes of it. The value and
    /// the dragging state stay as they are.
    pub fn draw<R: Renderer<Style = S>>(
        &self,
        state: &mut State,
        renderer: &mut R,
        bounds: Rectangle,
        cursor_position: Position,
    ) -> (output: R::Output)
        ensures
            final(state)@ == old(state)@,
            final(state).last_press() == old(state).last_press(),
            R::draws(
                bounds,
                cursor_position,
                old(state).shown(),
                old(state)@.dragging,
                self.mod_range_1,
                self.mod_range_2,
                self.tick_marks,
                self.text_marks,
                self.style,
                output,
            ),
    {
        renderer.draw(
            bounds,
            cursor_position,
            state.control.normal(),
            state.control.is_dragging(),
            self.mod_range_1,
            self.mod_range_2,
            self.tick_marks,
            self.text_marks,
            &self.style,
            &mut state.tick_marks_cache,
            &mut state.text_marks_cache,
        )
    }
}

/// What lasts of a horizontal slider from frame to frame.
pub struct State {
    control: Control,
    tick_marks_cache: tick_marks::PrimitiveCache,
    text_marks_cache: text_marks::PrimitiveCache,
}

impl View for State {
    type V = StateModel;

    closed spec fn view(&self) -> StateModel {
        self.control@
    }
}

impl State {
    /// The value that the slider shows.
    pub closed spec fn shown(&self) -> Normal {
        self.control.normal_param_spec().value
    }

    /// The last press that the slider took, as click detection keeps it.
    pub closed spec fn last_press(&self) -> Option<iced_native::mouse::Click> {
        self.control.last_press()
    }

    /// What the two caches of the state hold.
    pub closed spec fn caches(&self) -> (tick_marks::CacheModel, text_marks::CacheModel) {
        (self.tick_marks_cache@, self.text_marks_cache@)
    }

    /// The state of a slider for a parameter: idle, with empty caches.
    pub fn new(normal_param: NormalParam) -> (state: Self)
        ensures
            state@ == (StateModel {
                value: normal_param.value@,
                default: normal_param.default@,
                continuous: normal_param.value@,
                dragging: false,
                prev_drag: 0,
                pressed: Modifiers { shift: false, control: false, alt: false, logo: false },
                last_click: None,
            }),
            state@.wf(),
            state.caches().0.entry is None,
            state.caches().1.entry is None,
            state.last_press() is None,
    {
        State {
            control: Control::new(normal_param),
            tick_marks_cache: tick_marks::PrimitiveCache::new(),
            text_marks_cache: text_marks::PrimitiveCache::new(),
        }
    }

    /// Sets the value of the slider, and its continuous position with it.
    pub fn set_normal(&mut self, normal: Normal)
        ensures
            final(self)@ == (StateModel {
                value: normal@,
                continuous: normal@,
                ..old(self)@
            }),
            final(self).caches() == old(self).caches(),
            final(self).last_press() == old(self).last_press(),
    {
        self.control.set_normal(normal);
    }

    /// The value of the slider.
    pub fn normal(&self) -> (normal: Normal)
        ensures
            normal == self.shown(),
            normal@ == self@.value,
    {
        self.control.normal()
    }

    /// Sets the value that a reset restores.
    pub fn set_default(&mut self, normal: Normal)
        ensures
            final(self)@ == (StateModel { default: normal@, ..old(self)@ }),
            final(self).caches() == old(self).caches(),
            final(self).last_press() == old(self).last_press(),
    {
        self.control.set_default(normal);
    }

    /// The value that a reset restores.
    pub fn default(&self) -> (normal: Normal)
        ensures
            normal@ == self@.default,
    {
        self.control.default()
    }

    /// Snaps the value that the slider shows to the nearest step of `range`.
    pub fn snap_visible_to(&mut self, range: &IntRange)
        ensures
            final(self)@ == (StateModel {
                value: range@.snapped(old(self)@.value),
                ..old(self)@
            }),
            final(self).caches() == old(self).caches(),
            final(self).last_press() == old(self).last_press(),
    {
        self.control.snap_visible_to(range);
    }

    /// Whether the slider is being dragged.
    pub fn is_dragging(&self) -> (dragging: bool)
        ensures
            dragging == self@.dragging,
    {
        self.control.is_dragging()
    }

    /// The kind of the last press that the slider took.
    pub fn last_click(&self) -> (click: Option<ClickKind>)
        ensures
            click == self@.last_click,
    {
        self.control.last_click()
    }
}

impl Clone for State {
    /// A state with the same values and the same cached marks.
    fn clone(&self) -> (copy: Self)
        ensures
            copy@ == self@,
            copy.caches() == self.caches(),
            copy.last_press() == self.last_press(),
    {
        State {
            control: self.control,
            tick_marks_cache: self.tick_marks_cache.clone(),
            text_marks_cache: self.text_marks_cache.clone(),
        }
    }
}

} // verus!
