//! The state machine that every control shares.
//!
//! A control is idle or being dragged. It keeps a continuous position, which
//! gathers every movement at full precision, beside the value that it shows,
//! which a range may have snapped to a step: small movements are never lost
//! to snapping. The families of controls differ only in the axis along which
//! they follow the cursor, which a [`Projection`] says.

use crate::click::{can_follow, classify, click_kind};
use crate::fixed::{
    clamp, div_toward_zero, lemma_fraction_shrinks, lemma_product_bound, lemma_trunc_div_near,
    magnitude, trunc_div, NORMAL_ONE,
};
use crate::geometry::{Position, Rectangle};
use crate::input::{Button, ClickKind, Event, Modifiers, ScrollDelta, Status};
use crate::normal::Normal;
use crate::normal_param::NormalParam;
use crate::range::IntRange;
use vstd::prelude::*;

verus! {

/// A change of position, in steps of a normal, beyond which every change
/// does the same: far more than the whole range, even after fine
/// adjustment. Every change that a control computes from 32-bit input lies
/// within it.
pub const DELTA_LIMIT: i128 = 0x1_0000_0000_0000_0000_0000;

/// How strongly a control answers movement. Scalars are 16.16 fixed point.
#[derive(Clone, Copy, Debug, PartialEq, Eq, Structural)]
pub struct Sensitivity {
    /// Change of position per unit of pointer movement.
    pub scalar: i32,
    /// Change of position per line of wheel movement; zero turns the wheel
    /// off.
    pub wheel_scalar: i32,
    /// What a change is multiplied by while a modifier key is held.
    pub modifier_scalar: i32,
    /// The keys that count as modifier keys.
    pub modifier_keys: Modifiers,
}

/// How a control turns movement of the cursor into a change of position. In
/// every case the change is the part of the scalar that the distance dragged
/// is of the span of the bounds along the axis.
#[derive(Clone, Copy, Debug, PartialEq, Eq, Structural)]
pub enum Projection {
    /// The control follows the cursor along the width of its bounds: a drag
    /// across the whole width changes the position by the scalar, and a drag
    /// to the right raises it. In bounds without width a drag is not
    /// followed.
    AlongWidth,
    /// The control follows the cursor along the height of its bounds: a drag
    /// across the whole height changes the position by the scalar, and a
    /// drag downward lowers it. In bounds without height a drag is not
    /// followed.
    AlongHeight,
}

impl Projection {
    /// The coordinate of the cursor that a drag follows.
    pub open spec fn coordinate_spec(self, cursor_position: Position) -> int {
        match self {
            Projection::AlongWidth => cursor_position.x as int,
            Projection::AlongHeight => cursor_position.y as int,
        }
    }

    /// The span of the bounds along the axis that a drag follows.
    pub open spec fn span_spec(self, bounds: Rectangle) -> int {
        match self {
            Projection::AlongWidth => bounds.width as int,
            Projection::AlongHeight => bounds.height as int,
        }
    }

    /// Whether a drag can be followed in these bounds: whether they have a
    /// span along the axis.
    pub open spec fn follows_spec(self, bounds: Rectangle) -> bool {
        self.span_spec(bounds) > 0
    }

    /// The change of position that a drag over `distance` asks for, where
    /// the drag can be followed: the part `distance / span` of the scalar,
    /// toward zero. The change is taken off the position, so along the
    /// width it counts against the direction of the movement, and a drag to
    /// the right raises the position; along the height it counts with the
    /// movement, and a drag downward lowers the position.
    pub open spec fn drag_delta(self, distance: int, bounds: Rectangle, scalar: int) -> int {
        match self {
            Projection::AlongWidth => trunc_div(distance * (-scalar) * 65536, bounds.width as int),
            Projection::AlongHeight => trunc_div(distance * scalar * 65536, bounds.height as int),
        }
    }

    /// The coordinate of the cursor that a drag follows.
    pub fn coordinate(&self, cursor_position: Position) -> (at: i32)
        ensures
            at == self.coordinate_spec(cursor_position),
    {
        match self {
            Projection::AlongWidth => cursor_position.x,
            Projection::AlongHeight => cursor_position.y,
        }
    }

    /// Whether a drag can be followed in these bounds.
    pub fn follows(&self, bounds: &Rectangle) -> (followed: bool)
        ensures
            followed == self.follows_spec(*bounds),
    {
        match self {
            Projection::AlongWidth => bounds.width > 0,
            Projection::AlongHeight => bounds.height > 0,
        }
    }

    /// The change of position that a drag from `from` to `to` asks for.
    pub fn drag_change(&self, from: i32, to: i32, bounds: &Rectangle, scalar: i32) -> (delta: i128)
        requires
            self.follows_spec(*bounds),
        ensures
            delta == self.drag_delta(to - from, *bounds, scalar as int),
            magnitude(delta as int) <= DELTA_LIMIT,
    {
        let distance: i64 = to as i64 - from as i64;
        match self {
            Projection::AlongWidth => {
                proof {
                    lemma_product_bound(
                        distance as int,
                        -(scalar as int),
                        0x1_0000_0000,
                        0x8000_0000,
                    );
                    lemma_product_bound(
                        distance * (-(scalar as int)),
                        65536,
                        0x8000_0000_0000_0000,
                        65536,
                    );
                }
                div_toward_zero(
                    (distance as i128) * (-(scalar as i128)) * 65536,
                    bounds.width as i128,
                )
            },
            Projection::AlongHeight => {
                proof {
                    lemma_product_bound(
                        distance as int,
                        scalar as int,
                        0x1_0000_0000,
                        0x8000_0000,
                    );
                    lemma_product_bound(
                        distance * (scalar as int),
                        65536,
                        0x8000_0000_0000_0000,
                        65536,
                    );
                }
                div_toward_zero(
                    (distance as i128) * (scalar as i128) * 65536,
                    bounds.height as i128,
                )
            },
        }
    }
}

/// What the state of a control holds, each normal as its count of steps.
pub struct StateModel {
    /// The value that the control shows.
    pub value: int,
    /// The value that a reset restores.
    pub default: int,
    /// The position that movements have added up to.
    pub continuous: int,
    /// Whether the control is being dragged.
    pub dragging: bool,
    /// Where the cursor was, along the drag axis, at the last movement.
    pub prev_drag: int,
    /// The modifier keys that are held.
    pub pressed: Modifiers,
    /// The kind of the last press that the control took.
    pub last_click: Option<ClickKind>,
}

/// A change of position as it takes effect: multiplied by the modifier
/// scalar, toward zero, while a modifier key is held.
pub open spec fn fine_adjusted(delta: int, held: bool, modifier_scalar: int) -> int {
    if held {
        trunc_div(delta * modifier_scalar, 65536)
    } else {
        delta
    }
}

/// The position after a change: the change is taken off, and the result
/// stays between zero and one.
pub open spec fn moved(continuous: int, delta: int) -> int {
    clamp(continuous - delta, 0, NORMAL_ONE as int)
}

/// The way a wheel movement points: one if its vertical part is above zero,
/// minus one if it is below, zero if there is none. Lines and pixels count
/// alike, and so do small and large movements: one event is one step.
pub open spec fn wheel_direction(delta: ScrollDelta) -> int {
    let y = match delta {
        ScrollDelta::Lines { x, y } => y,
        ScrollDelta::Pixels { x, y } => y,
    };
    if y > 0 {
        1
    } else if y < 0 {
        -1
    } else {
        0
    }
}

/// The change of position that one step of the wheel asks for: the wheel
/// scalar, against the direction, so that scrolling up raises the value.
pub open spec fn wheel_delta(direction: int, wheel_scalar: int) -> int {
    -direction * wheel_scalar * 65536
}

impl StateModel {
    /// Whether the values are normals.
    pub open spec fn wf(self) -> bool {
        &&& 0 <= self.value <= NORMAL_ONE
        &&& 0 <= self.default <= NORMAL_ONE
        &&& 0 <= self.continuous <= NORMAL_ONE
    }

    /// Whether a modifier key of `sensitivity` is held.
    pub open spec fn fine(self, sensitivity: Sensitivity) -> bool {
        self.pressed.intersects_spec(sensitivity.modifier_keys)
    }

    /// The state after a change of position by `delta`: the continuous
    /// position moves, and the value follows it.
    pub open spec fn after_move(self, sensitivity: Sensitivity, delta: int) -> StateModel {
        let position = moved(
            self.continuous,
            fine_adjusted(delta, self.fine(sensitivity), sensitivity.modifier_scalar as int),
        );
        StateModel { continuous: position, value: position, ..self }
    }

    /// The state after a press at `at` along the drag axis: a single click
    /// starts a drag there; any other click ends dragging and resets the
    /// value to the default.
    pub open spec fn after_press(self, at: int, click: ClickKind) -> StateModel {
        if click == ClickKind::Single {
            StateModel { dragging: true, prev_drag: at, last_click: Some(click), ..self }
        } else {
            StateModel { dragging: false, value: self.default, last_click: Some(click), ..self }
        }
    }

    /// The state after the button came up: dragging ends, and the continuous
    /// position starts anew from the value shown.
    pub open spec fn after_release(self) -> StateModel {
        StateModel { dragging: false, continuous: self.value, ..self }
    }

    /// The state after a key event that leaves `modifiers` held.
    pub open spec fn after_key(self, modifiers: Modifiers) -> StateModel {
        StateModel { pressed: modifiers, ..self }
    }
}

/// A change of position beyond the limit moves the position where the limit
/// moves it: into an end of its range, or not at all.
proof fn lemma_change_beyond_limit(continuous: int, delta: int, held: bool, modifier_scalar: int)
    requires
        0 <= continuous <= NORMAL_ONE,
    ensures
        moved(continuous, fine_adjusted(delta, held, modifier_scalar)) == moved(
            continuous,
            fine_adjusted(
                clamp(delta, -(DELTA_LIMIT as int), DELTA_LIMIT as int),
                held,
                modifier_scalar,
            ),
        ),
{
    let limit = DELTA_LIMIT as int;
    let bounded = clamp(delta, -limit, limit);
    if held && bounded != delta {
        let m = modifier_scalar;
        if m > 0 {
            assert(delta * m >= limit && bounded * m >= limit || delta * m <= -limit && bounded * m
                <= -limit) by (nonlinear_arith)
                requires
                    m >= 1,
                    limit > 0,
                    delta > limit && bounded == limit || delta < -limit && bounded == -limit,
            ;
        } else if m < 0 {
            assert(delta * m >= limit && bounded * m >= limit || delta * m <= -limit && bounded * m
                <= -limit) by (nonlinear_arith)
                requires
                    m <= -1,
                    limit > 0,
                    delta > limit && bounded == limit || delta < -limit && bounded == -limit,
            ;
        } else {
            assert(delta * m == 0 && bounded * m == 0) by (nonlinear_arith)
                requires
                    m == 0,
            ;
        }
        lemma_quotient_beyond_limit(delta * m);
        lemma_quotient_beyond_limit(bounded * m);
    }
}

/// A 65536th of a product beyond the limit is beyond one.
proof fn lemma_quotient_beyond_limit(product: int)
    ensures
        product >= DELTA_LIMIT ==> trunc_div(product, 65536) > NORMAL_ONE,
        product <= -DELTA_LIMIT ==> trunc_div(product, 65536) < -NORMAL_ONE,
{
    if product >= DELTA_LIMIT {
        assert(product / 65536 >= 0x1_0000_0000_0000_0000) by (nonlinear_arith)
            requires
                product >= 0x1_0000_0000_0000_0000_0000,
        ;
    }
    if product <= -DELTA_LIMIT {
        assert((-product) / 65536 >= 0x1_0000_0000_0000_0000) by (nonlinear_arith)
            requires
                -product >= 0x1_0000_0000_0000_0000_0000,
        ;
    }
}

/// While a modifier key is held, with a modifier scalar below one, a change
/// other than zero takes effect strictly smaller than it does otherwise.
pub proof fn lemma_fine_adjust_smaller(delta: int, modifier_scalar: int)
    requires
        delta != 0,
        0 <= modifier_scalar < 65536,
    ensures
        magnitude(fine_adjusted(delta, true, modifier_scalar)) < magnitude(
            fine_adjusted(delta, false, modifier_scalar),
        ),
{
    lemma_fraction_shrinks(delta, modifier_scalar);
}

/// The same change of position moves the value strictly less while a
/// modifier key is held than while none is, for a modifier scalar below one,
/// provided that the change without the key moves the value at all and does
/// not run it into an end of its range.
pub proof fn lemma_modifier_moves_less(
    state: StateModel,
    held: Modifiers,
    sensitivity: Sensitivity,
    delta: int,
)
    requires
        state.wf(),
        0 <= sensitivity.modifier_scalar < 65536,
        !state.fine(sensitivity),
        held.intersects_spec(sensitivity.modifier_keys),
        delta != 0,
        0 <= state.continuous - delta <= NORMAL_ONE,
    ensures
        magnitude(
            state.after_key(held).after_move(sensitivity, delta).value - state.continuous,
        ) < magnitude(state.after_move(sensitivity, delta).value - state.continuous),
        state.after_move(sensitivity, delta).value == state.continuous - delta,
{
    lemma_fraction_shrinks(delta, sensitivity.modifier_scalar as int);
}

/// Any click but a single one resets the value to the default, whatever the
/// value was, and ends dragging.
pub proof fn lemma_reset_on_repeated_click(state: StateModel, at: int, click: ClickKind)
    requires
        click != ClickKind::Single,
    ensures
        state.after_press(at, click).value == state.default,
        state.after_press(at, click).default == state.default,
        !state.after_press(at, click).dragging,
{
}

/// Every transition of the machine leaves a value, a default and a position
/// that are normals.
pub proof fn lemma_transitions_keep_normals(
    state: StateModel,
    sensitivity: Sensitivity,
    delta: int,
    at: int,
    click: ClickKind,
    modifiers: Modifiers,
)
    requires
        state.wf(),
    ensures
        state.after_move(sensitivity, delta).wf(),
        state.after_press(at, click).wf(),
        state.after_release().wf(),
        state.after_key(modifiers).wf(),
{
}

/// What handling one event comes to: the state after it, whether the event
/// was used, and the value that the host is told of, if any.
pub struct Outcome {
    /// The state after the event.
    pub state: StateModel,
    /// Whether the control made use of the event.
    pub status: Status,
    /// The value that the host is told of, as its count of steps.
    pub message: Option<int>,
}

/// The outcome of an event that the control has no use for.
pub open spec fn ignored(state: StateModel) -> Outcome {
    Outcome { state, status: Status::Ignored, message: None }
}

/// Whether an event is a press of the left button with the cursor inside the
/// bounds: the one event that click detection is asked about.
pub open spec fn takes_press(event: Event, bounds: Rectangle, cursor_position: Position) -> bool {
    event == (Event::ButtonPressed { button: Button::Left }) && bounds.contains_spec(
        cursor_position,
    )
}

/// What an event comes to, given how the control answers movement, the state
/// before the event, the kind of click that a press is, the bounds of the
/// control and the position of the cursor. The kind of click matters to a
/// press of the left button inside the bounds and to nothing else.
///
/// * The cursor moved: a control that is being dragged, in bounds that a
///   drag can be followed in, moves by the distance from where the cursor
///   was and tells the host.
/// * The wheel turned: unless the wheel scalar is zero, a control with the
///   cursor inside moves by one step of the wheel scalar and tells the host.
/// * The left button went down inside: a single click starts a drag; any
///   other click resets the value and tells the host.
/// * The left button came up: dragging ends.
/// * A key went down or came up: the modifier keys are recorded.
///
/// Every other event is ignored and changes nothing.
pub open spec fn step(
    sensitivity: Sensitivity,
    projection: Projection,
    state: StateModel,
    event: Event,
    click: ClickKind,
    bounds: Rectangle,
    cursor_position: Position,
) -> Outcome {
    match event {
        Event::CursorMoved => {
            if state.dragging && projection.follows_spec(bounds) {
                let at = projection.coordinate_spec(cursor_position);
                let delta = projection.drag_delta(
                    at - state.prev_drag,
                    bounds,
                    sensitivity.scalar as int,
                );
                let followed = StateModel { prev_drag: at, ..state };
                let next = followed.after_move(sensitivity, delta);
                Outcome { state: next, status: Status::Captured, message: Some(next.value) }
            } else {
                ignored(state)
            }
        },
        Event::WheelScrolled { delta } => {
            if sensitivity.wheel_scalar != 0 && bounds.contains_spec(cursor_position)
                && wheel_direction(delta) != 0 {
                let next = state.after_move(
                    sensitivity,
                    wheel_delta(wheel_direction(delta), sensitivity.wheel_scalar as int),
                );
                Outcome { state: next, status: Status::Captured, message: Some(next.value) }
            } else {
                ignored(state)
            }
        },
        Event::ButtonPressed { button } => {
            if button == Button::Left && bounds.contains_spec(cursor_position) {
                Outcome {
                    state: state.after_press(projection.coordinate_spec(cursor_position), click),
                    status: Status::Captured,
                    message: if click == ClickKind::Single {
                        None
                    } else {
                        Some(state.default)
                    },
                }
            } else {
                ignored(state)
            }
        },
        Event::ButtonReleased { button } => {
            if button == Button::Left {
                Outcome { state: state.after_release(), status: Status::Captured, message: None }
            } else {
                ignored(state)
            }
        },
        Event::KeyPressed { modifiers } => Outcome {
            state: state.after_key(modifiers),
            status: Status::Captured,
            message: None,
        },
        Event::KeyReleased { modifiers } => Outcome {
            state: state.after_key(modifiers),
            status: Status::Captured,
            message: None,
        },
        Event::Other => ignored(state),
    }
}

/// Every event leaves a value, a default and a position that are normals.
pub proof fn lemma_step_keeps_normals(
    sensitivity: Sensitivity,
    projection: Projection,
    state: StateModel,
    event: Event,
    click: ClickKind,
    bounds: Rectangle,
    cursor_position: Position,
)
    requires
        state.wf(),
    ensures
        step(sensitivity, projection, state, event, click, bounds, cursor_position).state.wf(),
{
}

/// What an event comes to does not depend on the kind of click, unless the
/// event is a press of the left button inside the bounds.
pub proof fn lemma_click_matters_to_presses_only(
    sensitivity: Sensitivity,
    projection: Projection,
    state: StateModel,
    event: Event,
    one: ClickKind,
    other: ClickKind,
    bounds: Rectangle,
    cursor_position: Position,
)
    requires
        !takes_press(event, bounds, cursor_position),
    ensures
        step(sensitivity, projection, state, event, one, bounds, cursor_position) == step(
            sensitivity,
            projection,
            state,
            event,
            other,
            bounds,
            cursor_position,
        ),
{
}

/// A double or triple click inside the bounds resets the value to the
/// default and tells the host of the default, once; the event is used and
/// dragging ends.
pub proof fn lemma_double_click_resets(
    sensitivity: Sensitivity,
    projection: Projection,
    state: StateModel,
    bounds: Rectangle,
    cursor_position: Position,
    click: ClickKind,
)
    requires
        click != ClickKind::Single,
        bounds.contains_spec(cursor_position),
    ensures
        ({
            let outcome = step(
                sensitivity,
                projection,
                state,
                Event::ButtonPressed { button: Button::Left },
                click,
                bounds,
                cursor_position,
            );
            &&& outcome.state.value == state.default
            &&& outcome.message == Some(state.default)
            &&& outcome.status == Status::Captured
            &&& !outcome.state.dragging
        }),
{
}

/// With a wheel scalar of zero the wheel does nothing: the event is ignored,
/// the state stays as it is and the host is told nothing.
pub proof fn lemma_wheel_disabled(
    sensitivity: Sensitivity,
    projection: Projection,
    state: StateModel,
    delta: ScrollDelta,
    click: ClickKind,
    bounds: Rectangle,
    cursor_position: Position,
)
    requires
        sensitivity.wheel_scalar == 0,
    ensures
        step(
            sensitivity,
            projection,
            state,
            Event::WheelScrolled { delta },
            click,
            bounds,
            cursor_position,
        ) == ignored(state),
{
}

/// The same movement of the cursor takes the value strictly less far from
/// the position that the control stood at while a modifier key is held than
/// while none is, for a modifier scalar below one, provided that the
/// movement without the key changes the position at all and does not run it
/// into an end of its range.
pub proof fn lemma_modifier_drags_less(
    sensitivity: Sensitivity,
    projection: Projection,
    state: StateModel,
    held: Modifiers,
    bounds: Rectangle,
    cursor_position: Position,
)
    requires
        state.wf(),
        state.dragging,
        projection.follows_spec(bounds),
        0 <= sensitivity.modifier_scalar < 65536,
        !state.fine(sensitivity),
        held.intersects_spec(sensitivity.modifier_keys),
        projection.drag_delta(
            projection.coordinate_spec(cursor_position) - state.prev_drag,
            bounds,
            sensitivity.scalar as int,
        ) != 0,
        0 <= state.continuous - projection.drag_delta(
            projection.coordinate_spec(cursor_position) - state.prev_drag,
            bounds,
            sensitivity.scalar as int,
        ) <= NORMAL_ONE,
    ensures
        magnitude(
            step(
                sensitivity,
                projection,
                state.after_key(held),
                Event::CursorMoved,
                ClickKind::Single,
                bounds,
                cursor_position,
            ).state.value - state.continuous,
        ) < magnitude(
            step(
                sensitivity,
                projection,
                state,
                Event::CursorMoved,
                ClickKind::Single,
                bounds,
                cursor_position,
            ).state.value - state.continuous,
        ),
{
    let at = projection.coordinate_spec(cursor_position);
    lemma_modifier_moves_less(
        StateModel { prev_drag: at, ..state },
        held,
        sensitivity,
        projection.drag_delta(at - state.prev_drag, bounds, sensitivity.scalar as int),
    );
}

/// The state after the cursor moved to each of `positions` in turn.
pub open spec fn dragged(
    sensitivity: Sensitivity,
    projection: Projection,
    state: StateModel,
    bounds: Rectangle,
    positions: Seq<Position>,
) -> StateModel
    decreases positions.len(),
{
    if positions.len() == 0 {
        state
    } else {
        step(
            sensitivity,
            projection,
            dragged(sensitivity, projection, state, bounds, positions.drop_last()),
            Event::CursorMoved,
            ClickKind::Single,
            bounds,
            positions.last(),
        ).state
    }
}

/// Whether no move of a drag through `positions` runs the position of the
/// control into an end of its range.
pub open spec fn drags_freely(
    sensitivity: Sensitivity,
    projection: Projection,
    state: StateModel,
    bounds: Rectangle,
    positions: Seq<Position>,
) -> bool
    decreases positions.len(),
{
    if positions.len() == 0 {
        true
    } else {
        let before = dragged(sensitivity, projection, state, bounds, positions.drop_last());
        &&& drags_freely(sensitivity, projection, state, bounds, positions.drop_last())
        &&& 0 <= before.continuous - projection.drag_delta(
            projection.coordinate_spec(positions.last()) - before.prev_drag,
            bounds,
            sensitivity.scalar as int,
        ) <= NORMAL_ONE
    }
}

/// A drag along the width of a control raises the continuous position by
/// the part of the scalar that the distance covered is of the width,
/// whatever moves the distance was covered in: with `d` the distance from
/// where the drag stood to the last position, the position ends within one
/// step of a normal per move of `continuous + d / width * scalar`. This
/// holds of a control that is being dragged with no modifier key held, in
/// bounds of positive width, as long as no move runs into an end of the
/// range, where the position stops. The value shown follows the position.
pub proof fn lemma_drag_adds_up(
    sensitivity: Sensitivity,
    state: StateModel,
    bounds: Rectangle,
    positions: Seq<Position>,
)
    requires
        state.wf(),
        state.dragging,
        bounds.width > 0,
        !state.fine(sensitivity),
        positions.len() > 0,
        drags_freely(sensitivity, Projection::AlongWidth, state, bounds, positions),
    ensures
        ({
            let end = dragged(sensitivity, Projection::AlongWidth, state, bounds, positions);
            let distance = positions.last().x - state.prev_drag;
            let exact = state.continuous * bounds.width + distance * sensitivity.scalar * 65536;
            &&& exact - positions.len() * bounds.width < end.continuous * bounds.width
            &&& end.continuous * bounds.width < exact + positions.len() * bounds.width
            &&& 0 <= end.continuous <= NORMAL_ONE
            &&& end.value == end.continuous
            &&& end.prev_drag == positions.last().x
            &&& end.dragging
            &&& end.pressed == state.pressed
        }),
    decreases positions.len(),
{
    let projection = Projection::AlongWidth;
    let width = bounds.width as int;
    let scalar = sensitivity.scalar as int;
    let earlier = positions.drop_last();
    let before = dragged(sensitivity, projection, state, bounds, earlier);
    if earlier.len() > 0 {
        lemma_drag_adds_up(sensitivity, state, bounds, earlier);
    }
    let dx = positions.last().x - before.prev_drag;
    let a = dx * (-scalar) * 65536;
    let t = projection.drag_delta(dx, bounds, scalar);
    lemma_trunc_div_near(a, width);
    let end = dragged(sensitivity, projection, state, bounds, positions);
    assert(end.continuous == before.continuous - t);
    assert(a == -(dx * scalar * 65536)) by (nonlinear_arith)
        requires
            a == dx * (-scalar) * 65536,
    ;
    let done = before.prev_drag - state.prev_drag;
    assert((done + dx) * scalar * 65536 == done * scalar * 65536 + dx * scalar * 65536)
        by (nonlinear_arith);
    assert((before.continuous - t) * width == before.continuous * width - t * width)
        by (nonlinear_arith);
    assert((earlier.len() + 1) * width == earlier.len() * width + width) by (nonlinear_arith);
    if earlier.len() == 0 {
        assert(done * scalar * 65536 == 0) by (nonlinear_arith)
            requires
                done == 0,
        ;
        assert(earlier.len() * width == 0) by (nonlinear_arith)
            requires
                earlier.len() == 0,
        ;
    }
}

/// A drag along the height of a control lowers the continuous position by
/// the part of the scalar that the distance covered downward is of the
/// height, whatever moves the distance was covered in: with `d` the distance
/// from where the drag stood to the last position, the position ends within
/// one step of a normal per move of `continuous - d / height * scalar`. This
/// holds of a control that is being dragged with no modifier key held, in
/// bounds of positive height, as long as no move runs into an end of the
/// range, where the position stops. The value shown follows the position.
pub proof fn lemma_drag_along_height_adds_up(
    sensitivity: Sensitivity,
    state: StateModel,
    bounds: Rectangle,
    positions: Seq<Position>,
)
    requires
        state.wf(),
        state.dragging,
        bounds.height > 0,
        !state.fine(sensitivity),
        positions.len() > 0,
        drags_freely(sensitivity, Projection::AlongHeight, state, bounds, positions),
    ensures
        ({
            let end = dragged(sensitivity, Projection::AlongHeight, state, bounds, positions);
            let distance = positions.last().y - state.prev_drag;
            let exact = state.continuous * bounds.height - distance * sensitivity.scalar * 65536;
            &&& exact - positions.len() * bounds.height < end.continuous * bounds.height
            &&& end.continuous * bounds.height < exact + positions.len() * bounds.height
            &&& 0 <= end.continuous <= NORMAL_ONE
            &&& end.value == end.continuous
            &&& end.prev_drag == positions.last().y
            &&& end.dragging
            &&& end.pressed == state.pressed
        }),
    decreases positions.len(),
{
    let projection = Projection::AlongHeight;
    let height = bounds.height as int;
    let scalar = sensitivity.scalar as int;
    let earlier = positions.drop_last();
    let before = dragged(sensitivity, projection, state, bounds, earlier);
    if earlier.len() > 0 {
        lemma_drag_along_height_adds_up(sensitivity, state, bounds, earlier);
    }
    let dy = positions.last().y - before.prev_drag;
    let a = dy * scalar * 65536;
    let t = projection.drag_delta(dy, bounds, scalar);
    lemma_trunc_div_near(a, height);
    let end = dragged(sensitivity, projection, state, bounds, positions);
    assert(end.continuous == before.continuous - t);
    let done = before.prev_drag - state.prev_drag;
    assert((done + dy) * scalar * 65536 == done * scalar * 65536 + dy * scalar * 65536)
        by (nonlinear_arith);
    assert((before.continuous - t) * height == before.continuous * height - t * height)
        by (nonlinear_arith);
    assert((earlier.len() + 1) * height == earlier.len() * height + height) by (nonlinear_arith);
    if earlier.len() == 0 {
        assert(done * scalar * 65536 == 0) by (nonlinear_arith)
            requires
                done == 0,
        ;
        assert(earlier.len() * height == 0) by (nonlinear_arith)
            requires
                earlier.len() == 0,
        ;
    }
}

/// What a control answers an event with.
#[derive(Clone, Copy, Debug, PartialEq, Eq, Structural)]
pub struct Response {
    /// Whether the control made use of the event.
    pub status: Status,
    /// The new value, where the event changed or reset it: the host is told
    /// of it once.
    pub message: Option<Normal>,
}

impl Response {
    /// Whether the response says what the outcome says.
    pub open spec fn tells(self, outcome: Outcome) -> bool {
        &&& self.status == outcome.status
        &&& self.message is Some <==> outcome.message is Some
        &&& self.message is Some ==> self.message->0@ == outcome.message->0
    }
}

/// The state of the machine.
#[derive(Clone, Copy, Debug)]
pub struct Control {
    normal_param: NormalParam,
    is_dragging: bool,
    prev_drag: i32,
    continuous_normal: Normal,
    pressed_modifiers: Modifiers,
    last_click: Option<ClickKind>,
    last_press: Option<iced_native::mouse::Click>,
}

impl View for Control {
    type V = StateModel;

    closed spec fn view(&self) -> StateModel {
        StateModel {
            value: self.normal_param.value@,
            default: self.normal_param.default@,
            continuous: self.continuous_normal@,
            dragging: self.is_dragging,
            prev_drag: self.prev_drag as int,
            pressed: self.pressed_modifiers,
            last_click: self.last_click,
        }
    }
}

/// The way a wheel movement points.
pub fn direction_of(delta: ScrollDelta) -> (direction: i32)
    ensures
        direction == wheel_direction(delta),
{
    let y: i32 = match delta {
        ScrollDelta::Lines { x, y } => y,
        ScrollDelta::Pixels { x, y } => y,
    };
    if y > 0 {
        1
    } else if y < 0 {
        -1
    } else {
        0
    }
}

/// The change of position that one step of the wheel in `direction` asks
/// for.
pub fn wheel_change(direction: i32, wheel_scalar: i32) -> (delta: i128)
    requires
        -1 <= direction <= 1,
    ensures
        delta == wheel_delta(direction as int, wheel_scalar as int),
        magnitude(delta as int) <= DELTA_LIMIT,
{
    proof {
        lemma_product_bound(-(direction as int), wheel_scalar as int, 1, 0x8000_0000);
        lemma_product_bound(-(direction as int) * (wheel_scalar as int), 65536, 0x8000_0000, 65536);
    }
    (-(direction as i128)) * (wheel_scalar as i128) * 65536
}

impl Control {
    /// Idle machine for a parameter: nothing held, nothing clicked, the
    /// continuous position at the parameter's value.
    pub fn new(normal_param: NormalParam) -> (control: Self)
        ensures
            control@ == (StateModel {
                value: normal_param.value@,
                default: normal_param.default@,
                continuous: normal_param.value@,
                dragging: false,
                prev_drag: 0,
                pressed: Modifiers { shift: false, control: false, alt: false, logo: false },
                last_click: None,
            }),
            control.normal_param_spec() == normal_param,
            control.last_press() is None,
            control@.wf(),
    {
        proof {
            use_type_invariant(&normal_param.value);
            use_type_invariant(&normal_param.default);
        }
        Control {
            normal_param,
            is_dragging: false,
            prev_drag: 0,
            continuous_normal: normal_param.value,
            pressed_modifiers: Modifiers::empty(),
            last_click: None,
            last_press: None,
        }
    }

    /// The parameter that the machine holds.
    pub closed spec fn normal_param_spec(&self) -> NormalParam {
        self.normal_param
    }

    /// The last press that the machine took, as click detection keeps it.
    pub closed spec fn last_press(&self) -> Option<iced_native::mouse::Click> {
        self.last_press
    }

    /// The value shown.
    pub fn normal(&self) -> (normal: Normal)
        ensures
            normal@ == self@.value,
            normal == self.normal_param_spec().value,
    {
        self.normal_param.value
    }

    /// The value that a reset restores.
    pub fn default(&self) -> (normal: Normal)
        ensures
            normal@ == self@.default,
            normal == self.normal_param_spec().default,
    {
        self.normal_param.default
    }

    /// Whether the control is being dragged.
    pub fn is_dragging(&self) -> (dragging: bool)
        ensures
            dragging == self@.dragging,
    {
        self.is_dragging
    }

    /// The kind of the last press that the control took.
    pub fn last_click(&self) -> (click: Option<ClickKind>)
        ensures
            click == self@.last_click,
    {
        self.last_click
    }

    /// Sets the value shown, and the continuous position with it.
    pub fn set_normal(&mut self, normal: Normal)
        ensures
            final(self)@ == (StateModel {
                value: normal@,
                continuous: normal@,
                ..old(self)@
            }),
            final(self)@.wf(),
            final(self).last_press() == old(self).last_press(),
    {
        self.normal_param.value = normal;
        self.continuous_normal = normal;
        proof {
            use_type_invariant(&self.normal_param.value);
            use_type_invariant(&self.normal_param.default);
            use_type_invariant(&self.continuous_normal);
        }
    }

    /// Sets the value that a reset restores.
    pub fn set_default(&mut self, normal: Normal)
        ensures
            final(self)@ == (StateModel { default: normal@, ..old(self)@ }),
            final(self)@.wf(),
            final(self).last_press() == old(self).last_press(),
    {
        self.normal_param.default = normal;
        proof {
            use_type_invariant(&self.normal_param.value);
            use_type_invariant(&self.normal_param.default);
            use_type_invariant(&self.continuous_normal);
        }
    }

    /// Snaps the value shown to the nearest step of `range`. The continuous
    /// position stays.
    pub fn snap_visible_to(&mut self, range: &IntRange)
        ensures
            final(self)@ == (StateModel {
                value: range@.snapped(old(self)@.value),
                ..old(self)@
            }),
            final(self)@.wf(),
            final(self).last_press() == old(self).last_press(),
    {
        self.normal_param.value = range.snapped(self.normal_param.value);
        proof {
            use_type_invariant(&self.normal_param.value);
            use_type_invariant(&self.normal_param.default);
            use_type_invariant(&self.continuous_normal);
        }
    }

    /// Changes the position by `normal_delta`, scaled down while a modifier
    /// key is held, and returns the new value for the host.
    pub fn move_virtual_slider(&mut self, sensitivity: &Sensitivity, normal_delta: i128) -> (value:
        Normal)
        ensures
            final(self)@ == old(self)@.after_move(*sensitivity, normal_delta as int),
            value@ == final(self)@.value,
            final(self)@.wf(),
            final(self).last_press() == old(self).last_press(),
    {
        proof {
            use_type_invariant(&self.continuous_normal);
            use_type_invariant(&self.normal_param.default);
        }
        let held = self.pressed_modifiers.intersects(&sensitivity.modifier_keys);
        // A change beyond the limit runs the position into an end of its
        // range just as the limit does, so it is taken as the limit.
        let bounded: i128 = if normal_delta > DELTA_LIMIT {
            DELTA_LIMIT
        } else if normal_delta < -DELTA_LIMIT {
            -DELTA_LIMIT
        } else {
            normal_delta
        };
        proof {
            lemma_change_beyond_limit(
                self.continuous_normal@,
                normal_delta as int,
                held,
                sensitivity.modifier_scalar as int,
            );
        }
        let delta: i128 = if held {
            proof {
                lemma_product_bound(
                    bounded as int,
                    sensitivity.modifier_scalar as int,
                    DELTA_LIMIT as int,
                    0x8000_0000,
                );
            }
            div_toward_zero(bounded * (sensitivity.modifier_scalar as i128), 65536)
        } else {
            bounded
        };
        let target: i128 = self.continuous_normal.bits() as i128 - delta;
        let position: i64 = if target < 0 {
            0
        } else if target > 4294967296 {
            4294967296
        } else {
            target as i64
        };
        let normal = Normal::new(position);
        self.continuous_normal = normal;
        self.normal_param.value = normal;
        normal
    }

    /// Takes a press at `at` along the drag axis. Returns the value for the
    /// host if the press reset it.
    pub fn press(&mut self, at: i32, click: ClickKind) -> (message: Option<Normal>)
        ensures
            final(self)@ == old(self)@.after_press(at as int, click),
            click == ClickKind::Single ==> message is None,
            click != ClickKind::Single ==> message is Some && message->0@ == old(self)@.default,
            final(self)@.wf(),
            final(self).last_press() == old(self).last_press(),
    {
        proof {
            use_type_invariant(&self.normal_param.value);
            use_type_invariant(&self.normal_param.default);
            use_type_invariant(&self.continuous_normal);
        }
        let message = match click {
            ClickKind::Single => {
                self.is_dragging = true;
                self.prev_drag = at;
                None
            },
            _ => {
                self.is_dragging = false;
                self.normal_param.value = self.normal_param.default;
                Some(self.normal_param.value)
            },
        };
        self.last_click = Some(click);
        message
    }

    /// Ends dragging and starts the continuous position anew from the value
    /// shown.
    pub fn release(&mut self)
        ensures
            final(self)@ == old(self)@.after_release(),
            final(self)@.wf(),
            final(self).last_press() == old(self).last_press(),
    {
        self.is_dragging = false;
        self.continuous_normal = self.normal_param.value;
        proof {
            use_type_invariant(&self.normal_param.value);
            use_type_invariant(&self.normal_param.default);
            use_type_invariant(&self.continuous_normal);
        }
    }

    /// Handles one event, given the kind of click that it is if it is a
    /// press, and says whether it was used and what the host is to be told.
    pub fn respond(
        &mut self,
        sensitivity: &Sensitivity,
        projection: Projection,
        event: Event,
        click: ClickKind,
        bounds: Rectangle,
        cursor_position: Position,
    ) -> (response: Response)
        ensures
            final(self)@ == step(
                *sensitivity,
                projection,
                old(self)@,
                event,
                click,
                bounds,
                cursor_position,
            ).state,
            response.tells(
                step(*sensitivity, projection, old(self)@, event, click, bounds, cursor_position),
            ),
            old(self)@.wf() ==> final(self)@.wf(),
            final(self).last_press() == old(self).last_press(),
    {
        match event {
            Event::CursorMoved => {
                if self.is_dragging && projection.follows(&bounds) {
                    let at = projection.coordinate(cursor_position);
                    let normal_delta = projection.drag_change(
                        self.prev_drag,
                        at,
                        &bounds,
                        sensitivity.scalar,
                    );
                    self.prev_drag = at;
                    let value = self.move_virtual_slider(sensitivity, normal_delta);
                    return Response { status: Status::Captured, message: Some(value) };
                }
            },
            Event::WheelScrolled { delta } => {
                if sensitivity.wheel_scalar == 0 {
                    return Response { status: Status::Ignored, message: None };
                }
                if bounds.contains(cursor_position) {
                    let direction = direction_of(delta);
                    if direction != 0 {
                        let normal_delta = wheel_change(direction, sensitivity.wheel_scalar);
                        let value = self.move_virtual_slider(sensitivity, normal_delta);
                        return Response { status: Status::Captured, message: Some(value) };
                    }
                }
            },
            Event::ButtonPressed { button } => {
                if button == Button::Left && bounds.contains(cursor_position) {
                    let message = self.press(projection.coordinate(cursor_position), click);
                    return Response { status: Status::Captured, message };
                }
            },
            Event::ButtonReleased { button } => {
                if button == Button::Left {
                    self.release();
                    return Response { status: Status::Captured, message: None };
                }
            },
            Event::KeyPressed { modifiers } => {
                self.set_modifiers(modifiers);
                return Response { status: Status::Captured, message: None };
            },
            Event::KeyReleased { modifiers } => {
                self.set_modifiers(modifiers);
                return Response { status: Status::Captured, message: None };
            },
            Event::Other => {},
        }
        Response { status: Status::Ignored, message: None }
    }

    /// Handles one event and says whether it was used and what the host is
    /// to be told.
    ///
    /// A press of the left button inside the bounds goes to click detection
    /// first, with `pointer` and the last press that the machine took.
    /// `pointer` is the position of the cursor once more, as the toolkit
    /// measures it: it goes to click detection and nowhere else, and
    /// everything that the machine itself decides goes by
    /// `cursor_position`.
    ///
    /// Whatever kind of click detection finds, the machine does what
    /// [`step`] says of that kind, records the kind and keeps the press for
    /// the next detection: the kind recorded is the kind of the press kept.
    /// The first press that a machine takes is a single click, and starts a
    /// drag; a later one is a single click or the kind that comes after the
    /// kind of the press kept before. Every other event is handled as
    /// [`step`] says, whatever the kind.
    pub fn on_event(
        &mut self,
        sensitivity: &Sensitivity,
        projection: Projection,
        event: Event,
        bounds: Rectangle,
        cursor_position: Position,
        pointer: iced_native::Point,
    ) -> (response: Response)
        ensures
            !takes_press(event, bounds, cursor_position) ==> {
                &&& final(self)@ == step(
                    *sensitivity,
                    projection,
                    old(self)@,
                    event,
                    ClickKind::Single,
                    bounds,
                    cursor_position,
                ).state
                &&& response.tells(
                    step(
                        *sensitivity,
                        projection,
                        old(self)@,
                        event,
                        ClickKind::Single,
                        bounds,
                        cursor_position,
                    ),
                )
                &&& final(self).last_press() == old(self).last_press()
            },
            takes_press(event, bounds, cursor_position) ==> {
                &&& response.status == Status::Captured
                &&& final(self).last_press() is Some
                &&& final(self)@.last_click == Some(click_kind(final(self).last_press()->0))
                &&& can_follow(final(self)@.last_click->0, old(self).last_press())
                &&& final(self)@ == step(
                    *sensitivity,
                    projection,
                    old(self)@,
                    event,
                    final(self)@.last_click->0,
                    bounds,
                    cursor_position,
                ).state
                &&& response.tells(
                    step(
                        *sensitivity,
                        projection,
                        old(self)@,
                        event,
                        final(self)@.last_click->0,
                        bounds,
                        cursor_position,
                    ),
                )
            },
            old(self)@.wf() ==> final(self)@.wf(),
    {
        let pressed = match event {
            Event::ButtonPressed { button } => button == Button::Left && bounds.contains(
                cursor_position,
            ),
            _ => false,
        };
        if pressed {
            let (click, kind) = classify(pointer, self.last_press);
            let response = self.respond(
                sensitivity,
                projection,
                event,
                kind,
                bounds,
                cursor_position,
            );
            self.last_press = Some(click);
            response
        } else {
            self.respond(sensitivity, projection, event, ClickKind::Single, bounds, cursor_position)
        }
    }

    /// Records the modifier keys that are held.
    pub fn set_modifiers(&mut self, modifiers: Modifiers)
        ensures
            final(self)@ == old(self)@.after_key(modifiers),
            final(self)@.wf(),
            final(self).last_press() == old(self).last_press(),
    {
        self.pressed_modifiers = modifiers;
        proof {
            use_type_invariant(&self.normal_param.value);
            use_type_invariant(&self.normal_param.default);
            use_type_invariant(&self.continuous_normal);
        }
    }
}

} // verus!
