use iced_audio::control::{Response, Sensitivity};
use iced_audio::fixed::whole;
use iced_audio::geometry::{Position, Rectangle};
use iced_audio::h_slider::{
    HSlider, Renderer, State, DEFAULT_HEIGHT, DEFAULT_MODIFIER_SCALAR, DEFAULT_SCALAR,
    DEFAULT_WHEEL_SCALAR,
};
use iced_audio::input::{Button, ClickKind, Event, Length, Modifiers, ScrollDelta, Status};
use iced_audio::mod_range::ModulationRange;
use iced_audio::normal::Normal;
use iced_audio::normal_param::NormalParam;
use iced_audio::range::IntRange;
use iced_audio::text_marks;
use iced_audio::tick_marks;

struct Recorder {
    calls: usize,
}

struct Seen {
    normal: Normal,
    is_dragging: bool,
    has_tick_marks: bool,
    has_text_marks: bool,
    first_range: Option<ModulationRange>,
    second_range: Option<ModulationRange>,
    style: u8,
}

impl Renderer for Recorder {
    type Style = u8;
    type Output = Seen;

    fn draw(
        &mut self,
        _bounds: Rectangle,
        _cursor_position: Position,
        normal: Normal,
        is_dragging: bool,
        mod_range_1: Option<&ModulationRange>,
        mod_range_2: Option<&ModulationRange>,
        tick_marks: Option<&tick_marks::Group>,
        text_marks: Option<&text_marks::Group>,
        style: &u8,
        _tick_marks_cache: &mut tick_marks::PrimitiveCache,
        _text_marks_cache: &mut text_marks::PrimitiveCache,
    ) -> Seen {
        self.calls += 1;
        Seen {
            normal,
            is_dragging,
            has_tick_marks: tick_marks.is_some(),
            has_text_marks: text_marks.is_some(),
            first_range: mod_range_1.copied(),
            second_range: mod_range_2.copied(),
            style: *style,
        }
    }
}

fn bounds() -> Rectangle {
    Rectangle { x: whole(10), y: whole(20), width: whole(200), height: whole(14) }
}

fn at(x: i16, y: i16) -> Position {
    Position { x: whole(x), y: whole(y) }
}

fn half() -> State {
    State::new(NormalParam::new(Normal::center()))
}

fn press() -> Event {
    Event::ButtonPressed { button: Button::Left }
}

fn toolkit(position: Position) -> iced_native::Point {
    iced_native::Point::new(position.x as f32 / 65536.0, position.y as f32 / 65536.0)
}

fn send(
    control: &HSlider<u8>,
    state: &mut State,
    event: Event,
    bounds: Rectangle,
    position: Position,
) -> Response {
    control.on_event(state, event, bounds, position, toolkit(position))
}

fn release() -> Event {
    Event::ButtonReleased { button: Button::Left }
}

fn ctrl() -> Modifiers {
    Modifiers { shift: false, control: true, alt: false, logo: false }
}

fn captured(value: Normal) -> Response {
    Response { status: Status::Captured, message: Some(value) }
}

fn quiet() -> Response {
    Response { status: Status::Captured, message: None }
}

fn ignored() -> Response {
    Response { status: Status::Ignored, message: None }
}

#[test]
fn slider_starts_with_documented_defaults() {
    let slider: HSlider<u8> = HSlider::new();
    assert_eq!(DEFAULT_HEIGHT, 14);
    assert_eq!(slider.scalar, DEFAULT_SCALAR);
    assert_eq!(slider.scalar, 62751);
    assert_eq!(slider.wheel_scalar, DEFAULT_WHEEL_SCALAR);
    assert_eq!(slider.wheel_scalar, 655);
    assert_eq!(slider.modifier_scalar, DEFAULT_MODIFIER_SCALAR);
    assert_eq!(slider.modifier_scalar, 1311);
    assert_eq!(slider.modifier_keys, ctrl());
    assert_eq!(slider.width, Length::Fill);
    assert_eq!(slider.height, Length::Units(14));
    assert_eq!(slider.style, 0);
    assert!(slider.tick_marks.is_none());
    assert!(slider.text_marks.is_none());
    assert!(slider.mod_range_1.is_none());
    assert!(slider.mod_range_2.is_none());
}

#[test]
fn slider_builders_set_one_field_each() {
    let shift = Modifiers { shift: true, control: false, alt: false, logo: false };
    let slider: HSlider<u8> = HSlider::new()
        .width(Length::Units(300))
        .height(Length::Shrink)
        .style(9)
        .modifier_keys(shift)
        .scalar(1)
        .wheel_scalar(2)
        .modifier_scalar(3);
    assert_eq!(slider.width, Length::Units(300));
    assert_eq!(slider.height, Length::Shrink);
    assert_eq!(slider.style, 9);
    assert_eq!(slider.modifier_keys, shift);
    assert_eq!(slider.scalar, 1);
    assert_eq!(slider.wheel_scalar, 2);
    assert_eq!(slider.modifier_scalar, 3);
    assert_eq!(
        slider.sensitivity(),
        Sensitivity { scalar: 1, wheel_scalar: 2, modifier_scalar: 3, modifier_keys: shift }
    );
}

#[test]
fn slider_mark_and_range_builders_keep_each_other() {
    let ticks = tick_marks::Group::new(vec![
        (Normal::min(), tick_marks::Tier::One),
        (Normal::center(), tick_marks::Tier::One),
        (Normal::max(), tick_marks::Tier::One),
    ]);
    let texts = text_marks::Group::new(vec![(Normal::min(), String::from("0"))]);
    let first = ModulationRange::new(Normal::min(), Normal::center());
    let second = ModulationRange::new(Normal::center(), Normal::max());
    let slider: HSlider<u8> = HSlider::new()
        .tick_marks(&ticks)
        .text_marks(&texts)
        .mod_range(&first)
        .mod_range_2(&second);
    assert_eq!(slider.tick_marks.map(|group| group.len()), Some(3));
    assert_eq!(slider.text_marks.map(|group| group.len()), Some(1));
    assert_eq!(slider.mod_range_1.copied(), Some(first));
    assert_eq!(slider.mod_range_2.copied(), Some(second));
}

#[test]
fn state_starts_idle_at_the_value() {
    let range = IntRange::new(0, 10);
    let state = State::new(range.normal_param(7, 5));
    assert_eq!(state.normal().bits(), 3006477107);
    assert_eq!(state.default(), Normal::center());
    assert!(!state.is_dragging());
}

#[test]
fn state_setters_change_value_and_default() {
    let mut state = half();
    state.set_normal(Normal::max());
    assert_eq!(state.normal(), Normal::max());
    assert_eq!(state.default(), Normal::center());
    state.set_default(Normal::min());
    assert_eq!(state.default(), Normal::min());
    assert_eq!(state.normal(), Normal::max());
}

#[test]
fn state_snaps_the_visible_value_to_the_range() {
    let mut state = State::new(NormalParam::new(Normal::new(1460288880)));
    state.snap_visible_to(&IntRange::new(0, 10));
    assert_eq!(state.normal().bits(), 1288490189);
}

#[test]
fn single_click_starts_a_drag_without_a_message() {
    let slider: HSlider<u8> = HSlider::new();
    let mut state = half();
    let response = slider.respond(&mut state, press(), ClickKind::Single, bounds(), at(110, 25));
    assert_eq!(response, quiet());
    assert!(state.is_dragging());
    assert_eq!(state.normal(), Normal::center());
}

#[test]
fn press_outside_the_bounds_is_ignored() {
    let slider: HSlider<u8> = HSlider::new();
    let mut state = half();
    for point in [at(9, 25), at(211, 25), at(110, 19), at(110, 35)] {
        let response = slider.respond(&mut state, press(), ClickKind::Double, bounds(), point);
        assert_eq!(response, ignored());
    }
    assert!(!state.is_dragging());
    assert_eq!(state.normal(), Normal::center());
}

#[test]
fn press_on_the_edge_of_the_bounds_counts_as_inside() {
    let slider: HSlider<u8> = HSlider::new();
    for point in [at(10, 20), at(210, 34), at(10, 34), at(210, 20)] {
        let mut state = half();
        let response = slider.respond(&mut state, press(), ClickKind::Single, bounds(), point);
        assert_eq!(response, quiet());
        assert!(state.is_dragging());
    }
}

#[test]
fn other_buttons_are_ignored() {
    let slider: HSlider<u8> = HSlider::new();
    let mut state = half();
    for button in [Button::Right, Button::Middle, Button::Other] {
        let pressed = Event::ButtonPressed { button };
        assert_eq!(send(&slider, &mut state, pressed, bounds(), at(110, 25)), ignored());
        let released = Event::ButtonReleased { button };
        assert_eq!(send(&slider, &mut state, released, bounds(), at(110, 25)), ignored());
    }
    assert_eq!(send(&slider, &mut state, Event::Other, bounds(), at(110, 25)), ignored());
    assert_eq!(state.normal(), Normal::center());
    assert!(!state.is_dragging());
}

#[test]
fn moving_without_dragging_is_ignored() {
    let slider: HSlider<u8> = HSlider::new();
    let mut state = half();
    let response = send(&slider, &mut state, Event::CursorMoved, bounds(), at(150, 25));
    assert_eq!(response, ignored());
    assert_eq!(state.normal(), Normal::center());
}

#[test]
fn drag_right_raises_the_value_by_the_part_of_the_width() {
    let slider: HSlider<u8> = HSlider::new().scalar(whole(1));
    let mut state = half();
    slider.respond(&mut state, press(), ClickKind::Single, bounds(), at(100, 25));
    let response = send(&slider, &mut state, Event::CursorMoved, bounds(), at(150, 25));
    assert_eq!(response, captured(Normal::new(3221225472)));
    assert_eq!(state.normal().bits(), 3221225472);
}

#[test]
fn drag_left_lowers_the_value() {
    let slider: HSlider<u8> = HSlider::new().scalar(whole(1));
    let mut state = half();
    slider.respond(&mut state, press(), ClickKind::Single, bounds(), at(100, 25));
    let response = send(&slider, &mut state, Event::CursorMoved, bounds(), at(50, 25));
    assert_eq!(response, captured(Normal::new(1073741824)));
}

#[test]
fn drag_with_the_default_scalar() {
    let slider: HSlider<u8> = HSlider::new();
    let mut state = half();
    slider.respond(&mut state, press(), ClickKind::Single, bounds(), at(100, 25));
    let response = send(&slider, &mut state, Event::CursorMoved, bounds(), at(150, 25));
    assert_eq!(response, captured(Normal::new(3175596032)));
}

#[test]
fn drag_in_several_moves_adds_up() {
    let slider: HSlider<u8> = HSlider::new().scalar(whole(1));
    let mut state = half();
    slider.respond(&mut state, press(), ClickKind::Single, bounds(), at(100, 25));
    // Each of these moves is a whole number of steps of a normal.
    for x in [125, 75, 175, 150] {
        send(&slider, &mut state, Event::CursorMoved, bounds(), at(x, 25));
    }
    assert_eq!(state.normal().bits(), 3221225472);
}

#[test]
fn drag_in_several_moves_rounds_each_move_toward_zero() {
    let slider: HSlider<u8> = HSlider::new().scalar(whole(1));
    let mut state = half();
    slider.respond(&mut state, press(), ClickKind::Single, bounds(), at(100, 25));
    // Three of these four moves fall between two steps of a normal.
    for x in [110, 105, 130, 150] {
        send(&slider, &mut state, Event::CursorMoved, bounds(), at(x, 25));
    }
    assert_eq!(state.normal().bits(), 3221225471);
    let exact: u64 = 3221225472;
    assert!(exact - state.normal().bits() < 4);
}

#[test]
fn drag_stops_at_the_ends() {
    let slider: HSlider<u8> = HSlider::new().scalar(whole(1));
    let mut state = half();
    slider.respond(&mut state, press(), ClickKind::Single, bounds(), at(100, 25));
    let up = send(&slider, &mut state, Event::CursorMoved, bounds(), at(1000, 25));
    assert_eq!(up, captured(Normal::max()));
    let down = send(&slider, &mut state, Event::CursorMoved, bounds(), at(-1000, 25));
    assert_eq!(down, captured(Normal::min()));
}

#[test]
fn drag_in_bounds_without_width_is_ignored() {
    let slider: HSlider<u8> = HSlider::new();
    let flat = Rectangle { x: 0, y: 0, width: 0, height: whole(14) };
    let mut state = half();
    slider.respond(&mut state, press(), ClickKind::Single, flat, at(0, 5));
    assert!(state.is_dragging());
    let response = send(&slider, &mut state, Event::CursorMoved, flat, at(40, 5));
    assert_eq!(response, ignored());
    assert_eq!(state.normal(), Normal::center());
}

#[test]
fn modifier_key_makes_the_same_drag_smaller() {
    let slider: HSlider<u8> = HSlider::new();
    let mut plain = half();
    slider.respond(&mut plain, press(), ClickKind::Single, bounds(), at(100, 25));
    send(&slider, &mut plain, Event::CursorMoved, bounds(), at(150, 25));

    let mut fine = half();
    let key = send(&slider, &mut fine, Event::KeyPressed { modifiers: ctrl() }, bounds(), at(0, 0));
    assert_eq!(key, quiet());
    slider.respond(&mut fine, press(), ClickKind::Single, bounds(), at(100, 25));
    let response = send(&slider, &mut fine, Event::CursorMoved, bounds(), at(150, 25));
    assert_eq!(response, captured(Normal::new(2168050288)));

    let plain_change = plain.normal().bits() - Normal::center().bits();
    let fine_change = fine.normal().bits() - Normal::center().bits();
    assert_eq!(plain_change, 1028112384);
    assert_eq!(fine_change, 20566640);
    assert!(fine_change < plain_change);
}

#[test]
fn other_modifier_keys_do_not_count() {
    let slider: HSlider<u8> = HSlider::new();
    let mut state = half();
    let shift = Modifiers { shift: true, control: false, alt: true, logo: true };
    send(&slider, &mut state, Event::KeyPressed { modifiers: shift }, bounds(), at(0, 0));
    slider.respond(&mut state, press(), ClickKind::Single, bounds(), at(100, 25));
    let response = send(&slider, &mut state, Event::CursorMoved, bounds(), at(150, 25));
    assert_eq!(response, captured(Normal::new(3175596032)));
}

#[test]
fn releasing_the_modifier_key_ends_fine_adjust() {
    let slider: HSlider<u8> = HSlider::new();
    let mut state = half();
    send(&slider, &mut state, Event::KeyPressed { modifiers: ctrl() }, bounds(), at(0, 0));
    let up = Event::KeyReleased { modifiers: Modifiers::empty() };
    assert_eq!(send(&slider, &mut state, up, bounds(), at(0, 0)), quiet());
    slider.respond(&mut state, press(), ClickKind::Single, bounds(), at(100, 25));
    let response = send(&slider, &mut state, Event::CursorMoved, bounds(), at(150, 25));
    assert_eq!(response, captured(Normal::new(3175596032)));
}

#[test]
fn double_click_resets_to_the_default() {
    let slider: HSlider<u8> = HSlider::new();
    let mut state = State::new(NormalParam {
        value: Normal::new(3135326126),
        default: Normal::center(),
    });
    assert_eq!(state.normal().bits(), 3135326126);
    let response = slider.respond(&mut state, press(), ClickKind::Double, bounds(), at(110, 25));
    assert_eq!(response, captured(Normal::center()));
    assert_eq!(response.message.map(|normal| normal.bits()), Some(2147483648));
    assert_eq!(state.normal(), Normal::center());
    assert!(!state.is_dragging());
}

#[test]
fn triple_click_resets_too() {
    let slider: HSlider<u8> = HSlider::new();
    let mut state = State::new(NormalParam { value: Normal::max(), default: Normal::min() });
    let response = slider.respond(&mut state, press(), ClickKind::Triple, bounds(), at(110, 25));
    assert_eq!(response, captured(Normal::min()));
}

#[test]
fn double_click_ends_a_drag() {
    let slider: HSlider<u8> = HSlider::new();
    let mut state = half();
    slider.respond(&mut state, press(), ClickKind::Single, bounds(), at(110, 25));
    assert!(state.is_dragging());
    slider.respond(&mut state, press(), ClickKind::Double, bounds(), at(110, 25));
    assert!(!state.is_dragging());
}

#[test]
fn release_ends_the_drag() {
    let slider: HSlider<u8> = HSlider::new();
    let mut state = half();
    slider.respond(&mut state, press(), ClickKind::Single, bounds(), at(110, 25));
    let response = send(&slider, &mut state, release(), bounds(), at(500, 500));
    assert_eq!(response, quiet());
    assert!(!state.is_dragging());
    assert_eq!(send(&slider, &mut state, Event::CursorMoved, bounds(), at(150, 25)), ignored());
}

#[test]
fn drag_keeps_what_snapping_rounds_away_until_release() {
    let slider: HSlider<u8> = HSlider::new().scalar(whole(1));
    let range = IntRange::new(0, 10);
    let mut state = State::new(NormalParam::new(Normal::min()));
    slider.respond(&mut state, press(), ClickKind::Single, bounds(), at(100, 25));
    // Two moves of 0.03 each: each alone snaps back to zero, both together
    // pass the middle between two steps.
    send(&slider, &mut state, Event::CursorMoved, bounds(), at(106, 25));
    state.snap_visible_to(&range);
    assert_eq!(state.normal(), Normal::min());
    send(&slider, &mut state, Event::CursorMoved, bounds(), at(112, 25));
    state.snap_visible_to(&range);
    assert_eq!(state.normal(), range.to_normal(1));
    // After the release the next change starts from the snapped value.
    send(&slider, &mut state, release(), bounds(), at(112, 25));
    slider.respond(&mut state, press(), ClickKind::Single, bounds(), at(112, 25));
    let response = send(&slider, &mut state, Event::CursorMoved, bounds(), at(132, 25));
    assert_eq!(response, captured(range.to_normal(2)));
}

#[test]
fn wheel_up_raises_the_value_by_one_step() {
    let slider: HSlider<u8> = HSlider::new();
    let mut state = half();
    let scroll = Event::WheelScrolled { delta: ScrollDelta::Lines { x: 0, y: whole(1) } };
    let response = send(&slider, &mut state, scroll, bounds(), at(110, 25));
    assert_eq!(response, captured(Normal::new(2190409728)));
    assert!(!state.is_dragging());
}

#[test]
fn wheel_down_lowers_the_value_by_one_step() {
    let slider: HSlider<u8> = HSlider::new();
    let mut state = half();
    let scroll = Event::WheelScrolled { delta: ScrollDelta::Pixels { x: 0, y: -1 } };
    let response = send(&slider, &mut state, scroll, bounds(), at(110, 25));
    assert_eq!(response, captured(Normal::new(2104557568)));
}

#[test]
fn wheel_counts_one_step_whatever_the_distance() {
    let slider: HSlider<u8> = HSlider::new();
    for delta in [
        ScrollDelta::Lines { x: 0, y: whole(3) },
        ScrollDelta::Lines { x: whole(-4), y: 1 },
        ScrollDelta::Pixels { x: 0, y: whole(120) },
    ] {
        let mut state = half();
        let response =
            send(&slider, &mut state, Event::WheelScrolled { delta }, bounds(), at(110, 25));
        assert_eq!(response, captured(Normal::new(2190409728)));
    }
}

#[test]
fn wheel_with_modifier_key_is_fine_adjusted() {
    let slider: HSlider<u8> = HSlider::new();
    let mut state = half();
    send(&slider, &mut state, Event::KeyPressed { modifiers: ctrl() }, bounds(), at(0, 0));
    let scroll = Event::WheelScrolled { delta: ScrollDelta::Lines { x: 0, y: whole(1) } };
    let response = send(&slider, &mut state, scroll, bounds(), at(110, 25));
    assert_eq!(response, captured(Normal::new(2147483648 + 858705)));
}

#[test]
fn wheel_outside_the_bounds_is_ignored() {
    let slider: HSlider<u8> = HSlider::new();
    let mut state = half();
    let scroll = Event::WheelScrolled { delta: ScrollDelta::Lines { x: 0, y: whole(1) } };
    assert_eq!(send(&slider, &mut state, scroll, bounds(), at(0, 0)), ignored());
    assert_eq!(state.normal(), Normal::center());
}

#[test]
fn wheel_without_vertical_movement_is_ignored() {
    let slider: HSlider<u8> = HSlider::new();
    let mut state = half();
    let scroll = Event::WheelScrolled { delta: ScrollDelta::Lines { x: whole(2), y: 0 } };
    assert_eq!(send(&slider, &mut state, scroll, bounds(), at(110, 25)), ignored());
    let scroll = Event::WheelScrolled { delta: ScrollDelta::Pixels { x: whole(2), y: 0 } };
    assert_eq!(send(&slider, &mut state, scroll, bounds(), at(110, 25)), ignored());
    assert_eq!(state.normal(), Normal::center());
}

#[test]
fn wheel_scalar_zero_turns_the_wheel_off() {
    let slider: HSlider<u8> = HSlider::new().wheel_scalar(0);
    let mut state = half();
    slider.respond(&mut state, press(), ClickKind::Single, bounds(), at(110, 25));
    for delta in [
        ScrollDelta::Lines { x: 0, y: whole(1) },
        ScrollDelta::Lines { x: 0, y: whole(-5) },
        ScrollDelta::Pixels { x: 0, y: whole(30) },
    ] {
        let response =
            send(&slider, &mut state, Event::WheelScrolled { delta }, bounds(), at(110, 25));
        assert_eq!(response, ignored());
        assert_eq!(state.normal(), Normal::center());
        assert_eq!(state.default(), Normal::center());
        assert!(state.is_dragging());
    }
}

#[test]
fn key_events_are_always_captured() {
    let slider: HSlider<u8> = HSlider::new();
    let mut state = half();
    let far = at(-500, -500);
    let down = Event::KeyPressed { modifiers: Modifiers::empty() };
    assert_eq!(send(&slider, &mut state, down, bounds(), far), quiet());
    let up = Event::KeyReleased { modifiers: ctrl() };
    assert_eq!(send(&slider, &mut state, up, bounds(), far), quiet());
    assert_eq!(state.normal(), Normal::center());
}

#[test]
fn move_virtual_slider_takes_the_change_off_the_value() {
    let slider: HSlider<u8> = HSlider::new();
    let mut state = half();
    assert_eq!(slider.move_virtual_slider(&mut state, 1000).bits(), 2147482648);
    assert_eq!(slider.move_virtual_slider(&mut state, -2000).bits(), 2147484648);
    assert_eq!(slider.move_virtual_slider(&mut state, 1 << 70), Normal::min());
    assert_eq!(slider.move_virtual_slider(&mut state, -(1 << 70)), Normal::max());
    assert_eq!(state.normal(), Normal::max());
}

#[test]
fn draw_hands_the_state_to_the_renderer() {
    let ticks = tick_marks::Group::new(vec![
        (Normal::min(), tick_marks::Tier::One),
        (Normal::center(), tick_marks::Tier::One),
        (Normal::max(), tick_marks::Tier::One),
    ]);
    let first = ModulationRange::new(Normal::min(), Normal::center());
    let slider: HSlider<u8> = HSlider::new().style(4).tick_marks(&ticks).mod_range(&first);
    let mut state = State::new(NormalParam::new(Normal::new(3135326126)));
    let mut renderer = Recorder { calls: 0 };
    let seen = slider.draw(&mut state, &mut renderer, bounds(), at(0, 0));
    assert_eq!(renderer.calls, 1);
    assert_eq!(seen.normal.bits(), 3135326126);
    assert!(!seen.is_dragging);
    assert!(seen.has_tick_marks);
    assert!(!seen.has_text_marks);
    assert_eq!(seen.first_range, Some(first));
    assert_eq!(seen.second_range, None);
    assert_eq!(seen.style, 4);

    slider.respond(&mut state, press(), ClickKind::Single, bounds(), at(110, 25));
    let seen = slider.draw(&mut state, &mut renderer, bounds(), at(110, 25));
    assert!(seen.is_dragging);
    assert_eq!(state.normal().bits(), 3135326126);
}

#[test]
fn cloned_state_keeps_the_values() {
    let slider: HSlider<u8> = HSlider::new();
    let mut state = half();
    slider.respond(&mut state, press(), ClickKind::Single, bounds(), at(110, 25));
    let copy = state.clone();
    assert!(copy.is_dragging());
    assert_eq!(copy.normal(), Normal::center());
    assert_eq!(copy.default(), Normal::center());
}

#[test]
fn first_press_is_a_single_click() {
    let slider: HSlider<u8> = HSlider::new();
    let mut state = half();
    let response = send(&slider, &mut state, press(), bounds(), at(110, 25));
    assert_eq!(response, quiet());
    assert!(state.is_dragging());
    assert_eq!(state.normal(), Normal::center());
}

#[test]
fn second_press_at_the_same_place_is_a_double_click() {
    let slider: HSlider<u8> = HSlider::new();
    let mut state = State::new(NormalParam {
        value: Normal::new(3135326126),
        default: Normal::center(),
    });
    assert_eq!(send(&slider, &mut state, press(), bounds(), at(110, 25)), quiet());
    assert_eq!(send(&slider, &mut state, release(), bounds(), at(110, 25)), quiet());
    assert_eq!(state.normal().bits(), 3135326126);
    let response = send(&slider, &mut state, press(), bounds(), at(110, 25));
    assert_eq!(response, captured(Normal::center()));
    assert_eq!(state.normal(), Normal::center());
    assert!(!state.is_dragging());
}

#[test]
fn third_press_at_the_same_place_resets_again() {
    let slider: HSlider<u8> = HSlider::new();
    let mut state = half();
    send(&slider, &mut state, press(), bounds(), at(110, 25));
    send(&slider, &mut state, press(), bounds(), at(110, 25));
    state.set_normal(Normal::max());
    let response = send(&slider, &mut state, press(), bounds(), at(110, 25));
    assert_eq!(response, captured(Normal::center()));
    assert!(!state.is_dragging());
}

#[test]
fn press_at_another_place_is_a_single_click_again() {
    let slider: HSlider<u8> = HSlider::new();
    let mut state = half();
    send(&slider, &mut state, press(), bounds(), at(110, 25));
    send(&slider, &mut state, release(), bounds(), at(110, 25));
    let response = send(&slider, &mut state, press(), bounds(), at(111, 25));
    assert_eq!(response, quiet());
    assert!(state.is_dragging());
}

#[test]
fn press_outside_is_not_kept_for_click_detection() {
    let slider: HSlider<u8> = HSlider::new();
    let mut state = State::new(NormalParam { value: Normal::max(), default: Normal::min() });
    assert_eq!(send(&slider, &mut state, press(), bounds(), at(110, 25)), quiet());
    assert_eq!(send(&slider, &mut state, press(), bounds(), at(0, 0)), ignored());
    let right = Event::ButtonPressed { button: Button::Right };
    assert_eq!(send(&slider, &mut state, right, bounds(), at(50, 25)), ignored());
    let response = send(&slider, &mut state, press(), bounds(), at(110, 25));
    assert_eq!(response, captured(Normal::min()));
}

#[test]
fn state_records_the_kind_of_the_last_press() {
    let slider: HSlider<u8> = HSlider::new();
    let mut state = half();
    assert_eq!(state.last_click(), None);
    slider.respond(&mut state, press(), ClickKind::Single, bounds(), at(110, 25));
    assert_eq!(state.last_click(), Some(ClickKind::Single));
    slider.respond(&mut state, press(), ClickKind::Triple, bounds(), at(110, 25));
    assert_eq!(state.last_click(), Some(ClickKind::Triple));
    slider.respond(&mut state, press(), ClickKind::Double, bounds(), at(0, 0));
    assert_eq!(state.last_click(), Some(ClickKind::Triple));
    let mut state = half();
    send(&slider, &mut state, press(), bounds(), at(110, 25));
    assert_eq!(state.last_click(), Some(ClickKind::Single));
    send(&slider, &mut state, press(), bounds(), at(110, 25));
    assert_eq!(state.last_click(), Some(ClickKind::Double));
    send(&slider, &mut state, press(), bounds(), at(110, 25));
    assert_eq!(state.last_click(), Some(ClickKind::Triple));
}
