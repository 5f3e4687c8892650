use iced_audio::control::Response;
use iced_audio::fixed::whole;
use iced_audio::geometry::{Bounds, Position, Rectangle};
use iced_audio::input::{Button, ClickKind, Event, Length, Modifiers, ScrollDelta, Status};
use iced_audio::mod_range_input::{
    CircleStyle, ModRangeInput, QuadRenderer, Renderer, SquareStyle, State, Style, StyleSheet,
    DEFAULT_MODIFIER_SCALAR, DEFAULT_SCALAR, DEFAULT_SIZE, DEFAULT_WHEEL_SCALAR,
};
use iced_audio::normal::Normal;
use iced_audio::normal_param::NormalParam;
use iced_audio::primitive::{Color, Quad};
use iced_audio::range::IntRange;

fn dot_bounds() -> Rectangle {
    Rectangle { x: whole(40), y: whole(40), width: whole(10), height: whole(10) }
}

fn spot(x: i16, y: i16) -> Position {
    Position { x: whole(x), y: whole(y) }
}

fn dot_state() -> State {
    State::new(NormalParam::new(Normal::center()))
}

fn left_press() -> Event {
    Event::ButtonPressed { button: Button::Left }
}

fn toolkit(position: Position) -> iced_native::Point {
    iced_native::Point::new(position.x as f32 / 65536.0, position.y as f32 / 65536.0)
}

fn send(
    control: &ModRangeInput<StyleSheet>,
    state: &mut State,
    event: Event,
    bounds: Rectangle,
    position: Position,
) -> Response {
    control.on_event(state, event, bounds, position, toolkit(position))
}

fn told(value: Normal) -> Response {
    Response { status: Status::Captured, message: Some(value) }
}

fn used() -> Response {
    Response { status: Status::Captured, message: None }
}

fn unused() -> Response {
    Response { status: Status::Ignored, message: None }
}

fn red() -> Color {
    Color { r: 255, g: 0, b: 0, a: 255 }
}

fn green() -> Color {
    Color { r: 0, g: 255, b: 0, a: 255 }
}

fn blue() -> Color {
    Color { r: 0, g: 0, b: 255, a: 255 }
}

fn circle(color: Color) -> Style {
    Style::Circle(CircleStyle { color, border_width: 1, border_color: blue() })
}

fn sheet() -> StyleSheet {
    StyleSheet {
        active: circle(red()),
        hovered: circle(green()),
        dragging: Style::Square(SquareStyle {
            color: blue(),
            border_width: 2,
            border_radius: 3,
            border_color: red(),
        }),
    }
}

#[test]
fn dot_starts_with_documented_defaults() {
    let input: ModRangeInput<StyleSheet> = ModRangeInput::new();
    assert_eq!(DEFAULT_SIZE, 10);
    assert_eq!(input.size, Length::Units(10));
    assert_eq!(input.scalar, DEFAULT_SCALAR);
    assert_eq!(input.scalar, 126);
    assert_eq!(input.wheel_scalar, DEFAULT_WHEEL_SCALAR);
    assert_eq!(input.wheel_scalar, 328);
    assert_eq!(input.modifier_scalar, DEFAULT_MODIFIER_SCALAR);
    assert_eq!(input.modifier_scalar, 1311);
    assert_eq!(
        input.modifier_keys,
        Modifiers { shift: false, control: true, alt: false, logo: false }
    );
    assert_eq!(input.style, StyleSheet::default());
    assert_eq!(input.width(), Length::Units(10));
    assert_eq!(input.height(), Length::Units(10));
}

#[test]
fn dot_builders_set_one_field_each() {
    let alt = Modifiers { shift: false, control: false, alt: true, logo: false };
    let input: ModRangeInput<StyleSheet> = ModRangeInput::new()
        .size(Length::Units(31))
        .style(sheet())
        .scalar(5)
        .wheel_scalar(6)
        .modifier_keys(alt)
        .modifier_scalar(7);
    assert_eq!(input.size, Length::Units(31));
    assert_eq!(input.style, sheet());
    assert_eq!(input.scalar, 5);
    assert_eq!(input.wheel_scalar, 6);
    assert_eq!(input.modifier_keys, alt);
    assert_eq!(input.modifier_scalar, 7);
    assert_eq!(input.width(), Length::Units(31));
    assert_eq!(input.height(), Length::Units(31));
}

#[test]
fn dot_state_accessors() {
    let mut state = State::new(IntRange::new(0, 10).normal_param(7, 5));
    assert_eq!(state.normal().bits(), 3006477107);
    assert_eq!(state.default(), Normal::center());
    assert!(!state.is_dragging());
    state.set_normal(Normal::new(1460288880));
    state.set_default(Normal::max());
    assert_eq!(state.normal().bits(), 1460288880);
    assert_eq!(state.default(), Normal::max());
    state.snap_visible_to(&IntRange::new(0, 10));
    assert_eq!(state.normal().bits(), 1288490189);
}

#[test]
fn dot_drag_upward_raises_the_value() {
    let input: ModRangeInput<StyleSheet> = ModRangeInput::new();
    let mut state = dot_state();
    assert_eq!(
        input.respond(&mut state, left_press(), ClickKind::Single, dot_bounds(), spot(45, 45)),
        used()
    );
    assert!(state.is_dragging());
    let response = send(&input, &mut state, Event::CursorMoved, dot_bounds(), spot(45, 35));
    assert_eq!(response, told(Normal::new(2155741184)));
}

#[test]
fn dot_drag_downward_lowers_the_value() {
    let input: ModRangeInput<StyleSheet> = ModRangeInput::new();
    let mut state = dot_state();
    input.respond(&mut state, left_press(), ClickKind::Single, dot_bounds(), spot(45, 45));
    let response = send(&input, &mut state, Event::CursorMoved, dot_bounds(), spot(45, 55));
    assert_eq!(response, told(Normal::new(2139226112)));
}

#[test]
fn dot_drag_ignores_sideways_movement() {
    let input: ModRangeInput<StyleSheet> = ModRangeInput::new();
    let mut state = dot_state();
    input.respond(&mut state, left_press(), ClickKind::Single, dot_bounds(), spot(45, 45));
    let response = send(&input, &mut state, Event::CursorMoved, dot_bounds(), spot(400, 45));
    assert_eq!(response, told(Normal::center()));
}

#[test]
fn dot_drag_goes_on_outside_the_bounds() {
    let input: ModRangeInput<StyleSheet> = ModRangeInput::new().scalar(whole(1));
    let mut state = dot_state();
    input.respond(&mut state, left_press(), ClickKind::Single, dot_bounds(), spot(45, 45));
    let response = send(&input, &mut state, Event::CursorMoved, dot_bounds(), spot(45, -300));
    assert_eq!(response, told(Normal::max()));
    let response = send(&input, &mut state, Event::CursorMoved, dot_bounds(), spot(45, 300));
    assert_eq!(response, told(Normal::min()));
}

#[test]
fn dot_drag_with_modifier_key_is_smaller() {
    let input: ModRangeInput<StyleSheet> = ModRangeInput::new();
    let mut state = dot_state();
    let ctrl = Modifiers { shift: true, control: true, alt: false, logo: false };
    send(&input, &mut state, Event::KeyPressed { modifiers: ctrl }, dot_bounds(), spot(0, 0));
    input.respond(&mut state, left_press(), ClickKind::Single, dot_bounds(), spot(45, 45));
    let response = send(&input, &mut state, Event::CursorMoved, dot_bounds(), spot(45, 35));
    assert_eq!(response, told(Normal::new(2147648834)));
}

#[test]
fn dot_drag_is_the_part_of_the_height_that_was_covered() {
    let input: ModRangeInput<StyleSheet> = ModRangeInput::new().scalar(whole(1) / 4);
    let two_high = Rectangle { x: 0, y: 0, width: whole(2), height: whole(2) };
    let mut state = dot_state();
    input.respond(&mut state, left_press(), ClickKind::Single, two_high, spot(1, 1));
    let response = send(&input, &mut state, Event::CursorMoved, two_high, spot(1, 2));
    assert_eq!(response, told(Normal::new(1610612736)));
    let response = send(&input, &mut state, Event::CursorMoved, two_high, spot(1, 0));
    assert_eq!(response, told(Normal::new(2684354560)));
}

#[test]
fn dot_drag_in_bounds_without_height_is_ignored() {
    let input: ModRangeInput<StyleSheet> = ModRangeInput::new();
    let flat = Rectangle { x: 0, y: 0, width: whole(10), height: 0 };
    let mut state = dot_state();
    input.respond(&mut state, left_press(), ClickKind::Single, flat, spot(5, 0));
    assert!(state.is_dragging());
    assert_eq!(send(&input, &mut state, Event::CursorMoved, flat, spot(5, 40)), unused());
    assert_eq!(state.normal(), Normal::center());
}

#[test]
fn dot_moving_without_dragging_is_ignored() {
    let input: ModRangeInput<StyleSheet> = ModRangeInput::new();
    let mut state = dot_state();
    assert_eq!(
        send(&input, &mut state, Event::CursorMoved, dot_bounds(), spot(45, 35)),
        unused()
    );
    assert_eq!(state.normal(), Normal::center());
}

#[test]
fn dot_double_click_resets() {
    let input: ModRangeInput<StyleSheet> = ModRangeInput::new();
    let mut state = State::new(NormalParam {
        value: Normal::new(3135326126),
        default: Normal::center(),
    });
    let response =
        input.respond(&mut state, left_press(), ClickKind::Double, dot_bounds(), spot(45, 45));
    assert_eq!(response, told(Normal::center()));
    assert_eq!(state.normal(), Normal::center());
    assert!(!state.is_dragging());
}

#[test]
fn dot_press_outside_is_ignored() {
    let input: ModRangeInput<StyleSheet> = ModRangeInput::new();
    let mut state = dot_state();
    let response =
        input.respond(&mut state, left_press(), ClickKind::Single, dot_bounds(), spot(51, 45));
    assert_eq!(response, unused());
    assert!(!state.is_dragging());
    let right = Event::ButtonPressed { button: Button::Right };
    assert_eq!(send(&input, &mut state, right, dot_bounds(), spot(45, 45)), unused());
}

#[test]
fn dot_release_ends_the_drag() {
    let input: ModRangeInput<StyleSheet> = ModRangeInput::new();
    let mut state = dot_state();
    input.respond(&mut state, left_press(), ClickKind::Single, dot_bounds(), spot(45, 45));
    let up = Event::ButtonReleased { button: Button::Left };
    assert_eq!(send(&input, &mut state, up, dot_bounds(), spot(0, 0)), used());
    assert!(!state.is_dragging());
    let middle = Event::ButtonReleased { button: Button::Middle };
    assert_eq!(send(&input, &mut state, middle, dot_bounds(), spot(0, 0)), unused());
}

#[test]
fn dot_wheel_moves_one_step() {
    let input: ModRangeInput<StyleSheet> = ModRangeInput::new();
    let mut state = dot_state();
    let scroll = Event::WheelScrolled { delta: ScrollDelta::Lines { x: 0, y: whole(2) } };
    let response = send(&input, &mut state, scroll, dot_bounds(), spot(45, 45));
    assert_eq!(response, told(Normal::new(2168979456)));
    let scroll = Event::WheelScrolled { delta: ScrollDelta::Pixels { x: 0, y: -7 } };
    let response = send(&input, &mut state, scroll, dot_bounds(), spot(45, 45));
    assert_eq!(response, told(Normal::center()));
}

#[test]
fn dot_wheel_scalar_zero_turns_the_wheel_off() {
    let input: ModRangeInput<StyleSheet> = ModRangeInput::new().wheel_scalar(0);
    let mut state = dot_state();
    let scroll = Event::WheelScrolled { delta: ScrollDelta::Lines { x: 0, y: whole(2) } };
    assert_eq!(send(&input, &mut state, scroll, dot_bounds(), spot(45, 45)), unused());
    assert_eq!(state.normal(), Normal::center());
}

#[test]
fn dot_wheel_outside_is_ignored() {
    let input: ModRangeInput<StyleSheet> = ModRangeInput::new();
    let mut state = dot_state();
    let scroll = Event::WheelScrolled { delta: ScrollDelta::Lines { x: 0, y: whole(2) } };
    assert_eq!(send(&input, &mut state, scroll, dot_bounds(), spot(39, 45)), unused());
    assert_eq!(send(&input, &mut state, Event::Other, dot_bounds(), spot(45, 45)), unused());
}

#[test]
fn dot_move_virtual_slider_clamps() {
    let input: ModRangeInput<StyleSheet> = ModRangeInput::new();
    let mut state = dot_state();
    assert_eq!(input.move_virtual_slider(&mut state, 48).bits(), 2147483600);
    assert_eq!(input.move_virtual_slider(&mut state, 1 << 60), Normal::min());
    assert_eq!(input.move_virtual_slider(&mut state, -(1 << 60)), Normal::max());
}

#[test]
fn dot_at_rest_is_drawn_in_the_active_style() {
    let mut renderer = QuadRenderer {};
    let quad = renderer.draw(dot_bounds(), spot(0, 0), false, &sheet());
    assert_eq!(
        quad,
        Some(Quad {
            bounds: Bounds {
                x: whole(40) as i64,
                y: whole(40) as i64,
                width: whole(10) as i64,
                height: whole(10) as i64,
            },
            color: red(),
            border_radius: whole(5) as i64,
            border_width: whole(1) as i64,
            border_color: blue(),
        })
    );
}

#[test]
fn dot_under_the_cursor_is_drawn_hovered() {
    let mut renderer = QuadRenderer {};
    let quad = renderer.draw(dot_bounds(), spot(45, 45), false, &sheet());
    assert_eq!(quad.map(|quad| quad.color), Some(green()));
}

#[test]
fn dot_being_dragged_is_drawn_dragging_wherever_the_cursor_is() {
    let mut renderer = QuadRenderer {};
    for cursor in [spot(45, 45), spot(0, 0)] {
        let quad = renderer.draw(dot_bounds(), cursor, true, &sheet());
        assert_eq!(
            quad,
            Some(Quad {
                bounds: Bounds {
                    x: whole(40) as i64,
                    y: whole(40) as i64,
                    width: whole(10) as i64,
                    height: whole(10) as i64,
                },
                color: blue(),
                border_radius: whole(3) as i64,
                border_width: whole(2) as i64,
                border_color: red(),
            })
        );
    }
}

#[test]
fn invisible_dot_draws_nothing() {
    let mut renderer = QuadRenderer {};
    assert_eq!(renderer.draw(dot_bounds(), spot(45, 45), false, &StyleSheet::default()), None);
    assert_eq!(renderer.draw(dot_bounds(), spot(45, 45), true, &StyleSheet::default()), None);
}

#[test]
fn dot_geometry_is_lowered_to_whole_pixels() {
    let bounds = Rectangle {
        x: whole(40) + 30000,
        y: whole(-3) + 1,
        width: whole(11) + 65535,
        height: whole(2),
    };
    let mut renderer = QuadRenderer {};
    let quad = renderer.draw(bounds, spot(0, 0), false, &sheet());
    assert_eq!(
        quad.map(|quad| (quad.bounds, quad.border_radius)),
        Some((
            Bounds {
                x: whole(40) as i64,
                y: whole(-3) as i64,
                width: whole(11) as i64,
                height: whole(11) as i64,
            },
            whole(5) as i64,
        ))
    );
}

#[test]
fn dot_with_negative_width_has_no_radius() {
    let bounds = Rectangle { x: 0, y: 0, width: whole(-4), height: whole(2) };
    let mut renderer = QuadRenderer {};
    let quad = renderer.draw(bounds, spot(0, 0), false, &sheet());
    assert_eq!(quad.map(|quad| quad.border_radius), Some(0));
}

#[test]
fn dot_draw_goes_through_the_renderer() {
    let input: ModRangeInput<StyleSheet> = ModRangeInput::new().style(sheet());
    let mut state = dot_state();
    let mut renderer = QuadRenderer {};
    let quad = input.draw(&state, &mut renderer, dot_bounds(), spot(45, 45));
    assert_eq!(quad.map(|quad| quad.color), Some(green()));
    input.respond(&mut state, left_press(), ClickKind::Single, dot_bounds(), spot(45, 45));
    let quad = input.draw(&state, &mut renderer, dot_bounds(), spot(45, 45));
    assert_eq!(quad.map(|quad| quad.color), Some(blue()));
}

#[test]
fn dot_second_press_at_the_same_place_is_a_double_click() {
    let input: ModRangeInput<StyleSheet> = ModRangeInput::new();
    let mut state = State::new(NormalParam {
        value: Normal::new(3135326126),
        default: Normal::center(),
    });
    assert_eq!(send(&input, &mut state, left_press(), dot_bounds(), spot(45, 45)), used());
    assert!(state.is_dragging());
    let response = send(&input, &mut state, left_press(), dot_bounds(), spot(45, 45));
    assert_eq!(response, told(Normal::center()));
    assert!(!state.is_dragging());
    let response = send(&input, &mut state, left_press(), dot_bounds(), spot(46, 45));
    assert_eq!(response, used());
    assert!(state.is_dragging());
}
