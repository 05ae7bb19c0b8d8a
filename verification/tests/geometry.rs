//! Tests of the small value types: vectors, rectangles, colors, input.

use tetris_core::GridPos;
use tetris_core::input::{ButtonState, MouseButton, MouseButtonInput, MouseScrollUnit};
use tetris_core::rect::Rect;
use tetris_core::rgb::Rgb;
use tetris_core::vector2::{ToVec2, Vector2};

#[test]
fn vector_arithmetic_is_componentwise() {
    let a = Vector2::new(1, 1);
    let b = Vector2::new(2, -1);
    let c = a.plus(b.times(2));
    assert_eq!(a.x, 1);
    assert_eq!(a.y, 1);
    assert_eq!(b.x, 2);
    assert_eq!(b.y, -1);
    assert_eq!(c.x, 5);
    assert_eq!(c.y, -1);
    assert_eq!(c.minus(a), Vector2::new(4, -2));
    assert_eq!(b.negated(), Vector2::new(-2, 1));
}

#[test]
fn to_vec2_accepts_vectors_pairs_and_arrays() {
    assert_eq!(Vector2::new(3, 4).to_vec2(), Vector2::new(3, 4));
    assert_eq!((3, 4).to_vec2(), Vector2::new(3, 4));
    assert_eq!([3, 4].to_vec2(), Vector2::new(3, 4));
}

#[test]
fn rect_edges_come_from_center_and_size() {
    let rect = Rect { center: Vector2::new(5, 10), size: Vector2::new(10, 20) };
    assert_eq!(rect.left(), 0);
    assert_eq!(rect.right(), 10);
    assert_eq!(rect.bottom(), 0);
    assert_eq!(rect.top(), 20);
}

#[test]
fn complete_in_requires_every_edge_inside() {
    let small = Rect { center: Vector2::new(0, 0), size: Vector2::new(10, 10) };
    let large = Rect { center: Vector2::new(0, 0), size: Vector2::new(20, 20) };
    assert!(small.complete_in(large));
    assert!(!large.complete_in(small));
    assert!(small.complete_in(small));
}

#[test]
fn rect_containment_is_strict() {
    let rect = Rect { center: Vector2::new(0, 0), size: Vector2::new(10, 10) };
    assert!(rect.contains(Vector2::new(0, 0)));
    assert!(rect.contains(Vector2::new(4, -4)));
    assert!(!rect.contains(Vector2::new(5, 0)));
    assert!(!rect.contains(Vector2::new(0, -5)));
}

#[test]
fn rgb_keeps_its_components() {
    let c = Rgb::new(241, 196, 15);
    assert_eq!(c.r, 241);
    assert_eq!(c.g, 196);
    assert_eq!(c.b, 15);
    assert_eq!(Rgb::white(), Rgb::new(255, 255, 255));
    assert_eq!(Rgb::black(), Rgb::new(0, 0, 0));
}

#[test]
fn grid_pos_keeps_its_components() {
    let p = GridPos::new(-3, 17);
    assert_eq!(p.x, -3);
    assert_eq!(p.y, 17);
}

#[test]
fn button_state_reports_pressed() {
    assert!(ButtonState::Pressed.is_pressed());
    assert!(!ButtonState::Released.is_pressed());
}

#[test]
fn mouse_button_input_pairs_button_and_state() {
    let e = MouseButtonInput { button: MouseButton::Other(7), state: ButtonState::Released };
    assert_eq!(e.button, MouseButton::Other(7));
    assert!(!e.state.is_pressed());
    assert_ne!(MouseScrollUnit::Line, MouseScrollUnit::Pixel);
}
