use carbide::event::{filter_modifier, Button, Input, Key, KeyboardEvent, ModifierKey, Motion, MouseButton, MouseEvent, WidgetEvent, WindowEvent};
use carbide::event_handler::EventHandler;
use carbide::position::{Dimension, Position};
use carbide::scalar::Scalar;

fn s(v: f64) -> Scalar {
    Scalar::from_bits(v.to_bits())
}

fn f(v: Scalar) -> f64 {
    f64::from_bits(v.to_bits())
}

fn p(x: f64, y: f64) -> Position {
    Position::new(s(x), s(y))
}

fn window() -> Dimension {
    Dimension::new(s(800.0), s(600.0))
}

fn feed(h: &mut EventHandler, input: Input, now: u64) -> Option<WindowEvent> {
    h.handle_event_at(input, window(), now)
}

/// Moves the cursor to window position (`x`, `y`).
fn cursor_to(h: &mut EventHandler, x: f64, y: f64) {
    feed(h, Input::Motion(Motion::MouseCursor { x: s(x - 400.0), y: s(300.0 - y) }), 0);
}

#[test]
fn filter_modifier_maps_modifier_keys() {
    assert_eq!(filter_modifier(Key::LCtrl), Some(ModifierKey::ctrl()));
    assert_eq!(filter_modifier(Key::RCtrl), Some(ModifierKey::ctrl()));
    assert_eq!(filter_modifier(Key::LShift), Some(ModifierKey::shift()));
    assert_eq!(filter_modifier(Key::RShift), Some(ModifierKey::shift()));
    assert_eq!(filter_modifier(Key::LAlt), Some(ModifierKey::alt()));
    assert_eq!(filter_modifier(Key::RAlt), Some(ModifierKey::alt()));
    assert_eq!(filter_modifier(Key::LGui), Some(ModifierKey::gui()));
    assert_eq!(filter_modifier(Key::RGui), Some(ModifierKey::gui()));
    assert_eq!(filter_modifier(Key::A), None);
    assert_eq!(filter_modifier(Key::Return), None);
}

#[test]
fn modifier_key_insert_remove_contains() {
    let mut m = ModifierKey::default();
    assert_eq!(m.bits, 0);
    m.insert(ModifierKey::ctrl());
    m.insert(ModifierKey::shift());
    assert_eq!(m.bits, 0b11);
    assert!(m.contains(ModifierKey::ctrl()));
    assert!(m.contains(ModifierKey::shift()));
    assert!(!m.contains(ModifierKey::alt()));
    m.remove(ModifierKey::ctrl());
    assert!(!m.contains(ModifierKey::ctrl()));
    assert_eq!(m.bits, 0b10);
    m.insert(ModifierKey::gui());
    assert_eq!(m.bits, 0b1010);
}

#[test]
fn current_mouse_position_of_each_event() {
    let a = p(1.0, 2.0);
    let b = p(3.0, 4.0);
    let m = ModifierKey::no_modifier();
    let events = vec![
        MouseEvent::Press(MouseButton::Left, a, m),
        MouseEvent::Release(MouseButton::Left, a, m),
        MouseEvent::Click(MouseButton::Left, a, m),
        MouseEvent::NClick(MouseButton::Left, a, m, 3),
        MouseEvent::Scroll { x: s(1.0), y: s(1.0), mouse_position: a, modifiers: m },
    ];
    for e in events {
        assert_eq!(e.get_current_mouse_position(), a);
    }
    let mv = MouseEvent::Move { from: b, to: a, delta_xy: b, modifiers: m };
    assert_eq!(mv.get_current_mouse_position(), a);
    let drag = MouseEvent::Drag { button: MouseButton::Left, origin: b, from: b, to: a, delta_xy: b, total_delta_xy: b, modifiers: m };
    assert_eq!(drag.get_current_mouse_position(), a);
}

#[test]
fn key_press_release_gives_click() {
    let mut h = EventHandler::new();
    assert!(feed(&mut h, Input::Press(Button::Keyboard(Key::A)), 0).is_none());
    assert!(feed(&mut h, Input::Release(Button::Keyboard(Key::A)), 0).is_none());
    let ev = h.get_events();
    assert_eq!(ev.len(), 3);
    assert!(matches!(ev[0], WidgetEvent::Keyboard(KeyboardEvent::Press(Key::A, _))));
    assert!(matches!(ev[1], WidgetEvent::Keyboard(KeyboardEvent::Release(Key::A, _))));
    assert!(matches!(ev[2], WidgetEvent::Keyboard(KeyboardEvent::Click(Key::A, _))));
}

#[test]
fn release_of_unpressed_key_gives_no_click() {
    let mut h = EventHandler::new();
    feed(&mut h, Input::Release(Button::Keyboard(Key::B)), 0);
    assert_eq!(h.get_events().len(), 1);
}

#[test]
fn modifier_keys_are_held_while_down() {
    let mut h = EventHandler::new();
    feed(&mut h, Input::Press(Button::Keyboard(Key::LShift)), 0);
    feed(&mut h, Input::Press(Button::Keyboard(Key::A)), 0);
    match &h.get_events()[1] {
        WidgetEvent::Keyboard(KeyboardEvent::Press(Key::A, m)) => assert!(m.contains(ModifierKey::shift())),
        _ => panic!("expected a press"),
    }
    feed(&mut h, Input::Release(Button::Keyboard(Key::LShift)), 0);
    feed(&mut h, Input::Press(Button::Keyboard(Key::B)), 0);
    match h.get_events().last() {
        Some(WidgetEvent::Keyboard(KeyboardEvent::Press(Key::B, m))) => assert_eq!(m.bits, 0),
        _ => panic!("expected a press"),
    }
}

#[test]
fn mouse_click_and_double_click() {
    let mut h = EventHandler::new();
    cursor_to(&mut h, 100.0, 100.0);
    h.clear_events();
    feed(&mut h, Input::Press(Button::Mouse(MouseButton::Left)), 0);
    feed(&mut h, Input::Release(Button::Mouse(MouseButton::Left)), 1_000);
    {
        let ev = h.get_events();
        assert_eq!(ev.len(), 3);
        match ev[2] {
            WidgetEvent::Mouse(MouseEvent::Click(MouseButton::Left, at, _)) => assert_eq!(at, p(100.0, 100.0)),
            _ => panic!("expected a click"),
        }
    }
    feed(&mut h, Input::Press(Button::Mouse(MouseButton::Left)), 100_000_000);
    feed(&mut h, Input::Release(Button::Mouse(MouseButton::Left)), 200_000_000);
    let ev = h.get_events();
    assert_eq!(ev.len(), 6);
    assert!(matches!(ev[4], WidgetEvent::Mouse(MouseEvent::Release(MouseButton::Left, _, _))));
    assert!(matches!(ev[5], WidgetEvent::Mouse(MouseEvent::NClick(MouseButton::Left, _, _, 2))));
}

#[test]
fn slow_second_click_is_a_new_click() {
    let mut h = EventHandler::new();
    feed(&mut h, Input::Press(Button::Mouse(MouseButton::Left)), 0);
    feed(&mut h, Input::Release(Button::Mouse(MouseButton::Left)), 0);
    feed(&mut h, Input::Press(Button::Mouse(MouseButton::Left)), 400_000_000);
    feed(&mut h, Input::Release(Button::Mouse(MouseButton::Left)), 500_000_000);
    let ev = h.get_events();
    assert_eq!(ev.len(), 6);
    assert!(matches!(ev[5], WidgetEvent::Mouse(MouseEvent::Click(MouseButton::Left, _, _))));
}

#[test]
fn far_second_click_is_a_new_click() {
    let mut h = EventHandler::new();
    feed(&mut h, Input::Press(Button::Mouse(MouseButton::Left)), 0);
    feed(&mut h, Input::Release(Button::Mouse(MouseButton::Left)), 0);
    cursor_to(&mut h, 10.0, 10.0);
    h.clear_events();
    feed(&mut h, Input::Press(Button::Mouse(MouseButton::Left)), 100);
    feed(&mut h, Input::Release(Button::Mouse(MouseButton::Left)), 200);
    let ev = h.get_events();
    assert_eq!(ev.len(), 3);
    assert!(matches!(ev[2], WidgetEvent::Mouse(MouseEvent::Click(MouseButton::Left, _, _))));
}

#[test]
fn release_away_from_press_is_no_click() {
    let mut h = EventHandler::new();
    feed(&mut h, Input::Press(Button::Mouse(MouseButton::Left)), 0);
    cursor_to(&mut h, 2.0, 3.0);
    h.clear_events();
    feed(&mut h, Input::Release(Button::Mouse(MouseButton::Left)), 10);
    assert_eq!(h.get_events().len(), 1);
    // Within the radius of 3: a distance of exactly sqrt(8).
    let mut h = EventHandler::new();
    feed(&mut h, Input::Press(Button::Mouse(MouseButton::Left)), 0);
    cursor_to(&mut h, 2.0, 2.0);
    h.clear_events();
    feed(&mut h, Input::Release(Button::Mouse(MouseButton::Left)), 10);
    assert_eq!(h.get_events().len(), 2);
}

#[test]
fn triple_click_counts_three() {
    let mut h = EventHandler::new();
    for t in [0u64, 100, 200] {
        feed(&mut h, Input::Press(Button::Mouse(MouseButton::Right)), t);
        feed(&mut h, Input::Release(Button::Mouse(MouseButton::Right)), t);
    }
    let ev = h.get_events();
    assert!(matches!(ev.last(), Some(WidgetEvent::Mouse(MouseEvent::NClick(MouseButton::Right, _, _, 3)))));
}

#[test]
fn scrolls_fold_into_one() {
    let mut h = EventHandler::new();
    feed(&mut h, Input::Motion(Motion::Scroll { x: s(1.0), y: s(2.0) }), 0);
    feed(&mut h, Input::Motion(Motion::Scroll { x: s(0.5), y: s(-1.0) }), 0);
    let ev = h.get_events();
    assert_eq!(ev.len(), 1);
    match ev[0] {
        WidgetEvent::Mouse(MouseEvent::Scroll { x, y, .. }) => {
            assert_eq!(f(x), 1.5);
            assert_eq!(f(y), 1.0);
        }
        _ => panic!("expected a scroll"),
    }
}

#[test]
fn moves_fold_and_still_moves_are_dropped() {
    let mut h = EventHandler::new();
    cursor_to(&mut h, 1.0, 1.0);
    cursor_to(&mut h, 3.0, 1.0);
    cursor_to(&mut h, 3.0, 1.0);
    let ev = h.get_events();
    assert_eq!(ev.len(), 1);
    match ev[0] {
        WidgetEvent::Mouse(MouseEvent::Move { from, to, delta_xy, .. }) => {
            assert_eq!(from, p(0.0, 0.0));
            assert_eq!(to, p(3.0, 1.0));
            assert_eq!(delta_xy, p(3.0, 1.0));
        }
        _ => panic!("expected a move"),
    }
}

#[test]
fn cursor_coordinates_are_turned_into_window_coordinates() {
    let mut h = EventHandler::new();
    feed(&mut h, Input::Motion(Motion::MouseCursor { x: s(0.0), y: s(0.0) }), 0);
    match h.get_events()[0] {
        WidgetEvent::Mouse(MouseEvent::Move { to, .. }) => assert_eq!(to, p(400.0, 300.0)),
        _ => panic!("expected a move"),
    }
    feed(&mut h, Input::Motion(Motion::MouseCursor { x: s(-400.0), y: s(300.0) }), 0);
    match h.get_events()[0] {
        WidgetEvent::Mouse(MouseEvent::Move { to, .. }) => assert_eq!(to, p(0.0, 0.0)),
        _ => panic!("expected a move"),
    }
}

#[test]
fn dragging_with_a_held_button() {
    let mut h = EventHandler::new();
    feed(&mut h, Input::Press(Button::Mouse(MouseButton::Left)), 0);
    cursor_to(&mut h, 2.0, 0.0);
    let ev = h.get_events();
    assert_eq!(ev.len(), 3);
    assert!(matches!(ev[1], WidgetEvent::Mouse(MouseEvent::Move { .. })));
    match ev[2] {
        WidgetEvent::Mouse(MouseEvent::Drag { button, origin, total_delta_xy, .. }) => {
            assert_eq!(button, MouseButton::Left);
            assert_eq!(origin, p(0.0, 0.0));
            assert_eq!(total_delta_xy, p(2.0, 0.0));
        }
        _ => panic!("expected a drag"),
    }
}

#[test]
fn window_events() {
    let mut h = EventHandler::new();
    match feed(&mut h, Input::Resize(800, 600), 0) {
        Some(WindowEvent::Resize(d)) => assert_eq!((f(d.width), f(d.height)), (800.0, 600.0)),
        _ => panic!("expected a resize"),
    }
    assert!(matches!(feed(&mut h, Input::Focus(true), 0), Some(WindowEvent::Focus)));
    assert!(feed(&mut h, Input::Focus(false), 0).is_none());
    assert!(matches!(feed(&mut h, Input::Redraw, 0), Some(WindowEvent::Redraw)));
    feed(&mut h, Input::Text("hi".to_string()), 0);
    let ev = h.get_events();
    assert_eq!(ev.len(), 4);
    assert!(matches!(ev[2], WidgetEvent::Window(WindowEvent::UnFocus)));
    match &ev[3] {
        WidgetEvent::Keyboard(KeyboardEvent::Text(t, _)) => assert_eq!(t, "hi"),
        _ => panic!("expected text"),
    }
    h.clear_events();
    assert!(h.get_events().is_empty());
}

#[test]
fn handle_event_reads_the_clock_for_double_clicks() {
    let mut h = EventHandler::new();
    let press = Input::Press(Button::Mouse(MouseButton::Left));
    let release = Input::Release(Button::Mouse(MouseButton::Left));
    assert!(h.handle_event(press.clone(), window()).is_none());
    assert!(h.handle_event(release.clone(), window()).is_none());
    h.handle_event(press, window());
    h.handle_event(release, window());
    let ev = h.get_events();
    assert!(matches!(ev[2], WidgetEvent::Mouse(MouseEvent::Click(MouseButton::Left, _, _))));
    assert!(matches!(ev.last(), Some(WidgetEvent::Mouse(MouseEvent::NClick(MouseButton::Left, _, _, 2)))));
    assert!(matches!(h.handle_event(Input::Redraw, window()), Some(WindowEvent::Redraw)));
}

#[test]
fn last_n_click_count_follows_the_clicks() {
    let mut h = EventHandler::new();
    let press = Input::Press(Button::Mouse(MouseButton::Left));
    let release = Input::Release(Button::Mouse(MouseButton::Left));
    assert_eq!(h.last_n_click_count(), None);
    feed(&mut h, press.clone(), 0);
    feed(&mut h, release.clone(), 10);
    assert_eq!(h.last_n_click_count(), None);
    feed(&mut h, press.clone(), 20);
    feed(&mut h, release.clone(), 30);
    assert_eq!(h.last_n_click_count(), Some(2));
    feed(&mut h, press, 40);
    feed(&mut h, release, 50);
    assert_eq!(h.last_n_click_count(), Some(3));
}
