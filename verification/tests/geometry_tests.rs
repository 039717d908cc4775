use cogent_core::events::{Event, EventData, EventType, Key, Modifiers, MouseButton, Point, Rect, Size};

#[test]
fn test_rect_contains_top_left_corner() {
    let r = Rect::new(10, 20, 5, 7);
    assert!(r.contains(Point::new(10, 20)));
}

#[test]
fn test_rect_excludes_right_edge() {
    let r = Rect::new(10, 20, 5, 7);
    assert!(!r.contains(Point::new(15, 20)));
}

#[test]
fn test_rect_excludes_bottom_edge() {
    let r = Rect::new(10, 20, 5, 7);
    assert!(!r.contains(Point::new(10, 27)));
}

#[test]
fn test_rect_contains_interior_point() {
    let r = Rect::new(-5, -5, 10, 10);
    assert!(r.contains(Point::new(0, 0)));
    assert!(!r.contains(Point::new(-6, 0)));
}

#[test]
fn test_empty_rect_contains_nothing() {
    let r = Rect::new(3, 4, 0, 0);
    assert!(!r.contains(Point::new(3, 4)));
}

#[test]
fn test_rect_point_and_size() {
    let r = Rect::from_point_size(Point::new(1, 2), Size::new(3, 4));
    assert_eq!(r.point(), Point::new(1, 2));
    assert_eq!(r.size(), Size::new(3, 4));
    assert_eq!(r, Rect::new(1, 2, 3, 4));
}

#[test]
fn test_zero_constructors() {
    assert_eq!(Point::zero(), Point::new(0, 0));
    assert_eq!(Size::zero(), Size::new(0, 0));
}

#[test]
fn test_event_click_constructor() {
    let e = Event::click(Point::new(5, 6), MouseButton::Left);
    assert!(matches!(e.event_type, EventType::Click));
    assert_eq!(e.position, Point::new(5, 6));
    assert!(matches!(e.data, EventData::Mouse { button: MouseButton::Left }));
}

#[test]
fn test_event_mouse_press_constructor() {
    let e = Event::mouse_press(Point::new(1, 1), MouseButton::Right);
    assert!(matches!(e.event_type, EventType::MousePress));
    assert!(matches!(e.data, EventData::Mouse { button: MouseButton::Right }));
}

#[test]
fn test_event_type_names() {
    assert_eq!(EventType::Click.name(), "Click");
    assert_eq!(EventType::MousePress.name(), "MousePress");
    assert_eq!(EventType::Scroll.name(), "Scroll");
    assert_eq!(EventType::Custom("drag").name(), "Custom(drag)");
}

#[test]
fn test_event_type_equality() {
    assert_eq!(EventType::Click, EventType::Click);
    assert_ne!(EventType::Click, EventType::MouseMove);
    assert_eq!(EventType::Custom("a"), EventType::Custom("a"));
    assert_ne!(EventType::Custom("a"), EventType::Custom("b"));
}

#[test]
fn test_modifiers_default_holds_nothing() {
    assert_eq!(Modifiers::default(), Modifiers::none());
}

#[test]
fn test_event_key_press_constructor() {
    let e = Event::key_press(Key::Enter, Modifiers::none());
    assert!(matches!(e.event_type, EventType::KeyPress));
    assert_eq!(e.position, Point::zero());
    assert!(matches!(
        e.data,
        EventData::Key { key: Key::Enter, modifiers: Modifiers { shift: false, ctrl: false, alt: false, meta: false } }
    ));
}
