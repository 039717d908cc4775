use cogent_core::button::{Button, ButtonType, Frame, Widget};
use cogent_core::colors::Color;
use cogent_core::events::{Event, Point, Rect, Size};
use cogent_core::tree::NodeBase;
use cogent_core::widget::{DrawCmd, WidgetBase};

#[test]
fn test_node_base_accessors() {
    let mut n = NodeBase::new("root");
    assert_eq!(n.name(), "root");
    n.set_name("renamed");
    assert_eq!(n.name(), "renamed");
    assert_eq!(n.parent(), None);
    assert_eq!(n.num_children(), 0);
    assert_eq!(n.child(0), None);
    assert!(n.children().is_empty());
}

#[test]
fn test_widget_base_defaults() {
    let w = WidgetBase::new("w");
    assert_eq!(w.actual_size(), Size::zero());
    assert_eq!(w.alloc_size(), Size::zero());
    assert_eq!(w.position(), Point::zero());
    assert_eq!(w.bbox(), Rect::new(0, 0, 0, 0));
    assert_eq!(w.tooltip(), None);
    assert_eq!(w.call_on_click(), None);
    assert!(w.style().visible);
    assert!(w.style().enabled);
    assert_eq!(w.style().opacity, 255);
    assert_eq!(w.style().max_size, Size::new(u32::MAX, u32::MAX));
}

#[test]
fn test_widget_base_setters() {
    let mut w = WidgetBase::new("w");
    w.set_actual_size(Size::new(1, 2));
    w.set_alloc_size(Size::new(3, 4));
    w.set_position(Point::new(5, 6));
    w.set_bbox(Rect::new(7, 8, 9, 10));
    w.set_tooltip(Some(String::from("hint")));
    w.set_on_click(42);
    assert_eq!(w.actual_size(), Size::new(1, 2));
    assert_eq!(w.alloc_size(), Size::new(3, 4));
    assert_eq!(w.position(), Point::new(5, 6));
    assert_eq!(w.bbox(), Rect::new(7, 8, 9, 10));
    assert_eq!(w.tooltip(), Some(&String::from("hint")));
    assert_eq!(w.call_on_click(), Some(42));
    assert_eq!(w.node_base().name(), "w");
}

#[test]
fn test_button_accessors() {
    let mut b = Button::new("OK");
    assert_eq!(b.text(), "OK");
    assert_eq!(b.icon(), None);
    b.set_text("Cancel");
    b.set_icon(Some(String::from("cross")));
    b.set_type(ButtonType::Outlined);
    assert_eq!(b.text(), "Cancel");
    assert_eq!(b.icon(), Some(&String::from("cross")));
    assert_eq!(b.button_type, ButtonType::Outlined);
}

#[test]
fn test_button_size_up_uses_text_metric() {
    let mut b = Button::new("Click Me!");
    b.size_up();
    // 9 characters at 8 pixels each, plus 24 pixels of slack, 40 tall.
    assert_eq!(b.base.actual_size(), Size::new(96, 40));
}

#[test]
fn test_button_style_filled_preset() {
    let mut b = Button::new("Go");
    b.style();
    let s = b.base.style();
    assert_eq!(s.background, Some(Color::rgba(66, 133, 244, 255)));
    assert_eq!(s.foreground, Some(Color::rgb(255, 255, 255)));
    assert_eq!(s.padding.top, 12);
    assert_eq!(s.border_width, 0);
}

#[test]
fn test_button_style_outlined_preset() {
    let mut b = Button::new("Go");
    b.set_type(ButtonType::Outlined);
    b.style();
    let s = b.base.style();
    assert_eq!(s.background, None);
    assert_eq!(s.border_color, Some(Color::rgba(66, 133, 244, 255)));
    assert_eq!(s.border_width, 1);
}

#[test]
fn test_button_style_preserves_size_bounds() {
    let mut b = Button::new("Go");
    let mut style = *b.base.style();
    style.min_size = Size::new(10, 20);
    style.max_size = Size::new(30, 40);
    b.base.set_style(style);
    b.style();
    assert_eq!(b.base.style().min_size, Size::new(10, 20));
    assert_eq!(b.base.style().max_size, Size::new(30, 40));
}

#[test]
fn test_button_click_fires_command_once() {
    let mut b = Button::new("Go");
    b.base.set_on_click(7);
    let e = Event::click(Point::zero(), cogent_core::events::MouseButton::Left);
    let r = b.handle_event(&e);
    assert!(r.consumed);
    assert_eq!(r.command, Some(7));
}

#[test]
fn test_button_right_click_not_consumed() {
    let mut b = Button::new("Go");
    b.base.set_on_click(7);
    let e = Event::click(Point::zero(), cogent_core::events::MouseButton::Right);
    let r = b.handle_event(&e);
    assert!(!r.consumed);
    assert_eq!(r.command, None);
}

#[test]
fn test_button_click_without_handler_still_consumes() {
    let b = Button::new("Go");
    let e = Event::click(Point::zero(), cogent_core::events::MouseButton::Left);
    let r = b.handle_event(&e);
    assert!(r.consumed);
    assert_eq!(r.command, None);
}

#[test]
fn test_frame_consumes_nothing() {
    let f = Frame::new("panel");
    let w = Widget::Frame(f);
    let e = Event::click(Point::zero(), cogent_core::events::MouseButton::Left);
    let r = w.handle_event(&e);
    assert!(!r.consumed);
    assert_eq!(r.command, None);
}

#[test]
fn test_button_draw_commands_order() {
    let mut b = Button::new("Hi");
    b.set_type(ButtonType::Outlined);
    b.style();
    b.base.set_bbox(Rect::new(0, 0, 100, 40));
    let cmds = b.draw_commands();
    // Outlined: no background, a border rectangle, then the label.
    assert_eq!(cmds.len(), 2);
    assert_eq!(cmds[0], DrawCmd::FillRect(Rect::new(0, 0, 100, 40), Color::rgba(66, 133, 244, 255)));
    match &cmds[1] {
        DrawCmd::Text(text, pos, color) => {
            assert_eq!(text, "Hi");
            // Centered: 0 + 100/2 - 2*4 = 42; 0 + 40/2 + 4 = 24.
            assert_eq!(*pos, Point::new(42, 24));
            assert_eq!(*color, Color::rgba(66, 133, 244, 255));
        },
        other => panic!("expected a text command, got {:?}", other),
    }
}
