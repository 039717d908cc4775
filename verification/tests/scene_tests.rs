use cogent_core::button::{Button, Frame, Widget};
use cogent_core::colors::Color;
use cogent_core::errors::Error;
use cogent_core::events::{Event, MouseButton, Point, Rect, Size};
use cogent_core::layout::{Tree, MAX_SIZE_DOWN_ITERS};
use cogent_core::scene::Scene;
use cogent_core::widget::{DrawCmd, Renderer};

/// A renderer that records every drawing call, or fails every call when
/// asked to.
struct Recorder {
    ops: Vec<DrawCmd>,
    fail: bool,
}

impl Recorder {
    fn new() -> Recorder {
        Recorder { ops: Vec::new(), fail: false }
    }
}

impl Renderer for Recorder {
    fn draw_rect(&mut self, rect: Rect, color: Color) -> Result<(), Error> {
        if self.fail {
            return Err(Error::Rendering(String::from("draw_rect failed")));
        }
        self.ops.push(DrawCmd::FillRect(rect, color));
        Ok(())
    }

    fn draw_text(&mut self, text: &str, position: Point, color: Color) -> Result<(), Error> {
        if self.fail {
            return Err(Error::Rendering(String::from("draw_text failed")));
        }
        self.ops.push(DrawCmd::Text(String::from(text), position, color));
        Ok(())
    }

    fn clear(&mut self, color: Color) -> Result<(), Error> {
        if self.fail {
            return Err(Error::Rendering(String::from("clear failed")));
        }
        self.ops.push(DrawCmd::Clear(color));
        Ok(())
    }
}

fn positioned_button(text: &str, x: i32, y: i32) -> Widget {
    let mut b = Button::new(text);
    b.base.set_position(Point::new(x, y));
    Widget::Button(b)
}

#[test]
fn test_tree_add_child_links() {
    let mut tree = Tree::new(Widget::Frame(Frame::new("root")));
    let a = tree.add_child(0, Widget::Button(Button::new("A")));
    let b = tree.add_child(0, Widget::Button(Button::new("B")));
    let c = tree.add_child(a, Widget::Button(Button::new("C")));
    assert_eq!((a, b, c), (1, 2, 3));
    assert_eq!(tree.len(), 4);
    let root_base = tree.widget(0).widget_base();
    assert_eq!(root_base.node_base.parent, None);
    assert_eq!(root_base.node_base.children, vec![1, 2]);
    assert_eq!(tree.widget(a).widget_base().node_base.parent, Some(0));
    assert_eq!(tree.widget(a).widget_base().node_base.children, vec![3]);
    assert_eq!(tree.widget(c).widget_base().node_base.parent, Some(a));
}

#[test]
fn test_pipeline_button_scenario() {
    // A lone button positioned at (300, 275) granted a 200 by 50 scene.
    let tree = Tree::new(positioned_button("Click Me!", 300, 275));
    let mut scene = Scene::new(tree, Recorder::new());
    scene.layout(Size::new(200, 50));
    let base = scene.root().widget_base();
    assert_eq!(base.alloc_size(), Size::new(200, 50));
    assert_eq!(base.bbox(), Rect::new(300, 275, 200, 50));

    // Rendering the filled button draws its background over the whole
    // bounding box, then the centered label, and succeeds.
    assert!(scene.render().is_ok());
    let ops = &scene.renderer.ops;
    assert_eq!(ops.len(), 2);
    assert_eq!(
        ops[0],
        DrawCmd::FillRect(Rect::new(300, 275, 200, 50), Color::rgba(66, 133, 244, 255)),
    );
    // Centered: 300 + 200/2 - 9*4 = 364; 275 + 50/2 + 4 = 304.
    assert_eq!(
        ops[1],
        DrawCmd::Text(String::from("Click Me!"), Point::new(364, 304), Color::rgb(255, 255, 255)),
    );
}

#[test]
fn test_pipeline_runs_twice_same_bbox() {
    let mut tree = Tree::new(Widget::Frame(Frame::new("root")));
    tree.add_child(0, positioned_button("Go", 10, 20));
    let mut scene = Scene::new(tree, Recorder::new());
    scene.layout(Size::new(640, 480));
    let first_root = scene.tree.widget(0).widget_base().bbox();
    let first_child = scene.tree.widget(1).widget_base().bbox();
    scene.layout(Size::new(640, 480));
    assert_eq!(scene.tree.widget(0).widget_base().bbox(), first_root);
    assert_eq!(scene.tree.widget(1).widget_base().bbox(), first_child);
}

#[test]
fn test_pipeline_iteration_bound() {
    let mut tree = Tree::new(Widget::Frame(Frame::new("root")));
    let mid = tree.add_child(0, Widget::Frame(Frame::new("mid")));
    tree.add_child(mid, Widget::Button(Button::new("leaf")));
    let iters = tree.layout_pass(Size::new(100, 100));
    assert!(1 <= iters && iters <= MAX_SIZE_DOWN_ITERS);
}

#[test]
fn test_frame_passes_allocation_through() {
    let mut tree = Tree::new(Widget::Frame(Frame::new("root")));
    let mid = tree.add_child(0, Widget::Frame(Frame::new("mid")));
    let leaf = tree.add_child(mid, Widget::Button(Button::new("leaf")));
    tree.layout_pass(Size::new(320, 240));
    assert_eq!(tree.widget(0).widget_base().alloc_size(), Size::new(320, 240));
    assert_eq!(tree.widget(mid).widget_base().alloc_size(), Size::new(320, 240));
    assert_eq!(tree.widget(leaf).widget_base().alloc_size(), Size::new(320, 240));
}

#[test]
fn test_pipeline_offsets_accumulate() {
    let mut root = Frame::new("root");
    root.base.set_position(Point::new(10, 10));
    let mut tree = Tree::new(Widget::Frame(root));
    let child = tree.add_child(0, positioned_button("Go", 5, 6));
    tree.layout_pass(Size::new(100, 100));
    assert_eq!(tree.widget(0).widget_base().bbox(), Rect::new(10, 10, 100, 100));
    let child_bbox = tree.widget(child).widget_base().bbox();
    assert_eq!(child_bbox.point(), Point::new(15, 16));
}

#[test]
fn test_pipeline_bbox_respects_min_size() {
    let mut b = Button::new("Go");
    let mut style = *b.base.style();
    style.min_size = Size::new(150, 60);
    b.base.set_style(style);
    let mut tree = Tree::new(Widget::Button(b));
    tree.layout_pass(Size::new(100, 50));
    // The allocation of 100 by 50 is below the minimum size of 150 by 60.
    assert_eq!(tree.widget(0).widget_base().bbox().size(), Size::new(150, 60));
}

#[test]
fn test_click_dispatch_consumes_and_fires_once() {
    let mut b = Button::new("Go");
    b.base.set_on_click(7);
    let tree = Tree::new(Widget::Button(b));
    let mut scene = Scene::new(tree, Recorder::new());
    let click = Event::click(Point::new(5, 5), MouseButton::Left);
    assert_eq!(scene.handle_event(&click).unwrap(), true);
    assert_eq!(scene.pop_command(), Some(7));
    assert_eq!(scene.pop_command(), None);
}

#[test]
fn test_right_click_not_consumed_no_command() {
    let mut b = Button::new("Go");
    b.base.set_on_click(7);
    let tree = Tree::new(Widget::Button(b));
    let mut scene = Scene::new(tree, Recorder::new());
    let click = Event::click(Point::new(5, 5), MouseButton::Right);
    assert_eq!(scene.handle_event(&click).unwrap(), false);
    assert_eq!(scene.pop_command(), None);
}

#[test]
fn test_consuming_widget_stops_propagation_to_children() {
    let mut parent = Button::new("parent");
    parent.base.set_on_click(1);
    let mut tree = Tree::new(Widget::Button(parent));
    let mut child = Button::new("child");
    child.base.set_on_click(2);
    tree.add_child(0, Widget::Button(child));
    let mut scene = Scene::new(tree, Recorder::new());
    let click = Event::click(Point::zero(), MouseButton::Left);
    assert_eq!(scene.handle_event(&click).unwrap(), true);
    // Only the parent fired: it consumed the event, so its child was never
    // offered it.
    assert_eq!(scene.pop_command(), Some(1));
    assert_eq!(scene.pop_command(), None);
}

#[test]
fn test_event_offered_to_siblings_of_consumer() {
    let mut tree = Tree::new(Widget::Frame(Frame::new("root")));
    let mut first = Button::new("first");
    first.base.set_on_click(1);
    tree.add_child(0, Widget::Button(first));
    let mut second = Button::new("second");
    second.base.set_on_click(2);
    tree.add_child(0, Widget::Button(second));
    let mut scene = Scene::new(tree, Recorder::new());
    let click = Event::click(Point::zero(), MouseButton::Left);
    assert_eq!(scene.handle_event(&click).unwrap(), true);
    // A consuming widget halts propagation into its own subtree only; its
    // sibling is still offered the event.
    assert_eq!(scene.pop_command(), Some(2));
    assert_eq!(scene.pop_command(), Some(1));
    assert_eq!(scene.pop_command(), None);
}

#[test]
fn test_key_press_not_consumed() {
    let mut b = Button::new("Go");
    b.base.set_on_click(7);
    let tree = Tree::new(Widget::Button(b));
    let mut scene = Scene::new(tree, Recorder::new());
    let e = Event::key_press(
        cogent_core::events::Key::Enter,
        cogent_core::events::Modifiers::none(),
    );
    assert_eq!(scene.handle_event(&e).unwrap(), false);
    assert_eq!(scene.pop_command(), None);
}

#[test]
fn test_render_failure_propagates_and_keeps_layout() {
    let tree = Tree::new(positioned_button("Go", 1, 2));
    let mut scene = Scene::new(tree, Recorder::new());
    scene.layout(Size::new(50, 20));
    let bbox = scene.root().widget_base().bbox();
    scene.renderer.fail = true;
    let r = scene.render();
    assert!(matches!(r, Err(Error::Rendering(_))));
    // A failed render pass leaves layout state untouched.
    assert_eq!(scene.root().widget_base().bbox(), bbox);
}

#[test]
fn test_frame_draws_nothing() {
    let tree = Tree::new(Widget::Frame(Frame::new("root")));
    let scene = Scene::new(tree, Recorder::new());
    assert_eq!(scene.draw_commands().len(), 0);
}

#[test]
fn test_error_new_is_message() {
    let e = Error::new(String::from("something went wrong"));
    assert!(matches!(e, Error::Message(m) if m == "something went wrong"));
}
