//! Input events and the plain 2D geometry they are expressed in.

use vstd::prelude::*;
use vstd::string::StringExecFns;

verus! {

/// A point in 2D space.
#[derive(Debug, Clone, Copy, PartialEq, Eq, Hash, Structural)]
pub struct Point {
    /// Horizontal coordinate.
    pub x: i32,
    /// Vertical coordinate.
    pub y: i32,
}

impl Point {
    /// Creates a new point.
    pub fn new(x: i32, y: i32) -> (p: Point)
        ensures
            p == (Point { x, y }),
    {
        Point { x, y }
    }

    /// Returns the origin point.
    pub fn zero() -> (p: Point)
        ensures
            p == (Point { x: 0, y: 0 }),
    {
        Point { x: 0, y: 0 }
    }
}

/// A size in 2D space.
#[derive(Debug, Clone, Copy, PartialEq, Eq, Hash, Structural)]
pub struct Size {
    /// Horizontal extent in pixels.
    pub width: u32,
    /// Vertical extent in pixels.
    pub height: u32,
}

impl Size {
    /// Creates a new size.
    pub fn new(width: u32, height: u32) -> (s: Size)
        ensures
            s == (Size { width, height }),
    {
        Size { width, height }
    }

    /// Returns the zero size.
    pub fn zero() -> (s: Size)
        ensures
            s == (Size { width: 0, height: 0 }),
    {
        Size { width: 0, height: 0 }
    }
}

/// A rectangle in 2D space: an origin point and an extent.
#[derive(Debug, Clone, Copy, PartialEq, Eq, Structural)]
pub struct Rect {
    /// Horizontal coordinate of the left edge.
    pub x: i32,
    /// Vertical coordinate of the top edge.
    pub y: i32,
    /// Horizontal extent in pixels.
    pub width: u32,
    /// Vertical extent in pixels.
    pub height: u32,
}

/// Half-open containment: `(px, py)` lies in the rectangle iff
/// `x <= px < x + width` and `y <= py < y + height`.
pub open spec fn spec_contains(r: Rect, p: Point) -> bool {
    &&& r.x <= p.x < r.x + r.width
    &&& r.y <= p.y < r.y + r.height
}

impl Rect {
    /// Creates a new rectangle.
    pub fn new(x: i32, y: i32, width: u32, height: u32) -> (r: Rect)
        ensures
            r == (Rect { x, y, width, height }),
    {
        Rect { x, y, width, height }
    }

    /// Creates a rectangle from an origin point and a size.
    pub fn from_point_size(point: Point, size: Size) -> (r: Rect)
        ensures
            r == (Rect { x: point.x, y: point.y, width: size.width, height: size.height }),
    {
        Rect { x: point.x, y: point.y, width: size.width, height: size.height }
    }

    /// Returns the top-left point of the rectangle.
    pub fn point(&self) -> (p: Point)
        ensures
            p == (Point { x: self.x, y: self.y }),
    {
        Point { x: self.x, y: self.y }
    }

    /// Returns the size of the rectangle.
    pub fn size(&self) -> (s: Size)
        ensures
            s == (Size { width: self.width, height: self.height }),
    {
        Size { width: self.width, height: self.height }
    }

    /// Returns whether the point lies inside the rectangle, with half-open
    /// bounds: the left and top edges are inside, the right and bottom edges
    /// are not.
    pub fn contains(&self, point: Point) -> (inside: bool)
        ensures
            inside == spec_contains(*self, point),
    {
        let px = point.x as i64;
        let py = point.y as i64;
        px >= self.x as i64 && px < self.x as i64 + self.width as i64
            && py >= self.y as i64 && py < self.y as i64 + self.height as i64
    }
}

/// A rectangle's own origin is contained in it whenever the rectangle has any
/// area at all.
pub proof fn lemma_rect_origin_contained(r: Rect)
    requires
        r.width > 0,
        r.height > 0,
    ensures
        spec_contains(r, Point { x: r.x, y: r.y }),
{
}

/// A point on the right edge, at `x + width`, lies outside the rectangle:
/// containment is half-open.
pub proof fn lemma_rect_right_edge_excluded(r: Rect, p: Point)
    requires
        p.x == r.x + r.width,
    ensures
        !spec_contains(r, p),
{
}

/// The kind of an input event.
#[derive(Debug, Clone, Copy, PartialEq, Eq, Hash)]
pub enum EventType {
    /// A mouse button was pressed.
    MousePress,
    /// A mouse button was released.
    MouseRelease,
    /// The mouse moved.
    MouseMove,
    /// A mouse button was clicked.
    Click,
    /// A key was pressed.
    KeyPress,
    /// A key was released.
    KeyRelease,
    /// A character was typed.
    Char,
    /// The widget gained focus.
    Focus,
    /// The widget lost focus.
    Blur,
    /// The widget was scrolled.
    Scroll,
    /// A custom event.
    Custom(&'static str),
}

/// The display name of an event kind; a custom kind shows its tag inside
/// `Custom(...)`.
pub open spec fn spec_event_type_name(t: EventType) -> Seq<char> {
    match t {
        EventType::MousePress => "MousePress"@,
        EventType::MouseRelease => "MouseRelease"@,
        EventType::MouseMove => "MouseMove"@,
        EventType::Click => "Click"@,
        EventType::KeyPress => "KeyPress"@,
        EventType::KeyRelease => "KeyRelease"@,
        EventType::Char => "Char"@,
        EventType::Focus => "Focus"@,
        EventType::Blur => "Blur"@,
        EventType::Scroll => "Scroll"@,
        EventType::Custom(tag) => "Custom("@ + tag@ + ")"@,
    }
}

impl EventType {
    /// Returns the display name of this event kind.
    pub fn name(&self) -> (s: String)
        ensures
            s@ == spec_event_type_name(*self),
    {
        match self {
            EventType::MousePress => String::from_str("MousePress"),
            EventType::MouseRelease => String::from_str("MouseRelease"),
            EventType::MouseMove => String::from_str("MouseMove"),
            EventType::Click => String::from_str("Click"),
            EventType::KeyPress => String::from_str("KeyPress"),
            EventType::KeyRelease => String::from_str("KeyRelease"),
            EventType::Char => String::from_str("Char"),
            EventType::Focus => String::from_str("Focus"),
            EventType::Blur => String::from_str("Blur"),
            EventType::Scroll => String::from_str("Scroll"),
            EventType::Custom(tag) => {
                let mut s = String::from_str("Custom(");
                s.append(tag);
                s.append(")");
                s
            },
        }
    }
}

/// An input event: a kind, a position, and a payload matching the kind.
/// Events are immutable; the dispatcher reads them and never alters them.
#[derive(Debug, Clone)]
pub struct Event {
    /// The kind of event.
    pub event_type: EventType,
    /// The position of the event (for mouse events).
    pub position: Point,
    /// Additional event data.
    pub data: EventData,
}

/// The payload carried by an event.
#[derive(Debug, Clone)]
pub enum EventData {
    /// No additional data.
    Empty,
    /// Mouse button information.
    Mouse {
        /// The button involved.
        button: MouseButton,
    },
    /// Keyboard key information.
    Key {
        /// The key involved.
        key: Key,
        /// The modifier keys held down.
        modifiers: Modifiers,
    },
    /// Character input.
    Char {
        /// The character typed.
        ch: char,
    },
    /// Scroll delta, in pixels.
    Scroll {
        /// Horizontal scroll amount.
        delta_x: i32,
        /// Vertical scroll amount.
        delta_y: i32,
    },
    /// Custom data.
    Custom(String),
}

/// A mouse button.
#[derive(Debug, Clone, Copy, PartialEq, Eq, Hash, Structural)]
pub enum MouseButton {
    /// The primary button.
    Left,
    /// The secondary button.
    Right,
    /// The wheel button.
    Middle,
    /// Any further button, by number.
    Other(u8),
}

/// A keyboard key.
#[derive(Debug, Clone, Copy, PartialEq, Eq, Hash, Structural)]
pub enum Key {
    /// A printable character key.
    Char(char),
    /// Escape key.
    Escape,
    /// Enter/Return key.
    Enter,
    /// Tab key.
    Tab,
    /// Backspace key.
    Backspace,
    /// Delete key.
    Delete,
    /// Up arrow key.
    ArrowUp,
    /// Down arrow key.
    ArrowDown,
    /// Left arrow key.
    ArrowLeft,
    /// Right arrow key.
    ArrowRight,
    /// Function key F1.
    F1,
    /// Function key F2.
    F2,
    /// Function key F3.
    F3,
    /// Function key F4.
    F4,
    /// Function key F5.
    F5,
    /// Function key F6.
    F6,
    /// Function key F7.
    F7,
    /// Function key F8.
    F8,
    /// Function key F9.
    F9,
    /// Function key F10.
    F10,
    /// Function key F11.
    F11,
    /// Function key F12.
    F12,
    /// Any other key, by platform code.
    Other(u32),
}

/// The modifier keys held down during a key event.
#[derive(Debug, Clone, Copy, PartialEq, Eq, Hash, Structural)]
pub struct Modifiers {
    /// Shift key held.
    pub shift: bool,
    /// Control key held.
    pub ctrl: bool,
    /// Alt key held.
    pub alt: bool,
    /// Meta (command/super) key held.
    pub meta: bool,
}

impl Modifiers {
    /// Returns the modifier set with no key held.
    pub fn none() -> (m: Modifiers)
        ensures
            m == (Modifiers { shift: false, ctrl: false, alt: false, meta: false }),
    {
        Modifiers { shift: false, ctrl: false, alt: false, meta: false }
    }
}

impl Default for Modifiers {
    /// Returns the modifier set with no key held.
    fn default() -> (m: Modifiers)
        ensures
            m == (Modifiers { shift: false, ctrl: false, alt: false, meta: false }),
    {
        Modifiers { shift: false, ctrl: false, alt: false, meta: false }
    }
}

impl Event {
    /// Creates a new event.
    pub fn new(event_type: EventType, position: Point, data: EventData) -> (e: Event)
        ensures
            e == (Event { event_type, position, data }),
    {
        Event { event_type, position, data }
    }

    /// Creates a click event for the given button at the given position.
    pub fn click(position: Point, button: MouseButton) -> (e: Event)
        ensures
            e == (Event {
                event_type: EventType::Click,
                position,
                data: EventData::Mouse { button },
            }),
    {
        Event { event_type: EventType::Click, position, data: EventData::Mouse { button } }
    }

    /// Creates a mouse press event for the given button at the given position.
    pub fn mouse_press(position: Point, button: MouseButton) -> (e: Event)
        ensures
            e == (Event {
                event_type: EventType::MousePress,
                position,
                data: EventData::Mouse { button },
            }),
    {
        Event { event_type: EventType::MousePress, position, data: EventData::Mouse { button } }
    }

    /// Creates a key press event.
    pub fn key_press(key: Key, modifiers: Modifiers) -> (e: Event)
        ensures
            e == (Event {
                event_type: EventType::KeyPress,
                position: Point { x: 0, y: 0 },
                data: EventData::Key { key, modifiers },
            }),
    {
        Event {
            event_type: EventType::KeyPress,
            position: Point { x: 0, y: 0 },
            data: EventData::Key { key, modifiers },
        }
    }
}

} // verus!
