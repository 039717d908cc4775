//! The concrete widget kinds: a plain container frame and a clickable button.
//!
//! The widget set is closed, so widgets are a tagged enum dispatched by
//! `match` rather than trait objects.

use vstd::prelude::*;
use vstd::string::StrSliceExecFns;
use vstd::string::StringExecFns;
use crate::colors::Color;
use crate::errors::Error;
use crate::events::{Event, EventData, MouseButton, Point, Rect, Size};
use crate::styles::{Padding, Style};
use crate::widget::{
    clamp_u32_exec, spec_clamp_size, DrawCmd, EventResponse, Renderer, WidgetBase,
};

verus! {

/// The visual kind of a button, each mapping to a fixed style preset.
#[derive(Debug, Clone, Copy, PartialEq, Eq, Structural)]
pub enum ButtonType {
    /// A filled button with a contrasting background color.
    Filled,
    /// A filled button with a lighter background color.
    Tonal,
    /// An elevated button with a shadow.
    Elevated,
    /// An outlined button.
    Outlined,
    /// A text-only button with no border or background.
    Text,
}

/// A button widget that can be clicked.
#[derive(Debug)]
pub struct Button {
    /// The widget state.
    pub base: WidgetBase,
    /// The label text.
    pub text: String,
    /// The icon name, if any.
    pub icon: Option<String>,
    /// The visual kind, deciding the style preset.
    pub button_type: ButtonType,
}

/// A generic container widget with no behavior of its own: every phase keeps
/// its default meaning and it consumes no events.
#[derive(Debug)]
pub struct Frame {
    /// The widget state.
    pub base: WidgetBase,
}

/// A widget: one of the closed set of concrete kinds.
#[derive(Debug)]
pub enum Widget {
    /// A generic container.
    Frame(Frame),
    /// A clickable button.
    Button(Button),
}

/// The style preset of a button kind, applied over a prior style: the preset
/// overwrites colors, border and padding and keeps every other field (size
/// bounds, grow factors, flags) as it was.
pub open spec fn spec_button_preset(t: ButtonType, s: Style) -> Style {
    match t {
        ButtonType::Filled => Style {
            background: Some(Color { r: 66, g: 133, b: 244, a: 255 }),
            foreground: Some(Color { r: 255, g: 255, b: 255, a: 255 }),
            padding: Padding { top: 12, right: 12, bottom: 12, left: 12 },
            ..s
        },
        ButtonType::Tonal => Style {
            background: Some(Color { r: 232, g: 240, b: 254, a: 255 }),
            foreground: Some(Color { r: 25, g: 103, b: 210, a: 255 }),
            padding: Padding { top: 12, right: 12, bottom: 12, left: 12 },
            ..s
        },
        ButtonType::Elevated => Style {
            background: Some(Color { r: 255, g: 255, b: 255, a: 255 }),
            foreground: Some(Color { r: 25, g: 103, b: 210, a: 255 }),
            padding: Padding { top: 12, right: 12, bottom: 12, left: 12 },
            ..s
        },
        ButtonType::Outlined => Style {
            background: None,
            border_color: Some(Color { r: 66, g: 133, b: 244, a: 255 }),
            border_width: 1,
            foreground: Some(Color { r: 66, g: 133, b: 244, a: 255 }),
            padding: Padding { top: 12, right: 12, bottom: 12, left: 12 },
            ..s
        },
        ButtonType::Text => Style {
            background: None,
            foreground: Some(Color { r: 66, g: 133, b: 244, a: 255 }),
            padding: Padding { top: 8, right: 8, bottom: 8, left: 8 },
            ..s
        },
    }
}

/// A button's natural size: a placeholder text metric of 8 pixels per
/// character plus 24 pixels of slack, 40 pixels tall, saturating at the
/// `u32` range for absurdly long labels.
pub open spec fn spec_button_natural_size(text: Seq<char>) -> Size {
    Size {
        width: if 8 * text.len() + 24 > u32::MAX { u32::MAX } else { (8 * text.len() + 24) as u32 },
        height: 40,
    }
}

/// `v` forced into the `i32` range.
pub open spec fn sat_i32(v: int) -> int {
    if v < i32::MIN as int {
        i32::MIN as int
    } else if v > i32::MAX as int {
        i32::MAX as int
    } else {
        v
    }
}

/// Label lengths beyond this many characters no longer move the text anchor
/// leftwards; it keeps the anchor arithmetic inside fixed bounds.
pub const TEXT_SHIFT_CAP: usize = 268435456;

/// Where a button's label is anchored: horizontally centered in the bounding
/// box by the same placeholder metric the natural size uses, vertically a
/// little below the center line. Coordinates saturate at the `i32` range.
pub open spec fn spec_text_anchor(bbox: Rect, text: Seq<char>) -> Point {
    let n = if text.len() > TEXT_SHIFT_CAP as nat { TEXT_SHIFT_CAP as nat } else { text.len() };
    Point {
        x: sat_i32(bbox.x + bbox.width as int / 2 - 4 * n) as i32,
        y: sat_i32(bbox.y + bbox.height as int / 2 + 4) as i32,
    }
}

/// The drawing operations a button issues when rendered: its background (when
/// it has a background color), then its border (when the border has positive
/// width and a color), then its centered label (when it has a foreground
/// color).
pub open spec fn spec_button_draw(b: Button) -> Seq<DrawCmd> {
    let bg: Seq<DrawCmd> = match b.base.style.background {
        Some(c) => seq![DrawCmd::FillRect(b.base.bbox, c)],
        None => Seq::empty(),
    };
    let border: Seq<DrawCmd> = match b.base.style.border_color {
        Some(c) => if b.base.style.border_width > 0 {
            seq![DrawCmd::FillRect(b.base.bbox, c)]
        } else {
            Seq::empty()
        },
        None => Seq::empty(),
    };
    let label: Seq<DrawCmd> = match b.base.style.foreground {
        Some(c) => seq![DrawCmd::Text(b.text, spec_text_anchor(b.base.bbox, b.text@), c)],
        None => Seq::empty(),
    };
    bg + border + label
}

/// Whether a button consumes the given event: only a click whose payload is
/// the left mouse button.
pub open spec fn spec_button_consumes(e: Event) -> bool {
    &&& e.event_type is Click
    &&& e.data matches EventData::Mouse { button: MouseButton::Left }
}

impl Button {
    /// Creates a filled button with the given label, no icon, and the node
    /// name `"button"`.
    pub fn new(text: &str) -> (b: Button)
        ensures
            b.base.node_base.name@ == "button"@,
            b.base.node_base.parent is None,
            b.base.node_base.children@ == Seq::<usize>::empty(),
            b.base.style == crate::styles::spec_default_style(),
            b.base.actual_size == (Size { width: 0, height: 0 }),
            b.base.alloc_size == (Size { width: 0, height: 0 }),
            b.base.position == (Point { x: 0, y: 0 }),
            b.base.bbox == (Rect { x: 0, y: 0, width: 0, height: 0 }),
            b.base.tooltip is None,
            b.base.on_click is None,
            b.text@ == text@,
            b.icon is None,
            b.button_type is Filled,
    {
        Button {
            base: WidgetBase::new("button"),
            text: String::from_str(text),
            icon: None,
            button_type: ButtonType::Filled,
        }
    }

    /// Sets the button kind.
    pub fn set_type(&mut self, button_type: ButtonType)
        ensures
            *final(self) == (Button { button_type, ..*old(self) }),
    {
        self.button_type = button_type;
    }

    /// Sets the label text.
    pub fn set_text(&mut self, text: &str)
        ensures
            final(self).text@ == text@,
            final(self).base == old(self).base,
            final(self).icon == old(self).icon,
            final(self).button_type == old(self).button_type,
    {
        self.text = String::from_str(text);
    }

    /// Returns the label text.
    pub fn text(&self) -> (t: &str)
        ensures
            t@ == self.text@,
    {
        self.text.as_str()
    }

    /// Sets or clears the icon name.
    pub fn set_icon(&mut self, icon: Option<String>)
        ensures
            *final(self) == (Button { icon, ..*old(self) }),
    {
        self.icon = icon;
    }

    /// Returns the icon name, if any.
    pub fn icon(&self) -> (i: Option<&String>)
        ensures
            match i {
                Some(s) => self.icon matches Some(v) && s@ == v@,
                None => self.icon is None,
            },
    {
        self.icon.as_ref()
    }

    /// Styling phase: replaces the style with the preset of the button's
    /// kind, keeping the fields the preset does not touch.
    pub fn style(&mut self)
        ensures
            *final(self) == (Button {
                base: WidgetBase {
                    style: spec_button_preset(old(self).button_type, old(self).base.style),
                    ..old(self).base
                },
                ..*old(self)
            }),
    {
        let mut style = self.base.style.clone();
        match self.button_type {
            ButtonType::Filled => {
                style.background = Some(Color::rgba(66, 133, 244, 255));
                style.foreground = Some(Color::rgba(255, 255, 255, 255));
                style.padding = Padding::uniform(12);
            },
            ButtonType::Tonal => {
                style.background = Some(Color::rgba(232, 240, 254, 255));
                style.foreground = Some(Color::rgba(25, 103, 210, 255));
                style.padding = Padding::uniform(12);
            },
            ButtonType::Elevated => {
                style.background = Some(Color::rgba(255, 255, 255, 255));
                style.foreground = Some(Color::rgba(25, 103, 210, 255));
                style.padding = Padding::uniform(12);
            },
            ButtonType::Outlined => {
                style.background = None;
                style.border_color = Some(Color::rgba(66, 133, 244, 255));
                style.border_width = 1;
                style.foreground = Some(Color::rgba(66, 133, 244, 255));
                style.padding = Padding::uniform(12);
            },
            ButtonType::Text => {
                style.background = None;
                style.foreground = Some(Color::rgba(66, 133, 244, 255));
                style.padding = Padding::uniform(8);
            },
        }
        self.base.set_style(style);
    }

    /// Measurement phase: sets `actual_size` to the natural size of the
    /// label, without looking at available space.
    pub fn size_up(&mut self)
        ensures
            *final(self) == (Button {
                base: WidgetBase {
                    actual_size: spec_button_natural_size(old(self).text@),
                    ..old(self).base
                },
                ..*old(self)
            }),
    {
        let len = self.text.as_str().unicode_len();
        let width = if len as u64 > ((u32::MAX - 24) / 8) as u64 {
            u32::MAX
        } else {
            (len as u64 * 8 + 24) as u32
        };
        self.base.set_actual_size(Size { width, height: 40 });
    }

    /// The drawing operations this button issues when rendered, in order:
    /// background, border, label.
    pub fn draw_commands(&self) -> (cmds: Vec<DrawCmd>)
        ensures
            cmds@ == spec_button_draw(*self),
    {
        let mut cmds: Vec<DrawCmd> = Vec::new();
        if let Some(bg) = self.base.style.background {
            cmds.push(DrawCmd::FillRect(self.base.bbox, bg));
        }
        if self.base.style.border_width > 0 {
            if let Some(bc) = self.base.style.border_color {
                cmds.push(DrawCmd::FillRect(self.base.bbox, bc));
            }
        }
        if let Some(fg) = self.base.style.foreground {
            let anchor = self.text_anchor();
            cmds.push(DrawCmd::Text(self.text.clone(), anchor, fg));
        }
        proof {
            assert(cmds@ =~= spec_button_draw(*self));
        }
        cmds
    }

    /// Computes where the label is anchored within the current bounding box.
    fn text_anchor(&self) -> (p: Point)
        ensures
            p == spec_text_anchor(self.base.bbox, self.text@),
    {
        let len = self.text.as_str().unicode_len();
        let n = if len > TEXT_SHIFT_CAP { TEXT_SHIFT_CAP } else { len };
        let x64 = self.base.bbox.x as i64 + (self.base.bbox.width / 2) as i64 - 4 * (n as i64);
        let y64 = self.base.bbox.y as i64 + (self.base.bbox.height / 2) as i64 + 4;
        Point { x: sat_i32_exec(x64), y: sat_i32_exec(y64) }
    }

    /// Renders the button by issuing its drawing operations against the
    /// renderer, stopping at the first failure and propagating it. Rendering
    /// reads the widget and never mutates layout state. Success is the
    /// renderer's to decide, so it is promised only where no drawing call is
    /// made: a button that draws nothing always succeeds.
    pub fn render<R: Renderer>(&self, renderer: &mut R) -> (r: Result<(), Error>)
        ensures
            spec_button_draw(*self).len() == 0 ==> r is Ok,
    {
        let cmds = self.draw_commands();
        replay_draw_commands(&cmds, renderer)
    }

    /// Event phase: consumes a click whose payload is the left mouse button,
    /// firing the registered command if any; every other event is left
    /// unconsumed so it can propagate.
    pub fn handle_event(&self, event: &Event) -> (r: EventResponse)
        ensures
            r.consumed == spec_button_consumes(*event),
            r.command == (if spec_button_consumes(*event) { self.base.on_click } else { None::<u64> }),
    {
        match event.event_type {
            crate::events::EventType::Click => {
                match &event.data {
                    EventData::Mouse { button: MouseButton::Left } => {
                        EventResponse { consumed: true, command: self.base.call_on_click() }
                    },
                    _ => EventResponse { consumed: false, command: None },
                }
            },
            _ => EventResponse { consumed: false, command: None },
        }
    }
}

/// Forces a 64-bit value into the `i32` range.
pub(crate) fn sat_i32_exec(v: i64) -> (r: i32)
    ensures
        r as int == sat_i32(v as int),
{
    if v < i32::MIN as i64 {
        i32::MIN
    } else if v > i32::MAX as i64 {
        i32::MAX
    } else {
        v as i32
    }
}

/// Replays recorded drawing operations against a renderer in order, stopping
/// at the first failure and propagating it. Whether a call succeeds is the
/// renderer's to decide, so success can be promised only where no call is
/// made: an empty command list always succeeds.
pub fn replay_draw_commands<R: Renderer>(cmds: &Vec<DrawCmd>, renderer: &mut R) -> (r: Result<
    (),
    Error,
>)
    ensures
        cmds@.len() == 0 ==> r is Ok,
{
    let mut i: usize = 0;
    while i < cmds.len()
        decreases cmds.len() - i,
    {
        let outcome = match &cmds[i] {
            DrawCmd::FillRect(rect, color) => renderer.draw_rect(*rect, *color),
            DrawCmd::Text(text, position, color) => {
                renderer.draw_text(text.as_str(), *position, *color)
            },
            DrawCmd::Clear(color) => renderer.clear(*color),
        };
        match outcome {
            Ok(()) => {},
            Err(e) => {
                return Err(e);
            },
        }
        i = i + 1;
    }
    Ok(())
}

impl Frame {
    /// Creates a container frame with the given node name.
    pub fn new(name: &str) -> (f: Frame)
        ensures
            f.base.node_base.name@ == name@,
            f.base.node_base.parent is None,
            f.base.node_base.children@ == Seq::<usize>::empty(),
            f.base.style == crate::styles::spec_default_style(),
            f.base.actual_size == (Size { width: 0, height: 0 }),
            f.base.alloc_size == (Size { width: 0, height: 0 }),
            f.base.position == (Point { x: 0, y: 0 }),
            f.base.bbox == (Rect { x: 0, y: 0, width: 0, height: 0 }),
            f.base.tooltip is None,
            f.base.on_click is None,
    {
        Frame { base: WidgetBase::new(name) }
    }
}

/// The widget state of a widget, whatever its kind.
pub open spec fn base_of(w: Widget) -> WidgetBase {
    match w {
        Widget::Frame(f) => f.base,
        Widget::Button(b) => b.base,
    }
}

/// The same widget with its state replaced.
pub open spec fn with_base(w: Widget, base: WidgetBase) -> Widget {
    match w {
        Widget::Frame(f) => Widget::Frame(Frame { base }),
        Widget::Button(b) => Widget::Button(Button { base, ..b }),
    }
}

/// Holds when `b` is `a` with possibly different tree links (parent and
/// children): same kind, same kind-specific data, same name, same state
/// otherwise.
pub open spec fn same_but_links(a: Widget, b: Widget) -> bool {
    &&& with_base(a, base_of(b)) == b
    &&& base_of(b) == (WidgetBase { node_base: base_of(b).node_base, ..base_of(a) })
    &&& base_of(b).node_base.name == base_of(a).node_base.name
}

/// A widget after the styling phase: a button takes its kind's preset, a
/// frame keeps its style.
pub open spec fn spec_widget_styled(w: Widget) -> Widget {
    match w {
        Widget::Frame(f) => w,
        Widget::Button(b) => with_base(
            w,
            WidgetBase { style: spec_button_preset(b.button_type, b.base.style), ..b.base },
        ),
    }
}

/// A widget after the measurement phase: a button measures its label, a
/// frame keeps its actual size.
pub open spec fn spec_widget_measured(w: Widget) -> Widget {
    match w {
        Widget::Frame(f) => w,
        Widget::Button(b) => with_base(
            w,
            WidgetBase { actual_size: spec_button_natural_size(b.text@), ..b.base },
        ),
    }
}

/// A widget after the finalize phase: its actual size clamped into the
/// style's size bounds.
pub open spec fn spec_widget_finalized(w: Widget) -> Widget {
    with_base(
        w,
        WidgetBase {
            actual_size: spec_clamp_size(
                base_of(w).actual_size,
                base_of(w).style.min_size,
                base_of(w).style.max_size,
            ),
            ..base_of(w)
        },
    )
}

/// Whether a widget consumes the given event.
pub open spec fn spec_widget_consumes(w: Widget, e: Event) -> bool {
    match w {
        Widget::Frame(f) => false,
        Widget::Button(b) => spec_button_consumes(e),
    }
}

/// The command a widget fires on the given event: its click command when it
/// consumes the event and one is registered, nothing otherwise.
pub open spec fn spec_widget_command(w: Widget, e: Event) -> Option<u64> {
    if spec_widget_consumes(w, e) {
        base_of(w).on_click
    } else {
        None
    }
}

/// The drawing operations a widget issues when rendered: a frame draws
/// nothing, a button draws background, border and label.
pub open spec fn spec_widget_draw(w: Widget) -> Seq<DrawCmd> {
    match w {
        Widget::Frame(f) => Seq::empty(),
        Widget::Button(b) => spec_button_draw(b),
    }
}

impl Widget {
    /// Returns the widget state, whatever the widget's kind.
    pub fn widget_base(&self) -> (b: &WidgetBase)
        ensures
            *b == base_of(*self),
    {
        match self {
            Widget::Frame(f) => &f.base,
            Widget::Button(b) => &b.base,
        }
    }

    /// Returns whether this widget is a container that passes its allocation
    /// on to its children during the allocation phase.
    pub fn is_container(&self) -> (r: bool)
        ensures
            r == (*self is Frame),
    {
        match self {
            Widget::Frame(f) => true,
            Widget::Button(b) => false,
        }
    }

    /// Sets the space granted to this widget by its parent.
    pub fn set_alloc_size(&mut self, size: Size)
        ensures
            *final(self) == with_base(
                *old(self),
                (WidgetBase { alloc_size: size, ..base_of(*old(self)) }),
            ),
    {
        match self {
            Widget::Frame(f) => f.base.set_alloc_size(size),
            Widget::Button(b) => b.base.set_alloc_size(size),
        }
    }

    /// Sets this widget's offset within its parent.
    pub fn set_position(&mut self, position: Point)
        ensures
            *final(self) == with_base(
                *old(self),
                (WidgetBase { position, ..base_of(*old(self)) }),
            ),
    {
        match self {
            Widget::Frame(f) => f.base.set_position(position),
            Widget::Button(b) => b.base.set_position(position),
        }
    }

    /// Sets this widget's absolute bounding box.
    pub fn set_bbox(&mut self, bbox: Rect)
        ensures
            *final(self) == with_base(
                *old(self),
                (WidgetBase { bbox, ..base_of(*old(self)) }),
            ),
    {
        match self {
            Widget::Frame(f) => f.base.set_bbox(bbox),
            Widget::Button(b) => b.base.set_bbox(bbox),
        }
    }

    /// Registers the command fired when this widget is clicked.
    pub fn set_on_click(&mut self, command: u64)
        ensures
            *final(self) == with_base(
                *old(self),
                (WidgetBase { on_click: Some(command), ..base_of(*old(self)) }),
            ),
    {
        match self {
            Widget::Frame(f) => f.base.set_on_click(command),
            Widget::Button(b) => b.base.set_on_click(command),
        }
    }

    /// Rewrites the tree links when the arena attaches this widget under a
    /// parent: the parent link points at the given index and the child list
    /// starts out empty.
    pub(crate) fn attach_links(&mut self, parent: Option<usize>)
        ensures
            same_but_links(*old(self), *final(self)),
            base_of(*final(self)).node_base.parent == parent,
            base_of(*final(self)).node_base.children@ == Seq::<usize>::empty(),
    {
        match self {
            Widget::Frame(f) => {
                f.base.node_base.parent = parent;
                f.base.node_base.children = Vec::new();
            },
            Widget::Button(b) => {
                b.base.node_base.parent = parent;
                b.base.node_base.children = Vec::new();
            },
        }
    }

    /// Appends an arena index to this widget's child list; used by the arena
    /// when a child is attached.
    pub(crate) fn push_child_link(&mut self, child: usize)
        ensures
            same_but_links(*old(self), *final(self)),
            base_of(*final(self)).node_base.parent == base_of(*old(self)).node_base.parent,
            base_of(*final(self)).node_base.children@
                == base_of(*old(self)).node_base.children@.push(child),
    {
        match self {
            Widget::Frame(f) => f.base.node_base.children.push(child),
            Widget::Button(b) => b.base.node_base.children.push(child),
        }
    }

    /// Styling phase: recomputes the style from the widget's own
    /// configuration.
    pub fn style(&mut self)
        ensures
            *final(self) == spec_widget_styled(*old(self)),
    {
        match self {
            Widget::Frame(f) => {},
            Widget::Button(b) => b.style(),
        }
    }

    /// Measurement phase: computes `actual_size` bottom-up from content,
    /// without knowledge of available space.
    pub fn size_up(&mut self)
        ensures
            *final(self) == spec_widget_measured(*old(self)),
    {
        match self {
            Widget::Frame(f) => {},
            Widget::Button(b) => b.size_up(),
        }
    }

    /// Finalize phase: clamps `actual_size` into the style's size bounds
    /// once allocation has stabilized.
    pub fn size_final(&mut self)
        ensures
            *final(self) == spec_widget_finalized(*old(self)),
    {
        let min_size = self.widget_base().style.min_size;
        let max_size = self.widget_base().style.max_size;
        let actual = self.widget_base().actual_size;
        let clamped = Size {
            width: clamp_u32_exec(actual.width, min_size.width, max_size.width),
            height: clamp_u32_exec(actual.height, min_size.height, max_size.height),
        };
        match self {
            Widget::Frame(f) => f.base.set_actual_size(clamped),
            Widget::Button(b) => b.base.set_actual_size(clamped),
        }
    }

    /// Positioning phase: computes the offset within the parent from the
    /// widget's own alignment rules. Both widget kinds keep the position
    /// they were given, so this phase changes nothing.
    pub fn position(&mut self)
        ensures
            *final(self) == *old(self),
    {
    }

    /// Event phase: offers the event to the widget and reports whether it
    /// was consumed and which command it fired. Reading an event never
    /// mutates the widget.
    pub fn handle_event(&self, event: &Event) -> (r: EventResponse)
        ensures
            r.consumed == spec_widget_consumes(*self, *event),
            r.command == spec_widget_command(*self, *event),
    {
        match self {
            Widget::Frame(f) => EventResponse { consumed: false, command: None },
            Widget::Button(b) => b.handle_event(event),
        }
    }

    /// The drawing operations this widget issues when rendered.
    pub fn draw_commands(&self) -> (cmds: Vec<DrawCmd>)
        ensures
            cmds@ == spec_widget_draw(*self),
    {
        match self {
            Widget::Frame(f) => Vec::new(),
            Widget::Button(b) => b.draw_commands(),
        }
    }

    /// Renders the widget by replaying its drawing operations against the
    /// renderer, propagating the first failure. A widget that draws nothing —
    /// a frame always, a button without colors — succeeds without consulting
    /// the renderer.
    pub fn render<R: Renderer>(&self, renderer: &mut R) -> (r: Result<(), Error>)
        ensures
            spec_widget_draw(*self).len() == 0 ==> r is Ok,
    {
        let cmds = self.draw_commands();
        replay_draw_commands(&cmds, renderer)
    }
}

} // verus!
