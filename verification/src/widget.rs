//! The per-widget state record, the renderer boundary, and the draw commands
//! widgets emit when rendered.

use vstd::prelude::*;
use crate::colors::Color;
use crate::errors::Error;
use crate::events::{Point, Rect, Size};
use crate::styles::{Style, spec_default_style};
use crate::tree::NodeBase;

verus! {

/// One drawing operation issued against a renderer.
#[derive(Debug, Clone, PartialEq)]
pub enum DrawCmd {
    /// Fill the given absolute rectangle with a solid color.
    FillRect(Rect, Color),
    /// Draw text anchored at the given absolute position.
    Text(String, Point, Color),
    /// Fill the entire render target with a color.
    Clear(Color),
}

/// The renderer boundary. The toolkit issues drawing calls through this
/// trait; a concrete implementation (a rasterizer, a test recorder) is
/// supplied from outside. Any call may fail; failures are surfaced to the
/// caller and never swallowed. A renderer that ignores `draw_text` is valid.
pub trait Renderer {
    /// Fills the given absolute rectangle with a solid color.
    fn draw_rect(&mut self, rect: Rect, color: Color) -> Result<(), Error>;

    /// Draws text anchored at the given absolute position.
    fn draw_text(&mut self, text: &str, position: Point, color: Color) -> Result<(), Error>;

    /// Fills the entire render target with a color.
    fn clear(&mut self, color: Color) -> Result<(), Error>;
}

/// A widget's response to an offered event: whether the widget consumed the
/// event, and the command it fired in response, if any. Click handlers are
/// command values drained by the owning application rather than stored
/// closures, so handling an event never mutates the tree.
#[derive(Debug, Clone, Copy, PartialEq, Eq, Structural)]
pub struct EventResponse {
    /// Whether the event was consumed.
    pub consumed: bool,
    /// The command fired in response, if any.
    pub command: Option<u64>,
}

/// `v` forced into `[lo, hi]`: values below `lo` become `lo`, values above
/// `hi` become `hi` (with `lo` winning when `lo > hi`).
pub open spec fn clamp_u32(v: u32, lo: u32, hi: u32) -> u32 {
    if (if v < hi { v } else { hi }) < lo {
        lo
    } else {
        if v < hi { v } else { hi }
    }
}

/// A size clamped component-wise into the bounds `[lo, hi]`.
pub open spec fn spec_clamp_size(s: Size, lo: Size, hi: Size) -> Size {
    Size {
        width: clamp_u32(s.width, lo.width, hi.width),
        height: clamp_u32(s.height, lo.height, hi.height),
    }
}

/// Clamps `v` into `[lo, hi]`, `lo` winning when the bounds cross.
pub fn clamp_u32_exec(v: u32, lo: u32, hi: u32) -> (r: u32)
    ensures
        r == clamp_u32(v, lo, hi),
{
    let m = if v < hi { v } else { hi };
    if m < lo { lo } else { m }
}

/// The state every widget carries: identity and tree links, style, the three
/// stages of computed geometry, and interaction data.
#[derive(Debug)]
pub struct WidgetBase {
    /// Tree identity and links.
    pub node_base: NodeBase,
    /// The widget's current style.
    pub style: Style,
    /// The content's natural size, measured bottom-up.
    pub actual_size: Size,
    /// The space granted by the parent, top-down.
    pub alloc_size: Size,
    /// The offset within the parent.
    pub position: Point,
    /// The absolute rectangle in scene coordinates, set by the final phase.
    pub bbox: Rect,
    /// The tooltip text, if any.
    pub tooltip: Option<String>,
    /// The command fired when the widget is clicked, if one is registered.
    pub on_click: Option<u64>,
}

impl WidgetBase {
    /// Creates a widget base with the given node name and everything else at
    /// its default: default style, zero geometry, no tooltip, no click
    /// command.
    pub fn new(name: &str) -> (w: WidgetBase)
        ensures
            w.node_base.name@ == name@,
            w.node_base.parent is None,
            w.node_base.children@ == Seq::<usize>::empty(),
            w.style == spec_default_style(),
            w.actual_size == (Size { width: 0, height: 0 }),
            w.alloc_size == (Size { width: 0, height: 0 }),
            w.position == (Point { x: 0, y: 0 }),
            w.bbox == (Rect { x: 0, y: 0, width: 0, height: 0 }),
            w.tooltip is None,
            w.on_click is None,
    {
        WidgetBase {
            node_base: NodeBase::new(name),
            style: Style::default(),
            actual_size: Size { width: 0, height: 0 },
            alloc_size: Size { width: 0, height: 0 },
            position: Point { x: 0, y: 0 },
            bbox: Rect { x: 0, y: 0, width: 0, height: 0 },
            tooltip: None,
            on_click: None,
        }
    }

    /// Returns the style.
    pub fn style(&self) -> (s: &Style)
        ensures
            *s == self.style,
    {
        &self.style
    }

    /// Sets the style.
    pub fn set_style(&mut self, style: Style)
        ensures
            *final(self) == (WidgetBase { style, ..*old(self) }),
    {
        self.style = style;
    }

    /// Returns the actual (content-measured) size.
    pub fn actual_size(&self) -> (s: Size)
        ensures
            s == self.actual_size,
    {
        self.actual_size
    }

    /// Sets the actual size.
    pub fn set_actual_size(&mut self, size: Size)
        ensures
            *final(self) == (WidgetBase { actual_size: size, ..*old(self) }),
    {
        self.actual_size = size;
    }

    /// Returns the allocated size.
    pub fn alloc_size(&self) -> (s: Size)
        ensures
            s == self.alloc_size,
    {
        self.alloc_size
    }

    /// Sets the allocated size.
    pub fn set_alloc_size(&mut self, size: Size)
        ensures
            *final(self) == (WidgetBase { alloc_size: size, ..*old(self) }),
    {
        self.alloc_size = size;
    }

    /// Returns the position (the offset within the parent).
    pub fn position(&self) -> (p: Point)
        ensures
            p == self.position,
    {
        self.position
    }

    /// Sets the position.
    pub fn set_position(&mut self, position: Point)
        ensures
            *final(self) == (WidgetBase { position, ..*old(self) }),
    {
        self.position = position;
    }

    /// Returns the absolute bounding box.
    pub fn bbox(&self) -> (r: Rect)
        ensures
            r == self.bbox,
    {
        self.bbox
    }

    /// Sets the bounding box.
    pub fn set_bbox(&mut self, bbox: Rect)
        ensures
            *final(self) == (WidgetBase { bbox, ..*old(self) }),
    {
        self.bbox = bbox;
    }

    /// Returns the tooltip text, if any.
    pub fn tooltip(&self) -> (t: Option<&String>)
        ensures
            match t {
                Some(s) => self.tooltip matches Some(v) && s@ == v@,
                None => self.tooltip is None,
            },
    {
        self.tooltip.as_ref()
    }

    /// Sets or clears the tooltip text.
    pub fn set_tooltip(&mut self, tooltip: Option<String>)
        ensures
            *final(self) == (WidgetBase { tooltip, ..*old(self) }),
    {
        self.tooltip = tooltip;
    }

    /// Registers the command fired when the widget is clicked. The owning
    /// application maps command values back to actions when it drains the
    /// scene's command queue.
    pub fn set_on_click(&mut self, command: u64)
        ensures
            *final(self) == (WidgetBase { on_click: Some(command), ..*old(self) }),
    {
        self.on_click = Some(command);
    }

    /// Returns the click command to fire, if one is registered.
    pub fn call_on_click(&self) -> (c: Option<u64>)
        ensures
            c == self.on_click,
    {
        self.on_click
    }

    /// Returns the node base.
    pub fn node_base(&self) -> (n: &NodeBase)
        ensures
            *n == self.node_base,
    {
        &self.node_base
    }
}

} // verus!
