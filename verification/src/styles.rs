//! Style values controlling a widget's appearance and layout bounds.
//!
//! All lengths are whole pixels, and opacity uses the same 0-255 scale as a
//! color's alpha channel (255 is fully opaque).

use vstd::prelude::*;
use crate::colors::Color;
use crate::events::Size;

verus! {

/// Padding around a widget's content, in pixels.
#[derive(Debug, Clone, Copy, PartialEq, Eq, Structural)]
pub struct Padding {
    /// Padding above the content.
    pub top: u32,
    /// Padding right of the content.
    pub right: u32,
    /// Padding below the content.
    pub bottom: u32,
    /// Padding left of the content.
    pub left: u32,
}

impl Padding {
    /// Creates the same padding on all four sides.
    pub fn uniform(value: u32) -> (p: Padding)
        ensures
            p == (Padding { top: value, right: value, bottom: value, left: value }),
    {
        Padding { top: value, right: value, bottom: value, left: value }
    }

    /// Creates padding with one horizontal and one vertical value.
    pub fn symmetric(horizontal: u32, vertical: u32) -> (p: Padding)
        ensures
            p == (Padding { top: vertical, right: horizontal, bottom: vertical, left: horizontal }),
    {
        Padding { top: vertical, right: horizontal, bottom: vertical, left: horizontal }
    }
}

impl Default for Padding {
    /// Returns zero padding.
    fn default() -> (p: Padding)
        ensures
            p == (Padding { top: 0, right: 0, bottom: 0, left: 0 }),
    {
        Padding { top: 0, right: 0, bottom: 0, left: 0 }
    }
}

/// Margin around a widget, in pixels.
#[derive(Debug, Clone, Copy, PartialEq, Eq, Structural)]
pub struct Margin {
    /// Margin above the widget.
    pub top: u32,
    /// Margin right of the widget.
    pub right: u32,
    /// Margin below the widget.
    pub bottom: u32,
    /// Margin left of the widget.
    pub left: u32,
}

impl Margin {
    /// Creates the same margin on all four sides.
    pub fn uniform(value: u32) -> (m: Margin)
        ensures
            m == (Margin { top: value, right: value, bottom: value, left: value }),
    {
        Margin { top: value, right: value, bottom: value, left: value }
    }

    /// Creates a margin with one horizontal and one vertical value.
    pub fn symmetric(horizontal: u32, vertical: u32) -> (m: Margin)
        ensures
            m == (Margin { top: vertical, right: horizontal, bottom: vertical, left: horizontal }),
    {
        Margin { top: vertical, right: horizontal, bottom: vertical, left: horizontal }
    }
}

impl Default for Margin {
    /// Returns zero margin.
    fn default() -> (m: Margin)
        ensures
            m == (Margin { top: 0, right: 0, bottom: 0, left: 0 }),
    {
        Margin { top: 0, right: 0, bottom: 0, left: 0 }
    }
}

/// A widget's style: colors, spacing, size bounds, grow factors, opacity and
/// flags. A pure value type with no identity of its own.
#[derive(Debug, Clone, Copy, PartialEq, Eq, Structural)]
pub struct Style {
    /// The background color, if any.
    pub background: Option<Color>,
    /// The foreground (text) color, if any.
    pub foreground: Option<Color>,
    /// The border color, if any.
    pub border_color: Option<Color>,
    /// The border width in pixels; 0 means no border.
    pub border_width: u32,
    /// The padding around the content.
    pub padding: Padding,
    /// The margin around the widget.
    pub margin: Margin,
    /// The minimum size.
    pub min_size: Size,
    /// The maximum size.
    pub max_size: Size,
    /// The preferred size, if any.
    pub preferred_size: Option<Size>,
    /// Horizontal grow factor; 0 means fixed.
    pub grow_x: u32,
    /// Vertical grow factor; 0 means fixed.
    pub grow_y: u32,
    /// Opacity on the 0-255 alpha scale; 255 is fully opaque.
    pub opacity: u8,
    /// Whether the widget is visible.
    pub visible: bool,
    /// Whether the widget is enabled.
    pub enabled: bool,
}

/// The default style: no colors, no border, no spacing, unbounded maximum
/// size, fixed (non-growing) in both axes, fully opaque, visible and enabled.
pub open spec fn spec_default_style() -> Style {
    Style {
        background: None,
        foreground: None,
        border_color: None,
        border_width: 0,
        padding: Padding { top: 0, right: 0, bottom: 0, left: 0 },
        margin: Margin { top: 0, right: 0, bottom: 0, left: 0 },
        min_size: Size { width: 0, height: 0 },
        max_size: Size { width: u32::MAX, height: u32::MAX },
        preferred_size: None,
        grow_x: 0,
        grow_y: 0,
        opacity: 255,
        visible: true,
        enabled: true,
    }
}

impl Default for Style {
    /// Returns the default style.
    fn default() -> (s: Style)
        ensures
            s == spec_default_style(),
    {
        Style {
            background: None,
            foreground: None,
            border_color: None,
            border_width: 0,
            padding: Padding { top: 0, right: 0, bottom: 0, left: 0 },
            margin: Margin { top: 0, right: 0, bottom: 0, left: 0 },
            min_size: Size { width: 0, height: 0 },
            max_size: Size { width: u32::MAX, height: u32::MAX },
            preferred_size: None,
            grow_x: 0,
            grow_y: 0,
            opacity: 255,
            visible: true,
            enabled: true,
        }
    }
}

} // verus!
