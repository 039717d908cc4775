//! A retained-mode 2D widget toolkit core: a widget tree, a six-phase layout
//! pipeline, and an event dispatcher, with machine-checked contracts.
//!
//! The tree is an arena of widgets addressed by stable indices; parent and
//! child relationships are index links, so the usual weak-pointer hazards of
//! back-referencing trees cannot arise. Layout and dispatch are plain
//! functions over that arena whose results are pinned down exactly by their
//! contracts.

pub mod button;
pub mod colors;
pub mod dispatch;
pub mod errors;
pub mod events;
pub mod layout;
pub mod scene;
pub mod stack;
pub mod styles;
pub mod tree;
pub mod widget;

pub use button::{Button, ButtonType, Frame, Widget};
pub use colors::Color;
pub use errors::Error;
pub use layout::Tree;
pub use scene::Scene;
pub use stack::Stack;
pub use widget::{Renderer, WidgetBase};
