//! Widget logic for canvas-rendered text widgets: where text is drawn inside
//! its box, which palette is shown, and how an editable field reacts to
//! clicks, keys and clipboard events.

pub mod button;
pub mod color;
pub mod edit;
pub mod geometry;
pub mod keys;
pub mod location;
pub mod render;
pub mod simple;

pub use button::ButtonTextRenderController;
pub use color::{Color, TextColors};
pub use edit::{ClipboardData, EditTextRenderController};
pub use geometry::Region;
pub use keys::KeyAction;
pub use location::{
    button_location, edit_location, label_location, left_button_location, AlignedTextLocation,
    TextAlignment,
};
pub use render::{determine_render_opacity, Cursor, PaletteOpacity, RenderOpacity, RenderPlan};
pub use simple::SimpleTextRenderController;
