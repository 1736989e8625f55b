//! Material Design 3 widget logic: the decisions behind the navigation rail
//! and the text / number fields, stated and proved over plain values.
//!
//! The library decides which destinations a navigation rail shows, how each
//! is coloured and how a click moves the selection; and, for text and number
//! fields, the corners, frame, underline, text colour and margins, as well
//! as when a typed number is taken over. Colours are named by their Material
//! Design 3 role; turning a role into pixels is left to the renderer.

pub mod navigation_rail;
pub mod textfield;
pub mod theme;

pub use navigation_rail::{NavRailItem, RailItemStyle};
pub use textfield::{
    Corners, DraftAction, FrameStyle, Margins, NumberFieldOptions, TextFieldOptions,
    TextFieldVariant,
};
pub use theme::{ColorRole, Paint};
