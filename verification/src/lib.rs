//! ANSI-styled terminal text.
//!
//! A [`Style`] is a foreground color, a background color and a set of
//! attributes, built by chaining: `Style::new().red().bold()`. A [`Styled`]
//! value pairs content with a style, a [`Hyperlink`] adds a URI. Rendering
//! turns a value into the exact characters a terminal expects: the escape
//! sequence of the style, the content, and the sequence that ends the region.
//! A region nested in another one ends by restoring the style of the region
//! around it, so that the text after it keeps the outer style.
//!
//! Nothing here touches a terminal, the environment or shared state. What a
//! render call needs it is handed in a [`RenderContext`]; what the enable
//! switch needs to resolve itself it is handed in an [`Environment`].
//!
//! The contracts are stated over sequences of characters. The functions of
//! [`display`] define the wire format; [`uniqueness`] proves that the
//! sequence of a style tells which style it is.

pub mod attributes;
pub mod color;
pub mod color_choice;
pub mod context;
pub mod display;
pub mod enable;
pub mod hyperlink;
pub mod macros;
pub mod style;
pub mod styled;
pub mod uniqueness;

pub use attributes::Attributes;
pub use color::{AnsiColor, Color};
pub use color_choice::{color_enabled, env_supports_color, set_color_choice, ColorChoice};
pub use context::{RenderContext, ResetPolicy};
pub use display::{
    begin_region, end_region, render, write_attributes, write_bg_color, write_decimal,
    write_fg_color, write_link_introducer, write_string_terminator, write_style, write_styled,
    Render,
};
pub use enable::{
    env_supports_styling, set_style_mode, style_enabled, EnableState, Environment, StyleMode,
};
pub use hyperlink::Hyperlink;
pub use macros::FormatArgsCallback;
pub use style::Style;
pub use styled::Styled;
