//! Colored terminal rendering of Pokemon records: a hex color parser, an
//! ANSI painter, and the type chips built on them.
pub mod text;
pub mod color;
pub mod error;
pub mod paint;
pub mod types;
pub mod pokemon;

pub use color::Color;
pub use error::PokedexError;
pub use paint::TermColor;
pub use pokemon::{Pokemon, TypingList};
pub use types::Type;
