//! Styled terminal text: display attributes, and a builder that renders text
//! and attributes as ANSI escape sequences, or as plain text where color is
//! unwanted.
pub mod ansi;
pub mod builder;
pub mod utils;

pub use ansi::Ansi;
pub use builder::{color_sprint, Builder, Entity};
pub use utils::color_disabled;
