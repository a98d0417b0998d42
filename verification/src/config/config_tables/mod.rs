//! What the sections of the configuration resolve to.

pub mod cursor_style;
