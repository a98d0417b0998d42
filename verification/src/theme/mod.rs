//! The colour theme.

pub mod colors;
