//! Presentation settings and practice text for a terminal typing trainer.
//!
//! The crate resolves a colour theme and a cursor shape from an optional,
//! partially filled configuration document, decides which configuration file
//! is loaded, and assembles the practice text as three lines of words that
//! each stay within a fixed character budget.

pub mod config;
pub mod text;
pub mod theme;
pub mod word_provider;
