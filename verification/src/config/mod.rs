//! The configuration document and what is resolved from it.

pub mod config_tables;
pub mod document;
pub mod source;
