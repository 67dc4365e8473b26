//! The engine's earlier interface, kept for callers that still speak it.
//!
//! Its failure family carries no field paths: a missing variable is
//! reported by its variable name alone and an unstaged field by its field
//! name.  The resolution engine itself lives at the crate root and works
//! in the path-qualified family, which subsumes this one by treating the
//! path as added decoration.

pub mod converter;
pub mod error;
pub mod parser;
pub mod private;
