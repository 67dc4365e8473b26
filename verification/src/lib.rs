//! A declarative, verified engine for resolving strongly typed configuration
//! objects from named variables, staged overrides and per-field defaults.
//!
//! A configuration object is described by a list of [`schema::FieldDescriptor`]s,
//! one per field.  Each field is resolved independently through a fixed
//! three-tier precedence — staged override, then environment variable, then
//! default literal — and every failure is collected in a
//! [`error::FromEnvErrors`] accumulator instead of aborting at the first one.
//! Nested configuration objects compose through [`resolve::resolve_nested`]
//! and [`resolve::resolve_nested_optional`], the latter collapsing an
//! optional sub-object to "absent" exactly when every one of its failures is
//! a missing-value failure.
//!
//! Reading the process environment is input/output and lives with the host
//! application; the engine works on an explicit [`env::Env`] snapshot, so the
//! whole resolution pipeline is pure and verified end to end.

pub mod config;
pub mod env;
pub mod error;
pub mod laws;
pub mod parser;
pub mod private;
pub mod resolve;
pub mod sample;
pub mod schema;
pub mod text;
