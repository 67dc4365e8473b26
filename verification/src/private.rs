//! The interface a configuration type offers once its per-field glue is
//! written against the resolver primitives.
//!
//! The traits make nested composition possible without naming a child's
//! builder type: a parent's glue reaches it as
//! `<Child as FromEnv>::FromEnvBuilder`.

use vstd::prelude::*;
use crate::env::Env;
use crate::error::FromEnvErrors;

verus! {

/// A configuration type resolvable from an environment snapshot.
pub trait FromEnv {
    /// The builder that stages overrides for this type.
    type FromEnvBuilder: FromEnvBuilder;

    /// A fresh builder with every field unset and every nested child
    /// eagerly staged, so children can be addressed before the parent is
    /// finalized.
    fn from_env() -> Self::FromEnvBuilder;

    /// Appends one `NAME=default` line per flat field, nested fields
    /// expanded recursively in place.
    fn requirements(requirements: &mut String);
}

/// The staging object of one configuration type.
///
/// A builder is single use: `finalize` consumes it, and there is no way
/// back to staging.
pub trait FromEnvBuilder: Sized {
    /// The configuration type this builder resolves.
    type Target;

    /// Consumes the builder, resolving every field independently against
    /// `env`: the fully constructed target, or every collected failure.
    fn finalize(self, env: &Env) -> Result<Self::Target, FromEnvErrors>;
}

} // verus!
