//! The earlier interface a configuration type offers.

use vstd::prelude::*;
use crate::config::error::ConfigErrors;
use crate::env::Env;

verus! {

/// A configuration type resolvable from an environment snapshot, under
/// the earlier vocabulary.
pub trait Configurable {
    /// The builder that stages overrides for this type.
    type ConfigBuilder: ConfigBuilder;

    /// A fresh builder with every field unset and every nested child
    /// eagerly staged.
    fn configure() -> Self::ConfigBuilder;
}

/// The staging object of one configuration type: single use, consumed by
/// `finalize`.
pub trait ConfigBuilder: Sized {
    /// The configuration type this builder resolves.
    type Target;

    /// Consumes the builder, resolving every field independently against
    /// `env`: the fully constructed target, or every collected failure.
    fn finalize(self, env: &Env) -> Result<Self::Target, ConfigErrors>;
}

} // verus!
