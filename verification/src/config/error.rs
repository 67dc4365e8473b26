//! The earlier failure family: no field paths, only variable and field
//! names.

use vstd::prelude::*;
use vstd::string::StringExecFns;
use crate::text::dec_str;
use crate::text::usize_str;

verus! {

/// The shape of one failure, over character sequences; the view of
/// [`ConfigError`].
pub enum ConfigErrorView {
    MissingEnv { env_var: Seq<char> },
    ParseError { env_var: Seq<char>, value: Seq<char>, error: Seq<char> },
    MissingValue { field: Seq<char> },
}

/// One failure detected while resolving a field, reported without a
/// field path.
#[derive(Debug)]
pub enum ConfigError {
    /// No override, no environment value and no default.
    MissingEnv { env_var: String },
    /// A raw string failed conversion; `error` carries the converter's
    /// cause.
    ParseError { env_var: String, value: String, error: String },
    /// A field with no environment binding at all was never staged.
    MissingValue { field: String },
}

impl View for ConfigError {
    type V = ConfigErrorView;

    open spec fn view(&self) -> ConfigErrorView {
        match self {
            ConfigError::MissingEnv { env_var } => ConfigErrorView::MissingEnv {
                env_var: env_var@,
            },
            ConfigError::ParseError { env_var, value, error } => ConfigErrorView::ParseError {
                env_var: env_var@,
                value: value@,
                error: error@,
            },
            ConfigError::MissingValue { field } => ConfigErrorView::MissingValue { field: field@ },
        }
    }
}

/// Whether a failure is of the missing kind — no value anywhere — as
/// opposed to a parse failure.
pub open spec fn is_missing_kind(e: ConfigErrorView) -> bool {
    match e {
        ConfigErrorView::MissingEnv { .. } => true,
        ConfigErrorView::ParseError { .. } => false,
        ConfigErrorView::MissingValue { .. } => true,
    }
}

/// Whether every failure in `s` is of the missing kind.
pub open spec fn all_missing(s: Seq<ConfigErrorView>) -> bool {
    forall|i: int| 0 <= i < s.len() ==> is_missing_kind(#[trigger] s[i])
}

/// The one-line report of a failure.
pub open spec fn error_line(e: ConfigErrorView) -> Seq<char> {
    match e {
        ConfigErrorView::MissingEnv { env_var } => "Missing required environment variable '"@
            + env_var + "'"@,
        ConfigErrorView::ParseError { env_var, value, error } => "Failed to parse '"@ + value
            + "' from environment variable '"@ + env_var + "': "@ + error,
        ConfigErrorView::MissingValue { field } => "No value provided for '"@ + field + "'"@,
    }
}

/// The numbered report lines for the failures of `s` from position `i`
/// on.
pub open spec fn numbered_lines(s: Seq<ConfigErrorView>, i: int) -> Seq<char>
    decreases s.len() - i,
{
    if i < 0 || i >= s.len() {
        Seq::empty()
    } else {
        "  "@ + dec_str((i + 1) as nat) + ". "@ + error_line(s[i]) + "\n"@ + numbered_lines(
            s,
            i + 1,
        )
    }
}

/// The full report of a failed finalization: this family counts with the
/// plural form whatever the count.
pub open spec fn report(s: Seq<ConfigErrorView>) -> Seq<char> {
    dec_str(s.len()) + " configuration errors:\n"@ + numbered_lines(s, 0)
}

impl ConfigError {
    /// The one-line report of this failure.
    pub fn message(&self) -> (r: String)
        ensures
            r@ == error_line(self@),
    {
        let mut r = String::new();
        match self {
            ConfigError::MissingEnv { env_var } => {
                r.append("Missing required environment variable '");
                r.append(env_var.as_str());
                r.append("'");
            },
            ConfigError::ParseError { env_var, value, error } => {
                r.append("Failed to parse '");
                r.append(value.as_str());
                r.append("' from environment variable '");
                r.append(env_var.as_str());
                r.append("': ");
                r.append(error.as_str());
            },
            ConfigError::MissingValue { field } => {
                r.append("No value provided for '");
                r.append(field.as_str());
                r.append("'");
            },
        }
        proof {
            assert(r@ =~= error_line(self@));
        }
        r
    }
}

/// Every failure of one finalization, in field declaration order.
#[derive(Debug)]
pub struct ConfigErrors(Vec<ConfigError>);

impl View for ConfigErrors {
    type V = Seq<ConfigErrorView>;

    closed spec fn view(&self) -> Seq<ConfigErrorView> {
        self.0@.map_values(|e: ConfigError| e@)
    }
}

impl ConfigErrors {
    /// An empty accumulator.
    pub fn new() -> (r: ConfigErrors)
        ensures
            r@ == Seq::<ConfigErrorView>::empty(),
    {
        let r = ConfigErrors(Vec::new());
        proof {
            assert(r@ =~= Seq::<ConfigErrorView>::empty());
        }
        r
    }

    /// Records one more failure, after everything collected so far.
    pub fn add(&mut self, error: ConfigError)
        ensures
            final(self)@ == old(self)@.push(error@),
    {
        let ghost e = error@;
        self.0.push(error);
        proof {
            assert(self@ =~= old(self)@.push(e));
        }
    }

    /// Absorbs the failures of a child accumulator, in their order, after
    /// everything collected so far.
    pub fn extend(&mut self, other: ConfigErrors)
        ensures
            final(self)@ == old(self)@ + other@,
    {
        let ghost o = other@;
        let mut other = other;
        self.0.append(&mut other.0);
        proof {
            assert(self@ =~= old(self)@ + o);
        }
    }

    /// Whether any failure was collected.
    pub fn has_errors(&self) -> (r: bool)
        ensures
            r == (self@.len() != 0),
    {
        self.0.len() != 0
    }

    /// Whether every collected failure is of the missing kind.
    pub fn only_missing_errors(&self) -> (r: bool)
        ensures
            r == all_missing(self@),
    {
        let n = self.0.len();
        let mut i: usize = 0;
        while i < n
            invariant
                i <= n,
                n == self@.len(),
                forall|j: int| 0 <= j < i ==> is_missing_kind(#[trigger] self@[j]),
            decreases n - i,
        {
            match &self.0[i] {
                ConfigError::ParseError { .. } => {
                    proof {
                        assert(self@[i as int] == self.0@[i as int]@);
                        assert(!is_missing_kind(self@[i as int]));
                    }
                    return false;
                },
                _ => {},
            }
            i = i + 1;
        }
        true
    }

    /// The full report: a count line, then one numbered line per failure
    /// in the order they were collected.
    pub fn message(&self) -> (r: String)
        ensures
            r@ == report(self@),
    {
        let n = self.0.len();
        let mut r: String = usize_str(n);
        r.append(" configuration errors:\n");
        proof {
            assert(r@ =~= dec_str(self@.len()) + " configuration errors:\n"@);
        }
        let mut i: usize = 0;
        while i < n
            invariant
                i <= n,
                n == self@.len(),
                r@ + numbered_lines(self@, i as int) == report(self@),
            decreases n - i,
        {
            let line = self.0[i].message();
            r.append("  ");
            let num = usize_str(i + 1);
            r.append(num.as_str());
            r.append(". ");
            r.append(line.as_str());
            r.append("\n");
            i = i + 1;
            proof {
                assert(r@ + numbered_lines(self@, i as int) =~= report(self@));
            }
        }
        proof {
            assert(r@ =~= report(self@));
        }
        r
    }
}

} // verus!
