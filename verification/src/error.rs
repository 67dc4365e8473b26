//! The failures a finalization can collect, and their human-readable
//! report.
//!
//! Failures are accumulated across every field of an object before any of
//! them is reported, so one run surfaces everything that is wrong at once.

use vstd::prelude::*;
use vstd::string::StringExecFns;
use crate::text::dec_str;
use crate::text::usize_str;

verus! {

/// The shape of one failure, over character sequences; the view of
/// [`FromEnvError`].
pub enum ErrorView {
    MissingEnv { path: Seq<char>, env_var: Seq<char> },
    ParseError { path: Seq<char>, env_var: Seq<char>, value: Seq<char>, error: Seq<char> },
    MissingValue { path: Seq<char> },
}

/// One failure detected while resolving a field.
///
/// `path` is the dotted field-access path rooted at the outermost object
/// being resolved, such as `AppConfig.kafka.broker`.
#[derive(Debug)]
pub enum FromEnvError {
    /// No override, no environment value and no default.
    MissingEnv { path: String, env_var: String },
    /// A raw string — from the environment or from the default literal —
    /// failed conversion; `error` carries the converter's cause.
    ParseError { path: String, env_var: String, value: String, error: String },
    /// A field with no environment binding at all was never staged.
    MissingValue { path: String },
}

impl View for FromEnvError {
    type V = ErrorView;

    open spec fn view(&self) -> ErrorView {
        match self {
            FromEnvError::MissingEnv { path, env_var } => ErrorView::MissingEnv {
                path: path@,
                env_var: env_var@,
            },
            FromEnvError::ParseError { path, env_var, value, error } => ErrorView::ParseError {
                path: path@,
                env_var: env_var@,
                value: value@,
                error: error@,
            },
            FromEnvError::MissingValue { path } => ErrorView::MissingValue { path: path@ },
        }
    }
}

/// Whether a failure is of the missing kind — no value anywhere — as
/// opposed to a parse failure.
pub open spec fn is_missing_kind(e: ErrorView) -> bool {
    match e {
        ErrorView::MissingEnv { .. } => true,
        ErrorView::ParseError { .. } => false,
        ErrorView::MissingValue { .. } => true,
    }
}

/// Whether every failure in `s` is of the missing kind.
pub open spec fn all_missing(s: Seq<ErrorView>) -> bool {
    forall|i: int| 0 <= i < s.len() ==> is_missing_kind(#[trigger] s[i])
}

/// The one-line report of a failure.
pub open spec fn error_line(e: ErrorView) -> Seq<char> {
    match e {
        ErrorView::MissingEnv { path, env_var } => "`"@ + path
            + "`: Missing required environment variable '"@ + env_var + "'"@,
        ErrorView::ParseError { path, env_var, value, error } => "`"@ + path
            + "`: Failed to parse '"@ + env_var + "'=\""@ + value + "\": "@ + error,
        ErrorView::MissingValue { path } => "`"@ + path + "`: No value provided"@,
    }
}

/// The numbered report lines for the failures of `s` from position `i`
/// on, each indented and ended by a newline.
pub open spec fn numbered_lines(s: Seq<ErrorView>, i: int) -> Seq<char>
    decreases s.len() - i,
{
    if i < 0 || i >= s.len() {
        Seq::empty()
    } else {
        "  "@ + dec_str((i + 1) as nat) + ". "@ + error_line(s[i]) + "\n"@ + numbered_lines(
            s,
            i + 1,
        )
    }
}

/// The count line of the report: singular for one failure, plural for any
/// other count.
pub open spec fn count_line(n: nat) -> Seq<char> {
    if n == 1 {
        "1 configuration error:\n"@
    } else {
        dec_str(n) + " configuration errors:\n"@
    }
}

/// The full report of a failed finalization.
pub open spec fn report(s: Seq<ErrorView>) -> Seq<char> {
    count_line(s.len()) + numbered_lines(s, 0)
}

impl FromEnvError {
    /// The one-line report of this failure.
    pub fn message(&self) -> (r: String)
        ensures
            r@ == error_line(self@),
    {
        let mut r = String::new();
        match self {
            FromEnvError::MissingEnv { path, env_var } => {
                r.append("`");
                r.append(path.as_str());
                r.append("`: Missing required environment variable '");
                r.append(env_var.as_str());
                r.append("'");
            },
            FromEnvError::ParseError { path, env_var, value, error } => {
                r.append("`");
                r.append(path.as_str());
                r.append("`: Failed to parse '");
                r.append(env_var.as_str());
                r.append("'=\"");
                r.append(value.as_str());
                r.append("\": ");
                r.append(error.as_str());
            },
            FromEnvError::MissingValue { path } => {
                r.append("`");
                r.append(path.as_str());
                r.append("`: No value provided");
            },
        }
        proof {
            assert(r@ =~= error_line(self@));
        }
        r
    }
}

/// Every failure of one finalization, in field declaration order, then
/// depth first into nested children.
///
/// The collection is never partially consumed: a finalization either sees
/// it empty and succeeds, or returns it whole.
#[derive(Debug)]
pub struct FromEnvErrors(Vec<FromEnvError>);

impl View for FromEnvErrors {
    type V = Seq<ErrorView>;

    closed spec fn view(&self) -> Seq<ErrorView> {
        self.0@.map_values(|e: FromEnvError| e@)
    }
}

impl FromEnvErrors {
    /// An empty accumulator.
    pub fn new() -> (r: FromEnvErrors)
        ensures
            r@ == Seq::<ErrorView>::empty(),
    {
        let r = FromEnvErrors(Vec::new());
        proof {
            assert(r@ =~= Seq::<ErrorView>::empty());
        }
        r
    }

    /// Records one more failure, after everything collected so far.
    pub fn add(&mut self, error: FromEnvError)
        ensures
            final(self)@ == old(self)@.push(error@),
    {
        let ghost e = error@;
        self.0.push(error);
        proof {
            assert(self@ =~= old(self)@.push(e));
        }
    }

    /// Absorbs the failures of a child accumulator, in their order, after
    /// everything collected so far.
    pub fn extend(&mut self, other: FromEnvErrors)
        ensures
            final(self)@ == old(self)@ + other@,
    {
        let ghost o = other@;
        let mut other = other;
        self.0.append(&mut other.0);
        proof {
            assert(self@ =~= old(self)@ + o);
        }
    }

    /// Whether any failure was collected.
    pub fn has_errors(&self) -> (r: bool)
        ensures
            r == (self@.len() != 0),
    {
        self.0.len() != 0
    }

    /// Whether every collected failure is of the missing kind; this is the
    /// basis of the optional-nested collapse rule, and is not simply
    /// non-emptiness.
    pub fn only_missing_errors(&self) -> (r: bool)
        ensures
            r == all_missing(self@),
    {
        let n = self.0.len();
        let mut i: usize = 0;
        while i < n
            invariant
                i <= n,
                n == self@.len(),
                forall|j: int| 0 <= j < i ==> is_missing_kind(#[trigger] self@[j]),
            decreases n - i,
        {
            match &self.0[i] {
                FromEnvError::ParseError { .. } => {
                    proof {
                        assert(self@[i as int] == self.0@[i as int]@);
                        assert(!is_missing_kind(self@[i as int]));
                    }
                    return false;
                },
                _ => {},
            }
            i = i + 1;
        }
        true
    }

    /// The full report: a count line, then one numbered line per failure
    /// in the order they were collected.
    pub fn message(&self) -> (r: String)
        ensures
            r@ == report(self@),
    {
        let n = self.0.len();
        let mut r: String;
        if n == 1 {
            r = String::new();
            r.append("1 configuration error:\n");
        } else {
            r = usize_str(n);
            r.append(" configuration errors:\n");
        }
        proof {
            assert(r@ =~= count_line(self@.len()));
        }
        let mut i: usize = 0;
        while i < n
            invariant
                i <= n,
                n == self@.len(),
                r@ + numbered_lines(self@, i as int) == report(self@),
            decreases n - i,
        {
            let line = self.0[i].message();
            r.append("  ");
            let num = usize_str(i + 1);
            r.append(num.as_str());
            r.append(". ");
            r.append(line.as_str());
            r.append("\n");
            i = i + 1;
            proof {
                assert(r@ + numbered_lines(self@, i as int) =~= report(self@));
            }
        }
        proof {
            assert(r@ =~= report(self@));
        }
        r
    }
}

} // verus!
