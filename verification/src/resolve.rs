//! The field resolver and the nested resolver: the heart of the engine.
//!
//! Each field is resolved independently, through the fixed three-tier
//! precedence — staged override, then environment variable, then default
//! literal — and every failure goes into a shared
//! [`FromEnvErrors`] accumulator, so one finalization reports everything
//! wrong at once.  A failure in one field never prevents resolution of
//! any other; the only short circuit is inside a single field's own
//! precedence chain.
//!
//! The resolvers consume a converter's outcome — the raw text it saw
//! beside the `Result` it produced — and are thereby polymorphic over any
//! conversion capability, the built-ins and custom functions alike;
//! [`resolve_flat`] composes the standard-format conversion in for types
//! with a canonical textual format.

use vstd::prelude::*;
use crate::env::Env;
use crate::env::lookup;
use crate::error::ErrorView;
use crate::error::FromEnvError;
use crate::error::FromEnvErrors;
use crate::error::all_missing;
use crate::parser::FromText;
use crate::parser::parse_from_env;
use crate::schema::FieldDescriptor;
use crate::schema::FieldKind;
use vstd::string::StringExecFns;

verus! {

/// What one field's resolution came to: a value, absence (for an optional
/// field whose sources were all silent), or failure, with the failures
/// themselves recorded in the shared accumulator.
#[derive(Debug, PartialEq)]
pub enum FieldOutcome<T> {
    Resolved(T),
    Absent,
    Failed,
}

impl<T: View> View for FieldOutcome<T> {
    type V = FieldOutcome<T::V>;

    open spec fn view(&self) -> FieldOutcome<T::V> {
        match self {
            FieldOutcome::Resolved(v) => FieldOutcome::Resolved(v@),
            FieldOutcome::Absent => FieldOutcome::Absent,
            FieldOutcome::Failed => FieldOutcome::Failed,
        }
    }
}

/// A converter's outcome on one raw text, where any text was found: the
/// raw text itself beside the converted value or the failure's cause.
pub type Reading<T> = Option<(Seq<char>, Result<T, Seq<char>>)>;

/// The view of an executable reading, as `parse_from_env` or a custom
/// converter hands it over.
pub open spec fn reading_view<T>(r: Option<(String, Result<T, String>)>) -> Reading<T> {
    match r {
        None => None,
        Some((raw, Ok(v))) => Some((raw@, Ok(v))),
        Some((raw, Err(m))) => Some((raw@, Err(m@))),
    }
}

/// The dotted field-access path of `field` under `prefix`.
pub open spec fn spec_dotted(prefix: Seq<char>, field: Seq<char>) -> Seq<char> {
    prefix + "."@ + field
}

/// Joins a path prefix to a field name.  This is also how a nested
/// field's child prefix is built before the child resolves, so a child's
/// failures are born carrying their full path from the outermost object.
pub fn dotted(prefix: &str, field: &str) -> (r: String)
    ensures
        r@ == spec_dotted(prefix@, field@),
{
    let mut r = prefix.to_owned();
    r.append(".");
    r.append(field);
    proof {
        assert(r@ =~= spec_dotted(prefix@, field@));
    }
    r
}

/// The three-tier precedence for one flat field.  A staged override wins
/// outright, bypassing conversion.  Otherwise a present environment
/// reading decides: success resolves the field, failure records a parse
/// error carrying the environment's raw text — a default never masks a
/// malformed environment value.  Only with the environment absent does a
/// declared default decide, its own conversion failure recorded with the
/// literal as the raw text.  With every source silent, an optional field
/// resolves to absence and a required one records a missing-variable
/// failure.
pub open spec fn spec_resolve_flat<T>(
    staged: Option<T>,
    reading: Reading<T>,
    dflt: Reading<T>,
    optional: bool,
    path: Seq<char>,
    env_var: Seq<char>,
) -> (FieldOutcome<T>, Seq<ErrorView>) {
    match staged {
        Some(v) => (FieldOutcome::Resolved(v), Seq::<ErrorView>::empty()),
        None => match reading {
            Some((raw, Ok(v))) => (FieldOutcome::Resolved(v), Seq::<ErrorView>::empty()),
            Some((raw, Err(cause))) => (
                FieldOutcome::Failed,
                seq![ErrorView::ParseError { path, env_var, value: raw, error: cause }],
            ),
            None => match dflt {
                Some((lit, Ok(v))) => (FieldOutcome::Resolved(v), Seq::<ErrorView>::empty()),
                Some((lit, Err(cause))) => (
                    FieldOutcome::Failed,
                    seq![ErrorView::ParseError { path, env_var, value: lit, error: cause }],
                ),
                None => if optional {
                    (FieldOutcome::Absent, Seq::<ErrorView>::empty())
                } else {
                    (FieldOutcome::Failed, seq![ErrorView::MissingEnv { path, env_var }])
                },
            },
        },
    }
}

/// The default reading of a descriptor, given the converter's outcome on
/// the default literal, which must be present exactly where a default is
/// declared.
pub open spec fn default_reading_view<T>(
    lit: Option<Seq<char>>,
    conv: Option<Result<T, String>>,
) -> Reading<T> {
    match (lit, conv) {
        (Some(l), Some(Ok(v))) => Some((l, Ok(v))),
        (Some(l), Some(Err(m))) => Some((l, Err(m@))),
        _ => None,
    }
}

/// Resolves one flat field from the staged override, the environment
/// reading and the converter's outcome on the default literal, recording
/// any failure after everything already accumulated.
///
/// `reading` is what [`parse_from_env`] — or a custom converter standing
/// in its place — produced for the field's variable; `default_reading` is
/// the same converter's outcome on the declared default literal, handed
/// in exactly where the descriptor declares one.
pub fn resolve_flat_reading<T>(
    desc: &FieldDescriptor,
    staged: Option<T>,
    reading: Option<(String, Result<T, String>)>,
    default_reading: Option<Result<T, String>>,
    prefix: &str,
    errors: &mut FromEnvErrors,
) -> (r: FieldOutcome<T>)
    requires
        desc.wf(),
        desc.kind matches FieldKind::Flat { .. },
        (default_reading is Some) <==> (desc.spec_default() is Some),
    ensures
        ({
            let (res, errs) = spec_resolve_flat(
                staged,
                reading_view(reading),
                default_reading_view(desc.spec_default(), default_reading),
                desc.spec_optional(),
                spec_dotted(prefix@, desc.name@),
                desc.spec_env_name(),
            );
            r == res && final(errors)@ == old(errors)@ + errs
        }),
{
    let ghost pre = errors@;
    match staged {
        Some(v) => {
            proof {
                assert(errors@ =~= pre + Seq::<ErrorView>::empty());
            }
            FieldOutcome::Resolved(v)
        },
        None => match reading {
            Some((raw, Ok(v))) => {
                proof {
                    assert(errors@ =~= pre + Seq::<ErrorView>::empty());
                }
                FieldOutcome::Resolved(v)
            },
            Some((raw, Err(cause))) => {
                let path = dotted(prefix, field_name(desc));
                let env_var = desc.env_name();
                let e = FromEnvError::ParseError { path, env_var, value: raw, error: cause };
                let ghost ev = e@;
                errors.add(e);
                proof {
                    assert(errors@ =~= pre + seq![ev]);
                }
                FieldOutcome::Failed
            },
            None => match default_reading {
                Some(Ok(v)) => {
                    proof {
                        assert(errors@ =~= pre + Seq::<ErrorView>::empty());
                    }
                    FieldOutcome::Resolved(v)
                },
                Some(Err(cause)) => {
                    let lit: String = match &desc.kind {
                        FieldKind::Flat { default: Some(l), .. } => l.clone(),
                        _ => {
                            proof {
                                assert(false);
                            }
                            String::new()
                        },
                    };
                    let path = dotted(prefix, field_name(desc));
                    let env_var = desc.env_name();
                    let e = FromEnvError::ParseError { path, env_var, value: lit, error: cause };
                    let ghost ev = e@;
                    errors.add(e);
                    proof {
                        assert(errors@ =~= pre + seq![ev]);
                    }
                    FieldOutcome::Failed
                },
                None => {
                    let optional = match &desc.kind {
                        FieldKind::Flat { optional, .. } => *optional,
                        _ => {
                            proof {
                                assert(false);
                            }
                            false
                        },
                    };
                    if optional {
                        proof {
                            assert(errors@ =~= pre + Seq::<ErrorView>::empty());
                        }
                        FieldOutcome::Absent
                    } else {
                        let path = dotted(prefix, field_name(desc));
                        let env_var = desc.env_name();
                        let e = FromEnvError::MissingEnv { path, env_var };
                        let ghost ev = e@;
                        errors.add(e);
                        proof {
                            assert(errors@ =~= pre + seq![ev]);
                        }
                        FieldOutcome::Failed
                    }
                },
            },
        },
    }
}

/// The field's name as a borrowed string.
fn field_name(desc: &FieldDescriptor) -> (r: &str)
    ensures
        r@ == desc.name@,
{
    desc.name.as_str()
}

/// The reading the standard-format conversion yields for variable `var`
/// of snapshot `env`.
pub open spec fn spec_env_reading<T: FromText>(
    env: Seq<(Seq<char>, Seq<char>)>,
    var: Seq<char>,
) -> Reading<T::V> {
    match lookup(env, var) {
        None => None,
        Some(raw) => Some((raw, T::spec_from_text(raw))),
    }
}

/// The reading the standard-format conversion yields for a declared
/// default literal.
pub open spec fn spec_default_reading<T: FromText>(lit: Option<Seq<char>>) -> Reading<T::V> {
    match lit {
        None => None,
        Some(l) => Some((l, T::spec_from_text(l))),
    }
}

/// The view of a staged override.
pub open spec fn option_view<T: View>(o: Option<T>) -> Option<T::V> {
    match o {
        Some(t) => Some(t@),
        None => None,
    }
}

/// Resolves one flat field whose converter is the standard-format
/// conversion, reading the environment snapshot itself: the composition
/// of [`parse_from_env`] with [`resolve_flat_reading`].
pub fn resolve_flat<T: FromText>(
    desc: &FieldDescriptor,
    staged: Option<T>,
    env: &Env,
    prefix: &str,
    errors: &mut FromEnvErrors,
) -> (r: FieldOutcome<T>)
    requires
        desc.wf(),
        desc.kind matches FieldKind::Flat { .. },
    ensures
        ({
            let (res, errs) = spec_resolve_flat(
                option_view(staged),
                spec_env_reading::<T>(env@, desc.spec_env_name()),
                spec_default_reading::<T>(desc.spec_default()),
                desc.spec_optional(),
                spec_dotted(prefix@, desc.name@),
                desc.spec_env_name(),
            );
            r@ == res && final(errors)@ == old(errors)@ + errs
        }),
{
    let var = desc.env_name();
    let reading = parse_from_env::<T>(env, var.as_str());
    let default_reading: Option<Result<T, String>> = match &desc.kind {
        FieldKind::Flat { default: Some(l), .. } => Some(T::from_text(l.as_str())),
        _ => None,
    };
    resolve_flat_reading(desc, staged, reading, default_reading, prefix, errors)
}

/// The resolution of a field with no environment binding at all: the
/// staged value where one was set; otherwise absence for an optional
/// field, and a missing-value failure for a required one.
pub open spec fn spec_resolve_passthrough<T>(staged: Option<T>, optional: bool, path: Seq<char>)
    -> (FieldOutcome<T>, Seq<ErrorView>) {
    match staged {
        Some(v) => (FieldOutcome::Resolved(v), Seq::<ErrorView>::empty()),
        None => if optional {
            (FieldOutcome::Absent, Seq::<ErrorView>::empty())
        } else {
            (FieldOutcome::Failed, seq![ErrorView::MissingValue { path }])
        },
    }
}

/// Resolves a field with no environment binding at all.
pub fn resolve_passthrough<T>(
    desc: &FieldDescriptor,
    staged: Option<T>,
    prefix: &str,
    errors: &mut FromEnvErrors,
) -> (r: FieldOutcome<T>)
    requires
        desc.kind matches FieldKind::Passthrough { .. },
    ensures
        ({
            let (res, errs) = spec_resolve_passthrough(
                staged,
                desc.spec_optional(),
                spec_dotted(prefix@, desc.name@),
            );
            r == res && final(errors)@ == old(errors)@ + errs
        }),
{
    let ghost pre = errors@;
    match staged {
        Some(v) => {
            proof {
                assert(errors@ =~= pre + Seq::<ErrorView>::empty());
            }
            FieldOutcome::Resolved(v)
        },
        None => {
            let optional = match &desc.kind {
                FieldKind::Passthrough { optional } => *optional,
                _ => {
                    proof {
                        assert(false);
                    }
                    false
                },
            };
            if optional {
                proof {
                    assert(errors@ =~= pre + Seq::<ErrorView>::empty());
                }
                FieldOutcome::Absent
            } else {
                let path = dotted(prefix, field_name(desc));
                let e = FromEnvError::MissingValue { path };
                let ghost ev = e@;
                errors.add(e);
                proof {
                    assert(errors@ =~= pre + seq![ev]);
                }
                FieldOutcome::Failed
            }
        },
    }
}

/// The view of a child finalization's result.
pub open spec fn child_view<C>(r: Result<C, FromEnvErrors>) -> Result<C, Seq<ErrorView>> {
    match r {
        Ok(c) => Ok(c),
        Err(es) => Err(es@),
    }
}

/// Folding a required child object's finalization into the parent: the
/// child's failures, already carrying their full paths, are absorbed
/// whole.
pub open spec fn spec_resolve_nested<C>(child: Result<C, Seq<ErrorView>>) -> (
    FieldOutcome<C>,
    Seq<ErrorView>,
) {
    match child {
        Ok(c) => (FieldOutcome::Resolved(c), Seq::<ErrorView>::empty()),
        Err(es) => (FieldOutcome::Failed, es),
    }
}

/// Folds a required child object's finalization into the parent.
pub fn resolve_nested<C>(child: Result<C, FromEnvErrors>, errors: &mut FromEnvErrors) -> (r:
    FieldOutcome<C>)
    ensures
        ({
            let (res, errs) = spec_resolve_nested(child_view(child));
            r == res && final(errors)@ == old(errors)@ + errs
        }),
{
    let ghost pre = errors@;
    match child {
        Ok(c) => {
            proof {
                assert(errors@ =~= pre + Seq::<ErrorView>::empty());
            }
            FieldOutcome::Resolved(c)
        },
        Err(es) => {
            errors.extend(es);
            FieldOutcome::Failed
        },
    }
}

/// Folding an optional child object's finalization into the parent: a
/// child whose every failure is of the missing kind collapses to absence
/// and its failures are discarded — an absent optional sub-configuration
/// nobody tried to populate is not an error.  One parse failure among
/// them keeps the whole child failed and surfaces them all.
pub open spec fn spec_resolve_nested_optional<C>(child: Result<C, Seq<ErrorView>>) -> (
    FieldOutcome<C>,
    Seq<ErrorView>,
) {
    match child {
        Ok(c) => (FieldOutcome::Resolved(c), Seq::<ErrorView>::empty()),
        Err(es) => if all_missing(es) {
            (FieldOutcome::Absent, Seq::<ErrorView>::empty())
        } else {
            (FieldOutcome::Failed, es)
        },
    }
}

/// Folds an optional child object's finalization into the parent,
/// applying the collapse rule.
pub fn resolve_nested_optional<C>(child: Result<C, FromEnvErrors>, errors: &mut FromEnvErrors)
    -> (r: FieldOutcome<C>)
    ensures
        ({
            let (res, errs) = spec_resolve_nested_optional(child_view(child));
            r == res && final(errors)@ == old(errors)@ + errs
        }),
{
    let ghost pre = errors@;
    match child {
        Ok(c) => {
            proof {
                assert(errors@ =~= pre + Seq::<ErrorView>::empty());
            }
            FieldOutcome::Resolved(c)
        },
        Err(es) => {
            if es.only_missing_errors() {
                proof {
                    assert(errors@ =~= pre + Seq::<ErrorView>::empty());
                }
                FieldOutcome::Absent
            } else {
                errors.extend(es);
                FieldOutcome::Failed
            }
        },
    }
}

} // verus!
