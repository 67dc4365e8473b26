//! The engine's laws, stated once and proved over the resolution models
//! that the resolvers' own contracts are written in.

use vstd::prelude::*;
use crate::error::ErrorView;
use crate::error::all_missing;
use crate::resolve::FieldOutcome;
use crate::resolve::Reading;
use crate::resolve::spec_resolve_flat;
use crate::resolve::spec_resolve_nested_optional;
use crate::schema::FieldDescriptor;
use crate::schema::FieldKind;
use crate::text::upper_seq;

verus! {

/// Override precedence: a staged override resolves the field to exactly
/// that value and records no failure, whatever the environment reading —
/// malformed or missing — and whatever the default would have done; the
/// other sources are never consulted.
pub proof fn lemma_override_precedence<T>(
    v: T,
    reading: Reading<T>,
    dflt: Reading<T>,
    optional: bool,
    path: Seq<char>,
    env_var: Seq<char>,
)
    ensures
        spec_resolve_flat(Some(v), reading, dflt, optional, path, env_var) == (
            FieldOutcome::Resolved(v),
            Seq::<ErrorView>::empty(),
        ),
{
}

/// A default never masks a malformed environment value: where the
/// environment reading failed to convert, the field fails with one parse
/// error carrying the environment's raw text — never the default literal
/// — whatever default is declared.
pub proof fn lemma_default_never_masks_env_failure<T>(
    raw: Seq<char>,
    cause: Seq<char>,
    dflt: Reading<T>,
    optional: bool,
    path: Seq<char>,
    env_var: Seq<char>,
)
    ensures
        spec_resolve_flat(None::<T>, Some((raw, Err(cause))), dflt, optional, path, env_var) == (
            FieldOutcome::<T>::Failed,
            seq![(ErrorView::ParseError { path, env_var, value: raw, error: cause })],
        ),
{
}

/// The default applies exactly when the environment is absent: with no
/// override and no environment reading, the declared default's own
/// conversion decides the field, and its failure is recorded with the
/// literal as the raw text.
pub proof fn lemma_default_decides_when_env_absent<T>(
    lit: Seq<char>,
    conv: Result<T, Seq<char>>,
    optional: bool,
    path: Seq<char>,
    env_var: Seq<char>,
)
    ensures
        spec_resolve_flat(None::<T>, None, Some((lit, conv)), optional, path, env_var) == (match conv {
            Ok(v) => (FieldOutcome::Resolved(v), Seq::<ErrorView>::empty()),
            Err(cause) => (
                FieldOutcome::<T>::Failed,
                seq![(ErrorView::ParseError { path, env_var, value: lit, error: cause })],
            ),
        }),
{
}

/// Implicit environment name: a flat field that names no variable binds
/// to its own name uppercased.
pub proof fn lemma_implicit_env_name(d: FieldDescriptor)
    requires
        d.kind matches FieldKind::Flat { env_var: None, .. },
    ensures
        d.spec_env_name() == upper_seq(d.name@),
{
}

/// Failures accumulate in declaration order: three required flat fields,
/// none staged, none bound in the environment and none defaulted, record
/// exactly their three missing-variable failures, in order, and each
/// field fails without disturbing the others.
pub proof fn lemma_missing_failures_accumulate_in_order<T>(
    p1: Seq<char>,
    v1: Seq<char>,
    p2: Seq<char>,
    v2: Seq<char>,
    p3: Seq<char>,
    v3: Seq<char>,
)
    ensures
        spec_resolve_flat(None::<T>, None, None, false, p1, v1).1 + spec_resolve_flat(
            None::<T>,
            None,
            None,
            false,
            p2,
            v2,
        ).1 + spec_resolve_flat(None::<T>, None, None, false, p3, v3).1 == seq![
            (ErrorView::MissingEnv { path: p1, env_var: v1 }),
            (ErrorView::MissingEnv { path: p2, env_var: v2 }),
            (ErrorView::MissingEnv { path: p3, env_var: v3 }),
        ],
        spec_resolve_flat(None::<T>, None, None, false, p1, v1).0 == FieldOutcome::<T>::Failed,
{
    assert(seq![(ErrorView::MissingEnv { path: p1, env_var: v1 })] + seq![
        (ErrorView::MissingEnv { path: p2, env_var: v2 }),
    ] + seq![(ErrorView::MissingEnv { path: p3, env_var: v3 })] =~= seq![
        (ErrorView::MissingEnv { path: p1, env_var: v1 }),
        (ErrorView::MissingEnv { path: p2, env_var: v2 }),
        (ErrorView::MissingEnv { path: p3, env_var: v3 }),
    ]);
}

/// Optional-nested collapse: a child whose every failure is of the
/// missing kind resolves the field to absence, and the child's failures
/// are discarded rather than propagated.
pub proof fn lemma_optional_nested_collapse<C>(es: Seq<ErrorView>)
    requires
        all_missing(es),
    ensures
        spec_resolve_nested_optional::<C>(Err(es)) == (
            FieldOutcome::<C>::Absent,
            Seq::<ErrorView>::empty(),
        ),
{
}

/// Optional-nested non-collapse: one parse failure among a child's
/// failures keeps the field failed, and every one of the child's
/// failures — their paths intact — surfaces in the parent.
pub proof fn lemma_optional_nested_surfaces_parse_failure<C>(es: Seq<ErrorView>, i: int)
    requires
        0 <= i < es.len(),
        es[i] matches ErrorView::ParseError { .. },
    ensures
        spec_resolve_nested_optional::<C>(Err(es)) == (FieldOutcome::<C>::Failed, es),
{
    assert(!all_missing(es)) by {
        assert(!crate::error::is_missing_kind(es[i]));
    }
}

} // verus!
