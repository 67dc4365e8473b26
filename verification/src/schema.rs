//! Field descriptors: the explicit, per-field declaration of how a
//! configuration object resolves.
//!
//! One [`FieldDescriptor`] stands for each declared field, carrying its
//! name, its kind and — for a flat field — the environment binding, the
//! optional default literal and whether the target type is optional.  A
//! descriptor list drives the engine in place of compile-time code
//! generation, and also documents the object through [`requirements`].

use vstd::prelude::*;
use vstd::string::StringExecFns;
use crate::text::to_upper_ascii;
use crate::text::upper_seq;

verus! {

/// What kind of field a descriptor declares; only a `Flat` field carries
/// the environment-binding attributes, so the kinds are mutually
/// exclusive by construction.
#[derive(Debug)]
pub enum FieldKind {
    /// Bound to an environment variable: the one named by `env_var`, or
    /// the uppercased field name where none is named.  `default` is the
    /// fallback literal; `optional` marks a field whose absence is not an
    /// error.
    Flat { env_var: Option<String>, default: Option<String>, optional: bool },
    /// Resolved by a child object's own engine.
    Nested { optional: bool },
    /// No environment binding at all: the value must be staged before
    /// finalization.
    Passthrough { optional: bool },
}

/// One declared field of a configuration object.
#[derive(Debug)]
pub struct FieldDescriptor {
    /// The field's name, as paths and implicit variable names use it.
    pub name: String,
    /// The field's kind, with the flat attributes where they apply.
    pub kind: FieldKind,
}

impl FieldDescriptor {
    /// A descriptor is well formed when an optional flat field carries no
    /// default; construction refuses the combination.
    pub open spec fn wf(&self) -> bool {
        match self.kind {
            FieldKind::Flat { default, optional, .. } => optional ==> default is None,
            _ => true,
        }
    }

    /// The environment variable a flat field reads: the named one, or the
    /// uppercased field name.
    pub open spec fn spec_env_name(&self) -> Seq<char> {
        match self.kind {
            FieldKind::Flat { env_var: Some(v), .. } => v@,
            _ => upper_seq(self.name@),
        }
    }

    /// The default literal a flat field declares, where it declares one.
    pub open spec fn spec_default(&self) -> Option<Seq<char>> {
        match self.kind {
            FieldKind::Flat { default: Some(l), .. } => Some(l@),
            _ => None,
        }
    }

    /// Whether the field's target type is optional.
    pub open spec fn spec_optional(&self) -> bool {
        match self.kind {
            FieldKind::Flat { optional, .. } => optional,
            FieldKind::Nested { optional } => optional,
            FieldKind::Passthrough { optional } => optional,
        }
    }

    /// Declares a flat field.  An optional field may not carry a default:
    /// that combination is refused here, at construction time, never at
    /// resolution time.
    pub fn flat(name: String, env_var: Option<String>, default: Option<String>, optional: bool)
        -> (r: Result<FieldDescriptor, String>)
        ensures
            optional && default is Some ==> (r matches Err(m) && m@
                == "Optional fields cannot have a default"@),
            !(optional && default is Some) ==> (r matches Ok(d) && d.wf() && d.name == name
                && d.kind == (FieldKind::Flat { env_var, default, optional })),
    {
        if optional && default.is_some() {
            Err("Optional fields cannot have a default".to_owned())
        } else {
            Ok(FieldDescriptor { name, kind: FieldKind::Flat { env_var, default, optional } })
        }
    }

    /// Declares a nested field, resolved by a child object's own engine.
    pub fn nested(name: String, optional: bool) -> (r: FieldDescriptor)
        ensures
            r.wf(),
            r.name == name,
            r.kind == (FieldKind::Nested { optional }),
    {
        FieldDescriptor { name, kind: FieldKind::Nested { optional } }
    }

    /// Declares a field with no environment binding at all.
    pub fn passthrough(name: String, optional: bool) -> (r: FieldDescriptor)
        ensures
            r.wf(),
            r.name == name,
            r.kind == (FieldKind::Passthrough { optional }),
    {
        FieldDescriptor { name, kind: FieldKind::Passthrough { optional } }
    }

    /// The name of the environment variable a flat field binds to: the
    /// named one, or the field name uppercased.
    pub fn env_name(&self) -> (r: String)
        ensures
            r@ == self.spec_env_name(),
    {
        match &self.kind {
            FieldKind::Flat { env_var: Some(v), .. } => v.clone(),
            _ => to_upper_ascii(self.name.as_str()),
        }
    }
}

/// The requirements line of one field: for a flat field, its environment
/// variable name, `=`, the default literal where one is declared, and a
/// newline; nothing for any other kind.
pub open spec fn requirement_line(d: FieldDescriptor) -> Seq<char> {
    match d.kind {
        FieldKind::Flat { default, .. } => d.spec_env_name() + "="@ + (match default {
            Some(l) => l@,
            None => Seq::<char>::empty(),
        }) + "\n"@,
        _ => Seq::<char>::empty(),
    }
}

/// The requirements text of the fields of `fields` from position `i` on.
pub open spec fn spec_requirements(fields: Seq<FieldDescriptor>, i: int) -> Seq<char>
    decreases fields.len() - i,
{
    if i < 0 || i >= fields.len() {
        Seq::<char>::empty()
    } else {
        requirement_line(fields[i]) + spec_requirements(fields, i + 1)
    }
}

/// The human-readable documentation of a descriptor list: one
/// `NAME=default` line per flat field, in declaration order.  A nested
/// field is documented by splicing its child's descriptors into the list
/// in its place, so children expand recursively.
///
/// The text is a function of the descriptor list alone: no environment is
/// read and nothing is mutated, so repeated calls agree.
pub fn requirements(fields: &Vec<FieldDescriptor>) -> (r: String)
    ensures
        r@ == spec_requirements(fields@, 0),
{
    let n = fields.len();
    let mut r = String::new();
    let mut i: usize = 0;
    proof {
        assert(r@ =~= Seq::<char>::empty());
    }
    while i < n
        invariant
            i <= n,
            n == fields@.len(),
            r@ + spec_requirements(fields@, i as int) == spec_requirements(fields@, 0),
        decreases n - i,
    {
        match &fields[i].kind {
            FieldKind::Flat { default, .. } => {
                let name = fields[i].env_name();
                r.append(name.as_str());
                r.append("=");
                match default {
                    Some(l) => r.append(l.as_str()),
                    None => {},
                }
                r.append("\n");
            },
            _ => {},
        }
        i = i + 1;
        proof {
            assert(r@ + spec_requirements(fields@, i as int) =~= spec_requirements(fields@, 0));
        }
    }
    proof {
        assert(r@ =~= spec_requirements(fields@, 0));
    }
    r
}

} // verus!
