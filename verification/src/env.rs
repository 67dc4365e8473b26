//! An explicit snapshot of named variables, standing in for the process
//! environment.
//!
//! The resolution engine never touches the process environment itself: the
//! host application captures it into an [`Env`] value once and hands that in.
//! This keeps every lookup a pure function of the snapshot.

use vstd::prelude::*;

verus! {

/// The value bound to `name` in a sequence of bindings, where a later
/// binding for the same name shadows an earlier one.
pub open spec fn lookup(vars: Seq<(Seq<char>, Seq<char>)>, name: Seq<char>) -> Option<Seq<char>>
    decreases vars.len(),
{
    if vars.len() == 0 {
        None
    } else if vars.last().0 == name {
        Some(vars.last().1)
    } else {
        lookup(vars.drop_last(), name)
    }
}

/// A set of named variables, as captured by the host application.
///
/// Its view is the sequence of bindings in the order they were set; a
/// binding set later shadows an earlier one of the same name.
pub struct Env {
    vars: Vec<(String, String)>,
}

impl View for Env {
    type V = Seq<(Seq<char>, Seq<char>)>;

    closed spec fn view(&self) -> Seq<(Seq<char>, Seq<char>)> {
        self.vars@.map_values(|p: (String, String)| (p.0@, p.1@))
    }
}

impl Env {
    /// An empty snapshot: every read comes back absent.
    pub fn new() -> (r: Env)
        ensures
            r@ == Seq::<(Seq<char>, Seq<char>)>::empty(),
    {
        let r = Env { vars: Vec::new() };
        proof {
            assert(r@ =~= Seq::<(Seq<char>, Seq<char>)>::empty());
        }
        r
    }

    /// Binds `name` to `value`, shadowing any earlier binding of `name`.
    pub fn set(&mut self, name: &str, value: &str)
        ensures
            final(self)@ == old(self)@.push((name@, value@)),
    {
        self.vars.push((name.to_owned(), value.to_owned()));
        proof {
            assert(self@ =~= old(self)@.push((name@, value@)));
        }
    }

    /// Reads the variable `name`: absence is the only failure mode.
    pub fn read(&self, name: &str) -> (r: Option<String>)
        ensures
            match lookup(self@, name@) {
                Some(v) => r matches Some(s) && s@ == v,
                None => r is None,
            },
    {
        let ghost whole: Seq<(Seq<char>, Seq<char>)> = self@;
        let key: String = name.to_owned();
        let mut i: usize = self.vars.len();
        proof {
            assert(whole.take(i as int) =~= whole);
        }
        while i > 0
            invariant
                i <= self.vars.len(),
                whole == self@,
                key@ == name@,
                lookup(whole, name@) == lookup(whole.take(i as int), name@),
            decreases i,
        {
            i = i - 1;
            proof {
                assert(whole.take(i + 1).last() == whole[i as int]);
                assert(whole.take(i + 1).drop_last() =~= whole.take(i as int));
            }
            if self.vars[i].0.eq(&key) {
                return Some(self.vars[i].1.clone());
            }
        }
        proof {
            assert(whole.take(0) =~= Seq::<(Seq<char>, Seq<char>)>::empty());
        }
        None
    }
}

} // verus!
