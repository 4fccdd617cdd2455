//! An environment snapshot: the home directory, if any, and a set of
//! variable bindings. Resolution is a pure function of such a snapshot, so a
//! caller can hand in the real process environment or a synthetic one and the
//! result is the same for the same snapshot.

use vstd::prelude::*;

verus! {

/// What a sequence of bindings says about `name`: the value of the most
/// recently added binding for `name`, or `None`.
pub open spec fn lookup_in(vars: Seq<(String, String)>, name: Seq<char>) -> Option<Seq<char>>
    decreases vars.len(),
{
    if vars.len() == 0 {
        None
    } else if vars.last().0@ == name {
        Some(vars.last().1@)
    } else {
        lookup_in(vars.drop_last(), name)
    }
}

/// A snapshot of the environment: the user's home directory, if one is
/// known, and the variable bindings resolution may consult. A later `set`
/// of the same name shadows an earlier one.
pub struct Env {
    pub home: Option<String>,
    pub vars: Vec<(String, String)>,
}

impl Env {
    /// The home directory of this snapshot, as a sequence of characters.
    pub open spec fn home_view(self) -> Option<Seq<char>> {
        match self.home {
            Some(h) => Some(h@),
            None => None,
        }
    }

    /// The value this snapshot gives to the variable `name`.
    pub open spec fn lookup(self, name: Seq<char>) -> Option<Seq<char>> {
        lookup_in(self.vars@, name)
    }

    /// An environment with the given home directory and no variables set.
    pub fn new(home: Option<String>) -> (r: Env)
        ensures
            r.home_view() == (match home {
                Some(h) => Some::<Seq<char>>(h@),
                None => None::<Seq<char>>,
            }),
            forall|n: Seq<char>| r.lookup(n) is None,
    {
        Env { home, vars: Vec::new() }
    }

    /// Bind `name` to `value`, shadowing any earlier binding of `name`.
    pub fn set(&mut self, name: String, value: String)
        ensures
            final(self).home_view() == old(self).home_view(),
            final(self).lookup(name@) == Some(value@),
            forall|n: Seq<char>|
                n != name@ ==> final(self).lookup(n) == old(self).lookup(n),
    {
        self.vars.push((name, value));
        proof {
            assert(self.vars@.drop_last() =~= old(self).vars@);
        }
    }

    /// Look the variable `name` up in this snapshot.
    pub fn get(&self, name: &str) -> (r: Option<String>)
        ensures
            (match r {
                Some(v) => Some(v@),
                None => None::<Seq<char>>,
            }) == self.lookup(name@),
    {
        let key: String = name.to_owned();
        let mut i: usize = self.vars.len();
        proof {
            assert(self.vars@.subrange(0, i as int) =~= self.vars@);
        }
        while i > 0
            invariant
                i <= self.vars@.len(),
                key@ == name@,
                lookup_in(self.vars@, name@) == lookup_in(
                    self.vars@.subrange(0, i as int),
                    name@,
                ),
            decreases i,
        {
            i = i - 1;
            let ghost prefix = self.vars@.subrange(0, i + 1 as int);
            proof {
                assert(prefix.last() == self.vars@[i as int]);
                assert(prefix.drop_last() =~= self.vars@.subrange(0, i as int));
            }
            if self.vars[i].0 == key {
                proof {
                    assert(lookup_in(prefix, name@) == Some(self.vars@[i as int].1@));
                }
                return Some(self.vars[i].1.clone());
            }
            proof {
                assert(lookup_in(prefix, name@) == lookup_in(
                    self.vars@.subrange(0, i as int),
                    name@,
                ));
            }
        }
        proof {
            assert(self.vars@.subrange(0, 0).len() == 0);
        }
        None
    }
}

} // verus!
