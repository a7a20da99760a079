//! A snapshot of the shell's variables, and what mirroring some of them
//! into the process environment amounts to.

use vstd::prelude::*;
use crate::assoc::{assoc, lemma_assoc_absent, lemma_assoc_last, lemma_assoc_update};
use crate::text::bytes_eq;

verus! {

/// The limit of the `read` command where no setting overrides it: 100 MiB.
pub const DEFAULT_READ_BYTE_LIMIT: usize = 104857600;

/// One variable of the shell: its name, its value as one text, and whether
/// it is exported to child processes.
#[derive(Debug, PartialEq, Eq)]
pub struct EnvVar {
    pub name: Vec<u8>,
    pub value: Vec<u8>,
    pub exported: bool,
}

/// What a name is bound to: the value, and whether it is exported.
pub type Bindings = Map<Seq<u8>, (Seq<u8>, bool)>;

/// The value that `name` is bound to, if any.
pub open spec fn value_of(env: Bindings, name: Seq<u8>) -> Option<Seq<u8>> {
    if env.contains_key(name) {
        Some(env[name].0)
    } else {
        None
    }
}

/// The value that `name` is bound to, unless it is unbound or empty.
pub open spec fn nonempty_value_of(env: Bindings, name: Seq<u8>) -> Option<Seq<u8>> {
    if env.contains_key(name) && env[name].0.len() > 0 {
        Some(env[name].0)
    } else {
        None
    }
}

/// The value that `name` is bound to, unless it is unbound, empty or not
/// exported.
pub open spec fn exported_value_of(env: Bindings, name: Seq<u8>) -> Option<Seq<u8>> {
    if env.contains_key(name) && env[name].0.len() > 0 && env[name].1 {
        Some(env[name].0)
    } else {
        None
    }
}

/// Whether an optional slice holds exactly the optional text `m`.
pub open spec fn holds(r: Option<&[u8]>, m: Option<Seq<u8>>) -> bool {
    match r {
        Some(v) => m == Some(v@),
        None => m is None,
    }
}

/// A snapshot of the shell's variables.
pub struct Environment {
    vars: Vec<EnvVar>,
}

impl View for Environment {
    type V = Bindings;

    closed spec fn view(&self) -> Bindings {
        assoc(self.pairs())
    }
}

impl Environment {
    closed spec fn pairs(&self) -> Seq<(Seq<u8>, (Seq<u8>, bool))> {
        self.vars@.map_values(|e: EnvVar| (e.name@, (e.value@, e.exported)))
    }

    /// The snapshot without any variable.
    pub fn new() -> (e: Environment)
        ensures
            e@ == Map::<Seq<u8>, (Seq<u8>, bool)>::empty(),
    {
        let e = Environment { vars: Vec::new() };
        assert(e.pairs().len() == 0);
        e
    }

    /// The index of the last entry named `name`.
    fn position(&self, name: &[u8]) -> (r: Option<usize>)
        ensures
            match r {
                Some(i) => i < self.vars@.len() && self.vars@[i as int].name@ == name@ && forall|
                    j: int,
                |
                    i < j < self.vars@.len() ==> (#[trigger] self.vars@[j]).name@ != name@,
                None => forall|j: int|
                    0 <= j < self.vars@.len() ==> (#[trigger] self.vars@[j]).name@ != name@,
            },
    {
        let mut i: usize = self.vars.len();
        while i > 0
            invariant
                i <= self.vars@.len(),
                forall|j: int| i <= j < self.vars@.len() ==> (#[trigger] self.vars@[j]).name@ != name@,
            decreases i,
        {
            i -= 1;
            if bytes_eq(self.vars[i].name.as_slice(), name) {
                return Some(i);
            }
        }
        None
    }

    /// Binds `name` to `value`, in place of what it was bound to before.
    pub fn set(&mut self, name: Vec<u8>, value: Vec<u8>, exported: bool)
        ensures
            final(self)@ == old(self)@.insert(name@, (value@, exported)),
    {
        let found = self.position(name.as_slice());
        let ghost before = self.pairs();
        let ghost binding = (value@, exported);
        match found {
            Some(i) => {
                self.vars.set(i, EnvVar { name, value, exported });
                proof {
                    assert forall|j: int| i < j < before.len() implies (#[trigger] before[j]).0
                        != before[i as int].0 by {
                        assert(old(self).vars@[j].name@ != name@);
                    }
                    lemma_assoc_update(before, i as int, binding);
                    assert(self.pairs() == before.update(i as int, (name@, binding)));
                }
            },
            None => {
                self.vars.push(EnvVar { name, value, exported });
                proof {
                    assert(self.pairs().drop_last() == before);
                    assert(self.pairs().last() == (name@, binding));
                }
            },
        }
    }

    /// The value of `name`.
    pub fn get(&self, name: &[u8]) -> (r: Option<&[u8]>)
        ensures
            holds(r, value_of(self@, name@)),
    {
        match self.find(name) {
            Some(e) => Some(e.value.as_slice()),
            None => None,
        }
    }

    /// The value of `name`, unless it is empty.
    pub fn get_unless_empty(&self, name: &[u8]) -> (r: Option<&[u8]>)
        ensures
            holds(r, nonempty_value_of(self@, name@)),
    {
        match self.find(name) {
            Some(e) => if e.value.len() > 0 {
                Some(e.value.as_slice())
            } else {
                None
            },
            None => None,
        }
    }

    /// The value of `name`, unless it is empty or the variable is not
    /// exported.
    pub fn get_exported_unless_empty(&self, name: &[u8]) -> (r: Option<&[u8]>)
        ensures
            holds(r, exported_value_of(self@, name@)),
    {
        match self.find(name) {
            Some(e) => if e.value.len() > 0 && e.exported {
                Some(e.value.as_slice())
            } else {
                None
            },
            None => None,
        }
    }

    /// The entry that binds `name`.
    fn find(&self, name: &[u8]) -> (r: Option<&EnvVar>)
        ensures
            match r {
                Some(e) => self@.contains_key(name@) && self@[name@] == (e.value@, e.exported),
                None => !self@.contains_key(name@),
            },
    {
        let ghost pairs = self.pairs();
        match self.position(name) {
            Some(i) => {
                proof {
                    assert forall|j: int| i < j < pairs.len() implies (#[trigger] pairs[j]).0
                        != pairs[i as int].0 by {
                        assert(self.vars@[j].name@ != name@);
                    }
                    lemma_assoc_last(pairs, i as int);
                }
                Some(&self.vars[i])
            },
            None => {
                proof {
                    assert forall|j: int| 0 <= j < pairs.len() implies (#[trigger] pairs[j]).0
                        != name@ by {
                        assert(self.vars@[j].name@ != name@);
                    }
                    lemma_assoc_absent(pairs, name@);
                }
                None
            },
        }
    }
}

} // verus!
