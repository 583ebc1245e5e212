//! The environment-variable map: an ordered mapping from variable name
//! to an optional value. An absent value means "passthrough": the
//! variable is inherited from the caller's process environment rather
//! than fixed by configuration.

use vstd::prelude::*;

verus! {

/// True when no two entries of `s` share a key.
pub open spec fn keys_unique(s: Seq<(String, Option<String>)>) -> bool {
    forall|i: int, j: int| 0 <= i < j < s.len() ==> s[i].0@ != s[j].0@
}

/// An ordered environment-variable map with unique keys. Iteration
/// order is the declaration order; it matters for display only.
#[derive(Debug, PartialEq, Eq)]
pub struct Environment {
    entries: Vec<(String, Option<String>)>,
}

impl View for Environment {
    type V = Seq<(String, Option<String>)>;

    closed spec fn view(&self) -> Seq<(String, Option<String>)> {
        self.entries@
    }
}

impl Environment {
    /// Every key occurs once; established at construction and kept for
    /// the life of the map.
    #[verifier::type_invariant]
    pub open spec fn wf(&self) -> bool {
        keys_unique(self@)
    }

    /// The empty map.
    pub fn new() -> (r: Environment)
        ensures
            r@ == Seq::<(String, Option<String>)>::empty(),
            r.wf(),
    {
        Environment { entries: Vec::new() }
    }

    /// Builds a map from declared entries; `None` exactly when two
    /// entries share a key.
    pub fn from_entries(entries: Vec<(String, Option<String>)>) -> (r: Option<Environment>)
        ensures
            r is Some <==> keys_unique(entries@),
            r matches Some(e) ==> e@ == entries@ && e.wf(),
    {
        if check_keys_unique(&entries) {
            Some(Environment { entries })
        } else {
            None
        }
    }

    /// True iff the map holds zero entries — iff iterating it produces
    /// zero pairs.
    pub fn is_empty(&self) -> (r: bool)
        ensures
            r <==> self@.len() == 0,
    {
        self.entries.len() == 0
    }

    /// How many entries the map holds.
    pub fn len(&self) -> (r: usize)
        ensures
            r == self@.len(),
    {
        self.entries.len()
    }

    /// The entries in declaration order; the map's iteration.
    pub fn entries(&self) -> (r: &Vec<(String, Option<String>)>)
        ensures
            r@ == self@,
    {
        &self.entries
    }
}

/// True iff no two entries of `entries` share a key.
pub fn check_keys_unique(entries: &Vec<(String, Option<String>)>) -> (r: bool)
    ensures
        r == keys_unique(entries@),
{
    let n = entries.len();
    let mut i: usize = 0;
    while i < n
        invariant
            n == entries@.len(),
            i <= n,
            forall|p: int, q: int| 0 <= p < q < i ==> entries@[p].0@ != entries@[q].0@,
        decreases n - i,
    {
        let mut j: usize = 0;
        while j < i
            invariant
                n == entries@.len(),
                i < n,
                j <= i,
                forall|q: int| 0 <= q < j ==> entries@[q].0@ != entries@[i as int].0@,
            decreases i - j,
        {
            if entries[j].0 == entries[i].0 {
                return false;
            }
            j = j + 1;
        }
        i = i + 1;
    }
    true
}

} // verus!
