//! A table of named action chains: each name maps to the list of actions that
//! make up the chain. Inserting under a name that is present replaces its chain.

use vstd::prelude::*;
use crate::text::str_eq;

verus! {

/// The chain stored under `name`: the first entry with that name, if any.
pub open spec fn lookup<A>(entries: Seq<(String, Vec<A>)>, name: Seq<char>) -> Option<Seq<A>>
    decreases entries.len(),
{
    if entries.len() == 0 {
        None
    } else if entries[0].0@ == name {
        Some(entries[0].1@)
    } else {
        lookup(entries.skip(1), name)
    }
}

proof fn lemma_lookup_first<A>(e: Seq<(String, Vec<A>)>, name: Seq<char>, i: int)
    requires
        0 <= i < e.len(),
        e[i].0@ == name,
        forall|k: int| 0 <= k < i ==> e[k].0@ != name,
    ensures
        lookup(e, name) == Some(e[i].1@),
    decreases i,
{
    if i > 0 {
        assert forall|k: int| 0 <= k < i - 1 implies e.skip(1)[k].0@ != name by {
            assert(e.skip(1)[k] == e[k + 1]);
        }
        lemma_lookup_first(e.skip(1), name, i - 1);
    }
}

proof fn lemma_lookup_absent<A>(e: Seq<(String, Vec<A>)>, name: Seq<char>)
    requires
        forall|k: int| 0 <= k < e.len() ==> e[k].0@ != name,
    ensures
        lookup(e, name) == None::<Seq<A>>,
    decreases e.len(),
{
    if e.len() > 0 {
        assert forall|k: int| 0 <= k < e.len() - 1 implies e.skip(1)[k].0@ != name by {
            assert(e.skip(1)[k] == e[k + 1]);
        }
        lemma_lookup_absent(e.skip(1), name);
    }
}

/// Two tables with the same names in the same order, whose chains agree
/// wherever the name is `name`, store the same chain under `name`.
proof fn lemma_lookup_same_where_named<A>(
    e1: Seq<(String, Vec<A>)>,
    e2: Seq<(String, Vec<A>)>,
    name: Seq<char>,
)
    requires
        e1.len() == e2.len(),
        forall|k: int| 0 <= k < e1.len() ==> e1[k].0@ == e2[k].0@,
        forall|k: int| 0 <= k < e1.len() && e1[k].0@ == name ==> e1[k].1@ == e2[k].1@,
    ensures
        lookup(e1, name) == lookup(e2, name),
    decreases e1.len(),
{
    if e1.len() > 0 {
        assert forall|k: int| 0 <= k < e1.len() - 1 implies e1.skip(1)[k].0@ == e2.skip(1)[k].0@ by {
            assert(e1.skip(1)[k] == e1[k + 1]);
            assert(e2.skip(1)[k] == e2[k + 1]);
        }
        assert forall|k: int| 0 <= k < e1.len() - 1 && e1.skip(1)[k].0@ == name implies e1.skip(
            1,
        )[k].1@ == e2.skip(1)[k].1@ by {
            assert(e1.skip(1)[k] == e1[k + 1]);
            assert(e2.skip(1)[k] == e2[k + 1]);
        }
        lemma_lookup_same_where_named(e1.skip(1), e2.skip(1), name);
    }
}

proof fn lemma_lookup_push<A>(e: Seq<(String, Vec<A>)>, x: (String, Vec<A>), name: Seq<char>)
    requires
        x.0@ != name,
    ensures
        lookup(e.push(x), name) == lookup(e, name),
    decreases e.len(),
{
    if e.len() > 0 {
        assert(e.push(x).skip(1) =~= e.skip(1).push(x));
        assert(e.push(x)[0] == e[0]);
        lemma_lookup_push(e.skip(1), x, name);
        assert(lookup(e.push(x), name) == lookup(e, name));
    } else {
        assert(e.push(x).skip(1) =~= Seq::<(String, Vec<A>)>::empty());
        assert(e.push(x)[0] == x);
        assert(lookup(e.push(x).skip(1), name) is None);
    }
}

/// Named chains of actions of type `A`.
pub struct ChainTable<A> {
    entries: Vec<(String, Vec<A>)>,
}

impl<A> ChainTable<A> {
    /// The chain stored under `name`, if any.
    pub closed spec fn chain(&self, name: Seq<char>) -> Option<Seq<A>> {
        lookup(self.entries@, name)
    }

    /// An empty table.
    pub fn new() -> (t: Self)
        ensures
            forall|name: Seq<char>| t.chain(name) == None::<Seq<A>>,
    {
        ChainTable { entries: Vec::new() }
    }

    /// The position of the first entry named `name`.
    fn position(&self, name: &str) -> (r: Option<usize>)
        ensures
            match r {
                Some(i) => i < self.entries@.len() && self.entries@[i as int].0@ == name@
                    && forall|k: int| 0 <= k < i ==> self.entries@[k].0@ != name@,
                None => forall|k: int|
                    0 <= k < self.entries@.len() ==> self.entries@[k].0@ != name@,
            },
    {
        let mut i: usize = 0;
        while i < self.entries.len()
            invariant
                i <= self.entries@.len(),
                forall|k: int| 0 <= k < i ==> self.entries@[k].0@ != name@,
            decreases self.entries@.len() - i,
        {
            if str_eq(self.entries[i].0.as_str(), name) {
                return Some(i);
            }
            i = i + 1;
        }
        None
    }

    /// The chain stored under `name`, if any.
    pub fn get(&self, name: &str) -> (r: Option<&Vec<A>>)
        ensures
            match r {
                Some(v) => self.chain(name@) == Some(v@),
                None => self.chain(name@) is None,
            },
    {
        match self.position(name) {
            Some(i) => {
                proof {
                    lemma_lookup_first(self.entries@, name@, i as int);
                }
                Some(&self.entries[i].1)
            },
            None => {
                proof {
                    lemma_lookup_absent(self.entries@, name@);
                }
                None
            },
        }
    }

    /// The entries of the table, in the order they were first stored; the
    /// chain under a name is that of the first entry with the name.
    pub fn entries(&self) -> (r: &Vec<(String, Vec<A>)>)
        ensures
            forall|name: Seq<char>| #[trigger] self.chain(name) == lookup(r@, name),
    {
        &self.entries
    }

    /// Whether a chain is stored under `name`.
    pub fn contains(&self, name: &str) -> (r: bool)
        ensures
            r == self.chain(name@) is Some,
    {
        self.get(name).is_some()
    }

    /// Stores `chain` under `name`, replacing any chain stored there before.
    pub fn insert(&mut self, name: String, chain: Vec<A>)
        ensures
            final(self).chain(name@) == Some(chain@),
            forall|other: Seq<char>|
                other != name@ ==> final(self).chain(other) == old(self).chain(other),
    {
        let ghost n = name@;
        match self.position(name.as_str()) {
            Some(i) => {
                self.entries.set(i, (name, chain));
                proof {
                    let e1 = old(self).entries@;
                    let e2 = self.entries@;
                    assert forall|k: int| 0 <= k < i implies e2[k].0@ != n by {
                        assert(e2[k] == e1[k]);
                    }
                    lemma_lookup_first(e2, n, i as int);
                    assert forall|other: Seq<char>| other != n implies lookup(e2, other) == lookup(
                        e1,
                        other,
                    ) by {
                        lemma_lookup_same_where_named(e2, e1, other);
                    }
                }
            },
            None => {
                let ghost e1 = self.entries@;
                self.entries.push((name, chain));
                proof {
                    let e2 = self.entries@;
                    assert(e2 == e1.push(e2.last()));
                    assert forall|k: int| 0 <= k < e1.len() implies e2[k].0@ != n by {
                        assert(e2[k] == e1[k]);
                    }
                    lemma_lookup_first(e2, n, e1.len() as int);
                    assert forall|other: Seq<char>| other != n implies lookup(e2, other) == lookup(
                        e1,
                        other,
                    ) by {
                        lemma_lookup_push(e1, e2.last(), other);
                    }
                }
            },
        }
    }
}

} // verus!
