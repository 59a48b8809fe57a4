//! The configuration that a data source is built from: free-form properties,
//! keyed by name.

use vstd::prelude::*;

verus! {

/// The mapping that a run of settings amounts to: each key maps to the value
/// it was set to last.
pub open spec fn settings_of(entries: Seq<(String, String)>) -> Map<Seq<char>, Seq<char>>
    decreases entries.len(),
{
    if entries.len() == 0 {
        Map::empty()
    } else {
        settings_of(entries.drop_last()).insert(entries.last().0@, entries.last().1@)
    }
}

/// Whether no key occurs twice.
pub open spec fn distinct_keys(entries: Seq<(String, String)>) -> bool {
    forall|i: int, j: int| 0 <= i < j < entries.len() ==> entries[i].0@ != entries[j].0@
}

/// Whether `key` occurs among the first `upto` entries.
pub open spec fn key_within(entries: Seq<(String, String)>, key: Seq<char>, upto: int) -> bool {
    exists|i: int| 0 <= i < upto && i < entries.len() && #[trigger] entries[i].0@ == key
}

proof fn lemma_domain(entries: Seq<(String, String)>, key: Seq<char>)
    ensures
        settings_of(entries).dom().contains(key) <==> key_within(
            entries,
            key,
            entries.len() as int,
        ),
    decreases entries.len(),
{
    if entries.len() > 0 {
        let rest = entries.drop_last();
        lemma_domain(rest, key);
        if key_within(rest, key, rest.len() as int) {
            let i = choose|i: int| 0 <= i < rest.len() && #[trigger] rest[i].0@ == key;
            assert(entries[i].0@ == key);
        }
        if key_within(entries, key, entries.len() as int) {
            let i = choose|i: int| 0 <= i < entries.len() && #[trigger] entries[i].0@ == key;
            if i < rest.len() {
                assert(rest[i].0@ == key);
            }
        }
    }
}

proof fn lemma_distinct_prefix(entries: Seq<(String, String)>)
    requires
        distinct_keys(entries),
        entries.len() > 0,
    ensures
        distinct_keys(entries.drop_last()),
{
    let rest = entries.drop_last();
    assert forall|i: int, j: int| 0 <= i < j < rest.len() implies rest[i].0@ != rest[j].0@ by {
        assert(entries[i].0@ != entries[j].0@);
    }
}

proof fn lemma_lookup(entries: Seq<(String, String)>, at: int)
    requires
        distinct_keys(entries),
        0 <= at < entries.len(),
    ensures
        settings_of(entries).dom().contains(entries[at].0@),
        settings_of(entries)[entries[at].0@] == entries[at].1@,
    decreases entries.len(),
{
    if at < entries.len() - 1 {
        lemma_distinct_prefix(entries);
        lemma_lookup(entries.drop_last(), at);
    }
}

proof fn lemma_replace(entries: Seq<(String, String)>, at: int, entry: (String, String))
    requires
        distinct_keys(entries),
        0 <= at < entries.len(),
        entries[at].0@ == entry.0@,
    ensures
        distinct_keys(entries.update(at, entry)),
        settings_of(entries.update(at, entry)) == settings_of(entries).insert(entry.0@, entry.1@),
    decreases entries.len(),
{
    let changed = entries.update(at, entry);
    assert forall|i: int, j: int| 0 <= i < j < changed.len() implies changed[i].0@
        != changed[j].0@ by {
        assert(entries[i].0@ != entries[j].0@);
    }
    let rest = entries.drop_last();
    if at == entries.len() - 1 {
        assert(changed.drop_last() =~= rest);
    } else {
        lemma_distinct_prefix(entries);
        lemma_replace(rest, at, entry);
        assert(changed.drop_last() =~= rest.update(at, entry));
    }
}

/// A set of properties: a mapping from names to values, kept in the order
/// in which the names were first set.
pub struct PropertySet {
    entries: Vec<(String, String)>,
}

impl View for PropertySet {
    type V = Map<Seq<char>, Seq<char>>;

    open spec fn view(&self) -> Map<Seq<char>, Seq<char>> {
        settings_of(self.listing())
    }
}

impl PropertySet {
    #[verifier::type_invariant]
    spec fn distinct(self) -> bool {
        distinct_keys(self.entries@)
    }

    /// The names in the order in which they were first set, each with its
    /// value.
    pub closed spec fn listing(&self) -> Seq<(String, String)> {
        self.entries@
    }

    /// No property at all.
    pub fn new() -> (r: Self)
        ensures
            r@ == Map::<Seq<char>, Seq<char>>::empty(),
            r.listing().len() == 0,
    {
        PropertySet { entries: Vec::new() }
    }

    /// The position of `key` among the entries, if it is set.
    fn find(&self, key: &String) -> (r: Option<usize>)
        ensures
            r matches Some(at) ==> at < self.entries@.len() && self.entries@[at as int].0@ == key@,
            r is None ==> !key_within(self.entries@, key@, self.entries@.len() as int),
    {
        let mut i: usize = 0;
        while i < self.entries.len()
            invariant
                i <= self.entries@.len(),
                !key_within(self.entries@, key@, i as int),
            decreases self.entries@.len() - i,
        {
            if self.entries[i].0 == *key {
                return Some(i);
            }
            i = i + 1;
        }
        None
    }

    /// Sets a property. A name that is set already keeps its place and gets
    /// the new value.
    pub fn insert(self, key: &str, value: &str) -> (r: Self)
        ensures
            r@ == self@.insert(key@, value@),
    {
        proof {
            use_type_invariant(&self);
        }
        let key = key.to_owned();
        let value = value.to_owned();
        let found = self.find(&key);
        let mut entries = self.entries;
        match found {
            Some(at) => {
                proof {
                    lemma_replace(entries@, at as int, (key, value));
                }
                entries.set(at, (key, value));
            },
            None => {
                proof {
                    let grown = entries@.push((key, value));
                    assert(grown.drop_last() =~= entries@);
                    assert forall|i: int, j: int| 0 <= i < j < grown.len() implies grown[i].0@
                        != grown[j].0@ by {
                        if j == grown.len() - 1 {
                            assert(entries@[i].0@ != key@);
                        }
                    }
                }
                entries.push((key, value));
            },
        }
        PropertySet { entries }
    }

    /// The value of a property, if it is set.
    pub fn get(&self, key: &str) -> (r: Option<&String>)
        ensures
            r matches Some(value) ==> self@.dom().contains(key@) && self@[key@] == value@,
            r is None ==> !self@.dom().contains(key@),
    {
        proof {
            use_type_invariant(self);
            lemma_domain(self.entries@, key@);
        }
        let key = key.to_owned();
        match self.find(&key) {
            Some(at) => {
                proof {
                    lemma_lookup(self.entries@, at as int);
                }
                Some(&self.entries[at].1)
            },
            None => None,
        }
    }

    /// How many properties are set.
    pub fn len(&self) -> (r: usize)
        ensures
            r == self.listing().len(),
    {
        self.entries.len()
    }

    /// The property at a position of `listing`.
    pub fn entry(&self, at: usize) -> (r: (&String, &String))
        requires
            at < self.listing().len(),
        ensures
            *r.0 == self.listing()[at as int].0,
            *r.1 == self.listing()[at as int].1,
    {
        (&self.entries[at].0, &self.entries[at].1)
    }
}

} // verus!
