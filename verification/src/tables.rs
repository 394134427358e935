//! Small association tables used by the configuration model: lookups keyed
//! by name or by key number. Keys are unique; lookups are first-match.

use vstd::prelude::*;

verus! {

/// First-match lookup by name over an association list.
pub open spec fn assoc_by_name<V>(s: Seq<(String, V)>, name: Seq<char>) -> Option<V>
    decreases s.len(),
{
    if s.len() == 0 {
        None
    } else if s[0].0@ == name {
        Some(s[0].1)
    } else {
        assoc_by_name(s.skip(1), name)
    }
}

/// First-match lookup by key number over an association list.
pub open spec fn assoc_by_number<V>(s: Seq<(u8, V)>, key: u8) -> Option<V>
    decreases s.len(),
{
    if s.len() == 0 {
        None
    } else if s[0].0 == key {
        Some(s[0].1)
    } else {
        assoc_by_number(s.skip(1), key)
    }
}

proof fn lemma_assoc_by_name_push<V>(s: Seq<(String, V)>, name: Seq<char>, e: (String, V))
    ensures
        assoc_by_name(s.push(e), name) == if assoc_by_name(s, name) is Some {
            assoc_by_name(s, name)
        } else if e.0@ == name {
            Some(e.1)
        } else {
            None
        },
    decreases s.len(),
{
    if s.len() == 0 {
        assert(s.push(e)[0] == e);
        assert(s.push(e).skip(1) =~= Seq::<(String, V)>::empty());
        assert(assoc_by_name(s, name) is None);
        if e.0@ == name {
            assert(assoc_by_name(s.push(e), name) == Some(e.1));
        } else {
            assert(assoc_by_name(s.push(e), name) == assoc_by_name(s.push(e).skip(1), name));
            assert(assoc_by_name(s.push(e), name) is None);
        }
    } else {
        assert(s.push(e)[0] == s[0]);
        assert(s.push(e).skip(1) =~= s.skip(1).push(e));
        lemma_assoc_by_name_push(s.skip(1), name, e);
    }
}

proof fn lemma_assoc_by_number_push<V>(s: Seq<(u8, V)>, key: u8, e: (u8, V))
    ensures
        assoc_by_number(s.push(e), key) == if assoc_by_number(s, key) is Some {
            assoc_by_number(s, key)
        } else if e.0 == key {
            Some(e.1)
        } else {
            None
        },
    decreases s.len(),
{
    if s.len() == 0 {
        assert(s.push(e)[0] == e);
        assert(s.push(e).skip(1) =~= Seq::<(u8, V)>::empty());
        assert(assoc_by_number(s, key) is None);
        if e.0 == key {
            assert(assoc_by_number(s.push(e), key) == Some(e.1));
        } else {
            assert(assoc_by_number(s.push(e), key) == assoc_by_number(s.push(e).skip(1), key));
            assert(assoc_by_number(s.push(e), key) is None);
        }
    } else {
        assert(s.push(e)[0] == s[0]);
        assert(s.push(e).skip(1) =~= s.skip(1).push(e));
        lemma_assoc_by_number_push(s.skip(1), key, e);
    }
}

/// A table of values looked up by name.
#[derive(Debug, Eq, PartialEq, Clone)]
pub struct StringTable<V> {
    entries: Vec<(String, V)>,
}

impl<V> StringTable<V> {
    /// The value stored under `name`.
    pub closed spec fn spec_get(self, name: Seq<char>) -> Option<V> {
        assoc_by_name(self.entries@, name)
    }

    pub fn new() -> (t: StringTable<V>)
        ensures
            forall|name: Seq<char>| t.spec_get(name) is None,
    {
        StringTable { entries: Vec::new() }
    }

    pub fn get(&self, name: &String) -> (v: Option<&V>)
        ensures
            match v {
                Some(value) => self.spec_get(name@) == Some(*value),
                None => self.spec_get(name@) is None,
            },
    {
        let mut i: usize = 0;
        assert(self.entries@.skip(0) =~= self.entries@);
        while i < self.entries.len()
            invariant
                i <= self.entries@.len(),
                assoc_by_name(self.entries@.skip(i as int), name@) == assoc_by_name(
                    self.entries@,
                    name@,
                ),
            decreases self.entries@.len() - i,
        {
            let ghost pre = self.entries@.skip(i as int);
            assert(pre[0] == self.entries@[i as int]);
            if self.entries[i].0 == *name {
                return Some(&self.entries[i].1);
            }
            assert(pre.skip(1) =~= self.entries@.skip(i as int + 1));
            i = i + 1;
        }
        None
    }

    /// Stores `value` under a name not yet present.
    pub fn insert(&mut self, name: String, value: V)
        requires
            old(self).spec_get(name@) is None,
        ensures
            final(self).spec_get(name@) == Some(value),
            forall|other: Seq<char>|
                other != name@ ==> final(self).spec_get(other) == old(self).spec_get(other),
    {
        assert forall|other: Seq<char>|
            assoc_by_name(self.entries@.push((name, value)), other) == if other == name@ {
                Some(value)
            } else {
                assoc_by_name(self.entries@, other)
            } by {
            lemma_assoc_by_name_push(self.entries@, other, (name, value));
        }
        self.entries.push((name, value));
    }
}

/// A table of values looked up by a key number.
#[derive(Debug, Eq, PartialEq, Clone)]
pub struct ByteTable<V> {
    entries: Vec<(u8, V)>,
}

impl<V> ByteTable<V> {
    /// The value stored under `key`.
    pub closed spec fn spec_get(self, key: u8) -> Option<V> {
        assoc_by_number(self.entries@, key)
    }

    pub fn new() -> (t: ByteTable<V>)
        ensures
            forall|key: u8| t.spec_get(key) is None,
    {
        ByteTable { entries: Vec::new() }
    }

    pub fn get(&self, key: u8) -> (v: Option<&V>)
        ensures
            match v {
                Some(value) => self.spec_get(key) == Some(*value),
                None => self.spec_get(key) is None,
            },
    {
        let mut i: usize = 0;
        assert(self.entries@.skip(0) =~= self.entries@);
        while i < self.entries.len()
            invariant
                i <= self.entries@.len(),
                assoc_by_number(self.entries@.skip(i as int), key) == assoc_by_number(
                    self.entries@,
                    key,
                ),
            decreases self.entries@.len() - i,
        {
            let ghost pre = self.entries@.skip(i as int);
            assert(pre[0] == self.entries@[i as int]);
            if self.entries[i].0 == key {
                return Some(&self.entries[i].1);
            }
            assert(pre.skip(1) =~= self.entries@.skip(i as int + 1));
            i = i + 1;
        }
        None
    }

    /// Stores `value` under a key not yet present.
    pub fn insert(&mut self, key: u8, value: V)
        requires
            old(self).spec_get(key) is None,
        ensures
            final(self).spec_get(key) == Some(value),
            forall|other: u8|
                other != key ==> final(self).spec_get(other) == old(self).spec_get(other),
    {
        assert forall|other: u8|
            assoc_by_number(self.entries@.push((key, value)), other) == if other == key {
                Some(value)
            } else {
                assoc_by_number(self.entries@, other)
            } by {
            lemma_assoc_by_number_push(self.entries@, other, (key, value));
        }
        self.entries.push((key, value));
    }
}

} // verus!
