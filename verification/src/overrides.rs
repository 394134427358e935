//! The override table: host-driven per-key color indicators (mute state,
//! media availability) layered over a static theme. Entries are added and
//! removed one key at a time and must be re-asserted after every theme
//! application. Each key has at most one override.

use vstd::prelude::*;

use crate::color::Color;
use crate::scancode::Scancode;

verus! {

/// First-match lookup of the override color of `key`.
pub open spec fn assoc_override(s: Seq<(Scancode, Color)>, key: Scancode) -> Option<Color>
    decreases s.len(),
{
    if s.len() == 0 {
        None
    } else if s[0].0 == key {
        Some(s[0].1)
    } else {
        assoc_override(s.skip(1), key)
    }
}

proof fn lemma_assoc_override_push(s: Seq<(Scancode, Color)>, key: Scancode, e: (Scancode, Color))
    ensures
        assoc_override(s.push(e), key) == if assoc_override(s, key) is Some {
            assoc_override(s, key)
        } else if e.0 == key {
            Some(e.1)
        } else {
            None
        },
    decreases s.len(),
{
    if s.len() == 0 {
        assert(s.push(e)[0] == e);
        assert(s.push(e).skip(1) =~= Seq::<(Scancode, Color)>::empty());
        assert(assoc_override(s, key) is None);
        if e.0 == key {
            assert(assoc_override(s.push(e), key) == Some(e.1));
        } else {
            assert(assoc_override(s.push(e), key) == assoc_override(s.push(e).skip(1), key));
        }
    } else {
        assert(s.push(e)[0] == s[0]);
        assert(s.push(e).skip(1) =~= s.skip(1).push(e));
        lemma_assoc_override_push(s.skip(1), key, e);
    }
}

/// If some entry overrides `key`, lookup finds one.
proof fn lemma_assoc_override_of_entry(s: Seq<(Scancode, Color)>, j: int)
    requires
        0 <= j < s.len(),
    ensures
        assoc_override(s, s[j].0) is Some,
    decreases s.len(),
{
    if j == 0 {
    } else if s[0].0 == s[j].0 {
    } else {
        assert(s.skip(1)[j - 1] == s[j]);
        lemma_assoc_override_of_entry(s.skip(1), j - 1);
    }
}

/// The override table of one device session.
pub struct OverrideTable {
    entries: Vec<(Scancode, Color)>,
}

impl OverrideTable {
    /// All overrides, oldest first.
    pub closed spec fn view_overrides(self) -> Seq<(Scancode, Color)> {
        self.entries@
    }

    /// The override color of `key`, if one is set.
    pub open spec fn spec_override(self, key: Scancode) -> Option<Color> {
        assoc_override(self.view_overrides(), key)
    }

    /// At most one entry per key.
    pub open spec fn wf(self) -> bool {
        forall|a: int, b: int|
            0 <= a < b < self.view_overrides().len() ==> (#[trigger] self.view_overrides()[a]).0
                != (#[trigger] self.view_overrides()[b]).0
    }

    pub fn new() -> (t: OverrideTable)
        ensures
            t.wf(),
            t.view_overrides().len() == 0,
            forall|key: Scancode| t.spec_override(key) is None,
    {
        OverrideTable { entries: Vec::new() }
    }

    pub fn len(&self) -> (n: usize)
        ensures
            n == self.view_overrides().len(),
    {
        self.entries.len()
    }

    /// The entry at position `i`.
    pub fn at(&self, i: usize) -> (entry: (Scancode, Color))
        requires
            i < self.view_overrides().len(),
        ensures
            entry == self.view_overrides()[i as int],
    {
        self.entries[i]
    }

    pub fn lookup(&self, key: Scancode) -> (color: Option<Color>)
        ensures
            color == self.spec_override(key),
    {
        let mut i: usize = 0;
        assert(self.entries@.skip(0) =~= self.entries@);
        while i < self.entries.len()
            invariant
                i <= self.entries@.len(),
                assoc_override(self.entries@.skip(i as int), key) == assoc_override(
                    self.entries@,
                    key,
                ),
            decreases self.entries@.len() - i,
        {
            let ghost pre = self.entries@.skip(i as int);
            assert(pre[0] == self.entries@[i as int]);
            if self.entries[i].0 == key {
                return Some(self.entries[i].1);
            }
            assert(pre.skip(1) =~= self.entries@.skip(i as int + 1));
            i = i + 1;
        }
        None
    }

    /// Overrides `key` with `color`, replacing a previous override.
    pub fn set(&mut self, key: Scancode, color: Color)
        requires
            old(self).wf(),
        ensures
            final(self).wf(),
            final(self).spec_override(key) == Some(color),
            forall|other: Scancode|
                other != key ==> final(self).spec_override(other) == old(self).spec_override(
                    other,
                ),
    {
        self.remove(key);
        assert forall|other: Scancode|
            assoc_override(self.entries@.push((key, color)), other) == if other == key {
                Some(color)
            } else {
                assoc_override(self.entries@, other)
            } by {
            lemma_assoc_override_push(self.entries@, other, (key, color));
        }
        proof {
            assert forall|a: int|
                0 <= a < self.entries@.len() implies (#[trigger] self.entries@[a]).0 != key by {
                if self.entries@[a].0 == key {
                    lemma_assoc_override_of_entry(self.entries@, a);
                }
            }
            assert forall|a: int, b: int|
                0 <= a < b < self.entries@.push((key, color)).len() implies (
            #[trigger] self.entries@.push((key, color))[a]).0 != (#[trigger] self.entries@.push(
                (key, color),
            )[b]).0 by {
                if b < self.entries@.len() {
                    assert(self.entries@.push((key, color))[a] == self.entries@[a]);
                    assert(self.entries@.push((key, color))[b] == self.entries@[b]);
                } else {
                    assert(self.entries@.push((key, color))[a] == self.entries@[a]);
                    assert(self.entries@.push((key, color))[b] == (key, color));
                }
            }
        }
        self.entries.push((key, color));
    }

    /// Removes the override of `key`, if any.
    pub fn remove(&mut self, key: Scancode)
        requires
            old(self).wf(),
        ensures
            final(self).wf(),
            final(self).spec_override(key) is None,
            forall|other: Scancode|
                other != key ==> final(self).spec_override(other) == old(self).spec_override(
                    other,
                ),
    {
        let ghost orig = self.entries@;
        let mut kept: Vec<(Scancode, Color)> = Vec::new();
        let mut i: usize = 0;
        while i < self.entries.len()
            invariant
                i <= self.entries@.len(),
                self.entries@ == orig,
                old(self).wf(),
                orig == old(self).view_overrides(),
                kept@ == orig.take(i as int).filter(|e: (Scancode, Color)| e.0 != key),
            decreases self.entries@.len() - i,
        {
            let entry = self.entries[i];
            if entry.0 != key {
                kept.push(entry);
            }
            proof {
                reveal(Seq::filter);
                assert(orig.take(i as int + 1).drop_last() =~= orig.take(i as int));
                assert(orig.take(i as int + 1).last() == orig[i as int]);
            }
            i = i + 1;
        }
        assert(orig.take(orig.len() as int) =~= orig);
        self.entries = kept;
        proof {
            let pred = |e: (Scancode, Color)| e.0 != key;
            let filtered = orig.filter(pred);
            assert forall|a: int, b: int|
                0 <= a < b < filtered.len() implies (#[trigger] filtered[a]).0 != (
            #[trigger] filtered[b]).0 by {
                lemma_override_filter_pair_distinct(orig, pred, a, b);
            }
            lemma_override_filter_lookup(orig, key);
            assert forall|other: Scancode|
                other != key implies assoc_override(filtered, other) == assoc_override(
                orig,
                other,
            ) by {
                lemma_override_filter_other(orig, key, other);
            }
        }
    }
}

/// No entry of the filtered table overrides the removed key.
proof fn lemma_override_filter_lookup(s: Seq<(Scancode, Color)>, key: Scancode)
    ensures
        assoc_override(s.filter(|e: (Scancode, Color)| e.0 != key), key) is None,
    decreases s.len(),
{
    reveal(Seq::filter);
    let pred = |e: (Scancode, Color)| e.0 != key;
    if s.len() == 0 {
    } else {
        lemma_override_filter_lookup(s.drop_last(), key);
        if pred(s.last()) {
            lemma_assoc_override_push(s.drop_last().filter(pred), key, s.last());
            assert(s.filter(pred) == s.drop_last().filter(pred).push(s.last()));
        } else {
            assert(s.filter(pred) == s.drop_last().filter(pred));
        }
    }
}

/// Filtering one key out leaves every other key's lookup unchanged.
proof fn lemma_override_filter_other(s: Seq<(Scancode, Color)>, key: Scancode, other: Scancode)
    requires
        other != key,
    ensures
        assoc_override(s.filter(|e: (Scancode, Color)| e.0 != key), other) == assoc_override(
            s,
            other,
        ),
    decreases s.len(),
{
    reveal(Seq::filter);
    let pred = |e: (Scancode, Color)| e.0 != key;
    if s.len() == 0 {
    } else {
        lemma_override_filter_other(s.drop_last(), key, other);
        lemma_assoc_override_push(s.drop_last(), other, s.last());
        if pred(s.last()) {
            assert(s.filter(pred) == s.drop_last().filter(pred).push(s.last()));
            lemma_assoc_override_push(s.drop_last().filter(pred), other, s.last());
        } else {
            assert(s.filter(pred) == s.drop_last().filter(pred));
            assert(s.last().0 != other);
        }
        assert(s.drop_last().push(s.last()) =~= s);
    }
}

/// Pairwise distinct keys survive filtering.
proof fn lemma_override_filter_pair_distinct(
    s: Seq<(Scancode, Color)>,
    pred: spec_fn((Scancode, Color)) -> bool,
    a: int,
    b: int,
)
    requires
        forall|x: int, y: int| 0 <= x < y < s.len() ==> (#[trigger] s[x]).0 != (#[trigger] s[y]).0,
        0 <= a < b < s.filter(pred).len(),
    ensures
        (s.filter(pred)[a]).0 != (s.filter(pred)[b]).0,
    decreases s.len(),
{
    reveal(Seq::filter);
    if s.len() == 0 {
    } else {
        let filtered = s.filter(pred);
        let prev = s.drop_last().filter(pred);
        assert forall|x: int, y: int|
            0 <= x < y < s.drop_last().len() implies (#[trigger] s.drop_last()[x]).0 != (
        #[trigger] s.drop_last()[y]).0 by {
            assert(s.drop_last()[x] == s[x]);
            assert(s.drop_last()[y] == s[y]);
        }
        if pred(s.last()) {
            assert(filtered == prev.push(s.last()));
            if b < prev.len() {
                lemma_override_filter_pair_distinct(s.drop_last(), pred, a, b);
            } else {
                assert(filtered[b] == s.last());
                assert(filtered[a] == prev[a]);
                assert(prev.contains(prev[a]));
                s.drop_last().lemma_filter_contains_rev(pred, prev[a]);
                let k = choose|k: int|
                    0 <= k < s.drop_last().len() && s.drop_last()[k] == prev[a];
                assert(s[k] == prev[a]);
                assert(s.last() == s[s.len() - 1]);
            }
        } else {
            assert(filtered == prev);
            lemma_override_filter_pair_distinct(s.drop_last(), pred, a, b);
        }
    }
}

} // verus!
