//! The macro slot table: per (mode, G-key) bookkeeping of a started macro.
//! A slot is created when a macro task is spawned and removed only by the
//! orchestrator, when the task is observed finished or on a forced clear.
//! A given (mode, G-key) pair has at most one slot.

use vstd::prelude::*;

use crate::macros::ActivationType;

verus! {

/// One started macro: where it is bound and how it is activated.
#[derive(Copy, Clone, Debug, PartialEq, Eq, Structural)]
pub struct MacroSlot {
    pub mode: u8,
    pub gkey: u8,
    pub activation: ActivationType,
}

/// First-match lookup of the slot bound to (mode, gkey).
pub open spec fn assoc_slot(s: Seq<MacroSlot>, mode: u8, gkey: u8) -> Option<MacroSlot>
    decreases s.len(),
{
    if s.len() == 0 {
        None
    } else if s[0].mode == mode && s[0].gkey == gkey {
        Some(s[0])
    } else {
        assoc_slot(s.skip(1), mode, gkey)
    }
}

proof fn lemma_assoc_slot_push(s: Seq<MacroSlot>, mode: u8, gkey: u8, e: MacroSlot)
    ensures
        assoc_slot(s.push(e), mode, gkey) == if assoc_slot(s, mode, gkey) is Some {
            assoc_slot(s, mode, gkey)
        } else if e.mode == mode && e.gkey == gkey {
            Some(e)
        } else {
            None
        },
    decreases s.len(),
{
    if s.len() == 0 {
        assert(s.push(e)[0] == e);
        assert(s.push(e).skip(1) =~= Seq::<MacroSlot>::empty());
        assert(assoc_slot(s, mode, gkey) is None);
        if e.mode == mode && e.gkey == gkey {
            assert(assoc_slot(s.push(e), mode, gkey) == Some(e));
        } else {
            assert(assoc_slot(s.push(e), mode, gkey) == assoc_slot(s.push(e).skip(1), mode, gkey));
        }
    } else {
        assert(s.push(e)[0] == s[0]);
        assert(s.push(e).skip(1) =~= s.skip(1).push(e));
        lemma_assoc_slot_push(s.skip(1), mode, gkey, e);
    }
}

/// If some entry is bound to (mode, gkey), lookup finds one.
proof fn lemma_assoc_slot_of_entry(s: Seq<MacroSlot>, j: int)
    requires
        0 <= j < s.len(),
    ensures
        assoc_slot(s, s[j].mode, s[j].gkey) is Some,
    decreases s.len(),
{
    if j == 0 {
    } else if s[0].mode == s[j].mode && s[0].gkey == s[j].gkey {
    } else {
        assert(s.skip(1)[j - 1] == s[j]);
        lemma_assoc_slot_of_entry(s.skip(1), j - 1);
    }
}

/// The slot table of one device session.
pub struct SlotTable {
    entries: Vec<MacroSlot>,
}

impl SlotTable {
    /// All live slots, oldest first.
    pub closed spec fn view_slots(self) -> Seq<MacroSlot> {
        self.entries@
    }

    /// The slot bound to (mode, gkey), if a macro was started there.
    pub open spec fn spec_slot(self, mode: u8, gkey: u8) -> Option<MacroSlot> {
        assoc_slot(self.view_slots(), mode, gkey)
    }

    /// At most one slot per (mode, gkey).
    pub open spec fn wf(self) -> bool {
        forall|a: int, b: int|
            0 <= a < b < self.view_slots().len() ==> !((#[trigger] self.view_slots()[a]).mode == (
            #[trigger] self.view_slots()[b]).mode && self.view_slots()[a].gkey
                == self.view_slots()[b].gkey)
    }

    pub fn new() -> (t: SlotTable)
        ensures
            t.wf(),
            t.view_slots().len() == 0,
    {
        SlotTable { entries: Vec::new() }
    }

    /// How many slots are live.
    pub fn len(&self) -> (n: usize)
        ensures
            n == self.view_slots().len(),
    {
        self.entries.len()
    }

    /// The slot at position `i`.
    pub fn at(&self, i: usize) -> (slot: MacroSlot)
        requires
            i < self.view_slots().len(),
        ensures
            slot == self.view_slots()[i as int],
    {
        self.entries[i]
    }

    pub fn lookup(&self, mode: u8, gkey: u8) -> (slot: Option<MacroSlot>)
        ensures
            slot == self.spec_slot(mode, gkey),
    {
        let mut i: usize = 0;
        assert(self.entries@.skip(0) =~= self.entries@);
        while i < self.entries.len()
            invariant
                i <= self.entries@.len(),
                assoc_slot(self.entries@.skip(i as int), mode, gkey) == assoc_slot(
                    self.entries@,
                    mode,
                    gkey,
                ),
            decreases self.entries@.len() - i,
        {
            let ghost pre = self.entries@.skip(i as int);
            assert(pre[0] == self.entries@[i as int]);
            if self.entries[i].mode == mode && self.entries[i].gkey == gkey {
                return Some(self.entries[i]);
            }
            assert(pre.skip(1) =~= self.entries@.skip(i as int + 1));
            i = i + 1;
        }
        None
    }

    /// Binds (mode, gkey) to a new slot, replacing a previous one.
    pub fn bind(&mut self, slot: MacroSlot)
        requires
            old(self).wf(),
        ensures
            final(self).wf(),
            final(self).spec_slot(slot.mode, slot.gkey) == Some(slot),
            forall|m: u8, g: u8|
                !(m == slot.mode && g == slot.gkey) ==> final(self).spec_slot(m, g) == old(
                    self,
                ).spec_slot(m, g),
            final(self).view_slots().len() <= old(self).view_slots().len() + 1,
    {
        self.remove(slot.mode, slot.gkey);
        assert forall|m: u8, g: u8|
            assoc_slot(self.entries@.push(slot), m, g) == if m == slot.mode && g == slot.gkey {
                Some(slot)
            } else {
                assoc_slot(self.entries@, m, g)
            } by {
            lemma_assoc_slot_push(self.entries@, m, g, slot);
            if !(m == slot.mode && g == slot.gkey) {
            } else {
                if assoc_slot(self.entries@, m, g) is Some {
                    lemma_assoc_slot_none_of_absent(self.entries@, m, g);
                }
            }
        }
        proof {
            assert forall|a: int|
                0 <= a < self.entries@.len() implies !((#[trigger] self.entries@[a]).mode
                == slot.mode && self.entries@[a].gkey == slot.gkey) by {
                if self.entries@[a].mode == slot.mode && self.entries@[a].gkey == slot.gkey {
                    lemma_assoc_slot_of_entry(self.entries@, a);
                }
            }
            assert forall|a: int, b: int|
                0 <= a < b < self.entries@.push(slot).len() implies !((
            #[trigger] self.entries@.push(slot)[a]).mode == (
            #[trigger] self.entries@.push(slot)[b]).mode && self.entries@.push(slot)[a].gkey
                == self.entries@.push(slot)[b].gkey) by {
                if b < self.entries@.len() {
                    assert(self.entries@.push(slot)[a] == self.entries@[a]);
                    assert(self.entries@.push(slot)[b] == self.entries@[b]);
                } else {
                    assert(self.entries@.push(slot)[a] == self.entries@[a]);
                    assert(self.entries@.push(slot)[b] == slot);
                }
            }
        }
        self.entries.push(slot);
    }

    /// Removes the slot bound to (mode, gkey), if any.
    pub fn remove(&mut self, mode: u8, gkey: u8)
        requires
            old(self).wf(),
        ensures
            final(self).wf(),
            final(self).spec_slot(mode, gkey) is None,
            forall|m: u8, g: u8|
                !(m == mode && g == gkey) ==> final(self).spec_slot(m, g) == old(self).spec_slot(
                    m,
                    g,
                ),
            final(self).view_slots().len() <= old(self).view_slots().len(),
            forall|j: int|
                0 <= j < final(self).view_slots().len() ==> old(self).view_slots().contains(
                    #[trigger] final(self).view_slots()[j],
                ),
    {
        let ghost orig = self.entries@;
        let mut kept: Vec<MacroSlot> = Vec::new();
        let mut i: usize = 0;
        while i < self.entries.len()
            invariant
                i <= self.entries@.len(),
                self.entries@ == orig,
                old(self).wf(),
                orig == old(self).view_slots(),
                kept@ == orig.take(i as int).filter(
                    |s: MacroSlot| !(s.mode == mode && s.gkey == gkey),
                ),
            decreases self.entries@.len() - i,
        {
            let slot = self.entries[i];
            if !(slot.mode == mode && slot.gkey == gkey) {
                kept.push(slot);
            }
            proof {
                reveal(Seq::filter);
                assert(orig.take(i as int + 1).drop_last() =~= orig.take(i as int));
                assert(orig.take(i as int + 1).last() == orig[i as int]);
            }
            i = i + 1;
        }
        assert(orig.take(orig.len() as int) =~= orig);
        self.entries = kept;
        proof {
            let pred = |s: MacroSlot| !(s.mode == mode && s.gkey == gkey);
            let filtered = orig.filter(pred);
            orig.lemma_filter_len(pred);
            assert forall|j: int|
                0 <= j < filtered.len() implies orig.contains(#[trigger] filtered[j]) by {
                assert(filtered.contains(filtered[j]));
                orig.lemma_filter_contains_rev(pred, filtered[j]);
            }
            assert forall|a: int, b: int|
                0 <= a < b < filtered.len() implies !((#[trigger] filtered[a]).mode == (
            #[trigger] filtered[b]).mode && filtered[a].gkey == filtered[b].gkey) by {
                lemma_filter_pair_distinct(orig, pred, a, b);
            }
            lemma_filter_slot_lookup(orig, mode, gkey);
            assert forall|m: u8, g: u8|
                !(m == mode && g == gkey) implies assoc_slot(filtered, m, g) == assoc_slot(
                orig,
                m,
                g,
            ) by {
                lemma_filter_slot_other(orig, mode, gkey, m, g);
            }
        }
    }

    /// Removes every slot whose pair is in `finished`: the cleanup step of
    /// an indicator tick, evicting slots whose task was observed done.
    pub fn remove_finished(&mut self, finished: &Vec<(u8, u8)>)
        requires
            old(self).wf(),
        ensures
            final(self).wf(),
            final(self).view_slots() == old(self).view_slots().filter(
                |s: MacroSlot| !finished@.contains((s.mode, s.gkey)),
            ),
            forall|m: u8, g: u8|
                finished@.contains((m, g)) ==> final(self).spec_slot(m, g) is None,
            forall|m: u8, g: u8|
                !finished@.contains((m, g)) ==> final(self).spec_slot(m, g) == old(self).spec_slot(
                    m,
                    g,
                ),
    {
        let ghost orig = self.entries@;
        let mut kept: Vec<MacroSlot> = Vec::new();
        let mut i: usize = 0;
        while i < self.entries.len()
            invariant
                i <= self.entries@.len(),
                self.entries@ == orig,
                old(self).wf(),
                orig == old(self).view_slots(),
                kept@ == orig.take(i as int).filter(
                    |s: MacroSlot| !finished@.contains((s.mode, s.gkey)),
                ),
            decreases self.entries@.len() - i,
        {
            let slot = self.entries[i];
            if !contains_pair(finished, slot.mode, slot.gkey) {
                kept.push(slot);
            }
            proof {
                reveal(Seq::filter);
                assert(orig.take(i as int + 1).drop_last() =~= orig.take(i as int));
                assert(orig.take(i as int + 1).last() == orig[i as int]);
            }
            i = i + 1;
        }
        assert(orig.take(orig.len() as int) =~= orig);
        self.entries = kept;
        proof {
            let pred = |s: MacroSlot| !finished@.contains((s.mode, s.gkey));
            let filtered = orig.filter(pred);
            assert forall|a: int, b: int|
                0 <= a < b < filtered.len() implies !((#[trigger] filtered[a]).mode == (
            #[trigger] filtered[b]).mode && filtered[a].gkey == filtered[b].gkey) by {
                lemma_filter_pair_distinct(orig, pred, a, b);
            }
            assert forall|m: u8, g: u8|
                finished@.contains((m, g)) implies assoc_slot(filtered, m, g) is None by {
                lemma_pred_filter_lookup_removed(orig, pred, m, g);
            }
            assert forall|m: u8, g: u8|
                !finished@.contains((m, g)) implies assoc_slot(filtered, m, g) == assoc_slot(
                orig,
                m,
                g,
            ) by {
                lemma_pred_filter_lookup_kept(orig, pred, m, g);
            }
        }
    }

    /// Removes every slot.
    pub fn clear(&mut self)
        ensures
            final(self).wf(),
            final(self).view_slots().len() == 0,
            forall|m: u8, g: u8| final(self).spec_slot(m, g) is None,
    {
        self.entries.clear();
    }
}

/// Whether `entries` holds the pair (mode, gkey).
fn contains_pair(entries: &Vec<(u8, u8)>, mode: u8, gkey: u8) -> (found: bool)
    ensures
        found == entries@.contains((mode, gkey)),
{
    let mut i: usize = 0;
    while i < entries.len()
        invariant
            i <= entries@.len(),
            forall|j: int| 0 <= j < i ==> #[trigger] entries@[j] != (mode, gkey),
        decreases entries@.len() - i,
    {
        if entries[i].0 == mode && entries[i].1 == gkey {
            assert(entries@[i as int] == (mode, gkey));
            return true;
        }
        i = i + 1;
    }
    assert(!entries@.contains((mode, gkey)));
    false
}

/// A pair a filter predicate rejects is not found after filtering.
proof fn lemma_pred_filter_lookup_removed(
    s: Seq<MacroSlot>,
    pred: spec_fn(MacroSlot) -> bool,
    mode: u8,
    gkey: u8,
)
    requires
        forall|x: MacroSlot| x.mode == mode && x.gkey == gkey ==> !#[trigger] pred(x),
    ensures
        assoc_slot(s.filter(pred), mode, gkey) is None,
    decreases s.len(),
{
    reveal(Seq::filter);
    if s.len() == 0 {
    } else {
        lemma_pred_filter_lookup_removed(s.drop_last(), pred, mode, gkey);
        if pred(s.last()) {
            lemma_assoc_slot_push(s.drop_last().filter(pred), mode, gkey, s.last());
            assert(s.filter(pred) == s.drop_last().filter(pred).push(s.last()));
        } else {
            assert(s.filter(pred) == s.drop_last().filter(pred));
        }
    }
}

/// A pair the filter predicate accepts in full looks up the same before and
/// after filtering.
proof fn lemma_pred_filter_lookup_kept(
    s: Seq<MacroSlot>,
    pred: spec_fn(MacroSlot) -> bool,
    mode: u8,
    gkey: u8,
)
    requires
        forall|x: MacroSlot| x.mode == mode && x.gkey == gkey ==> #[trigger] pred(x),
    ensures
        assoc_slot(s.filter(pred), mode, gkey) == assoc_slot(s, mode, gkey),
    decreases s.len(),
{
    reveal(Seq::filter);
    if s.len() == 0 {
    } else {
        lemma_pred_filter_lookup_kept(s.drop_last(), pred, mode, gkey);
        lemma_assoc_slot_push(s.drop_last(), mode, gkey, s.last());
        if pred(s.last()) {
            assert(s.filter(pred) == s.drop_last().filter(pred).push(s.last()));
            lemma_assoc_slot_push(s.drop_last().filter(pred), mode, gkey, s.last());
        } else {
            assert(s.filter(pred) == s.drop_last().filter(pred));
            assert(!(s.last().mode == mode && s.last().gkey == gkey));
        }
        assert(s.drop_last().push(s.last()) =~= s);
    }
}

/// No slot of the filtered table is bound to the removed pair.
proof fn lemma_filter_slot_lookup(s: Seq<MacroSlot>, mode: u8, gkey: u8)
    ensures
        assoc_slot(s.filter(|x: MacroSlot| !(x.mode == mode && x.gkey == gkey)), mode, gkey)
            is None,
    decreases s.len(),
{
    reveal(Seq::filter);
    let pred = |x: MacroSlot| !(x.mode == mode && x.gkey == gkey);
    if s.len() == 0 {
    } else {
        lemma_filter_slot_lookup(s.drop_last(), mode, gkey);
        if pred(s.last()) {
            lemma_assoc_slot_push(s.drop_last().filter(pred), mode, gkey, s.last());
            assert(s.filter(pred) == s.drop_last().filter(pred).push(s.last()));
        } else {
            assert(s.filter(pred) == s.drop_last().filter(pred));
        }
    }
}

/// Filtering one pair out leaves every other pair's lookup unchanged.
proof fn lemma_filter_slot_other(s: Seq<MacroSlot>, mode: u8, gkey: u8, m: u8, g: u8)
    requires
        !(m == mode && g == gkey),
    ensures
        assoc_slot(s.filter(|x: MacroSlot| !(x.mode == mode && x.gkey == gkey)), m, g)
            == assoc_slot(s, m, g),
    decreases s.len(),
{
    reveal(Seq::filter);
    let pred = |x: MacroSlot| !(x.mode == mode && x.gkey == gkey);
    if s.len() == 0 {
    } else {
        lemma_filter_slot_other(s.drop_last(), mode, gkey, m, g);
        lemma_assoc_slot_push(s.drop_last(), m, g, s.last());
        if pred(s.last()) {
            assert(s.filter(pred) == s.drop_last().filter(pred).push(s.last()));
            lemma_assoc_slot_push(s.drop_last().filter(pred), m, g, s.last());
        } else {
            assert(s.filter(pred) == s.drop_last().filter(pred));
            assert(!(s.last().mode == m && s.last().gkey == g));
        }
        assert(s.drop_last().push(s.last()) =~= s);
    }
}

/// Distinct positions of a filtered sequence come from distinct positions
/// of the unfiltered one, so pairwise distinctness carries over.
proof fn lemma_filter_pair_distinct(
    s: Seq<MacroSlot>,
    pred: spec_fn(MacroSlot) -> bool,
    a: int,
    b: int,
)
    requires
        forall|x: int, y: int|
            0 <= x < y < s.len() ==> !((#[trigger] s[x]).mode == (#[trigger] s[y]).mode && s[x].gkey
                == s[y].gkey),
        0 <= a < b < s.filter(pred).len(),
    ensures
        !((s.filter(pred)[a]).mode == (s.filter(pred)[b]).mode && s.filter(pred)[a].gkey == s.filter(
            pred,
        )[b].gkey),
    decreases s.len(),
{
    reveal(Seq::filter);
    if s.len() == 0 {
    } else {
        let filtered = s.filter(pred);
        let prev = s.drop_last().filter(pred);
        assert forall|x: int, y: int|
            0 <= x < y < s.drop_last().len() implies !((#[trigger] s.drop_last()[x]).mode == (
        #[trigger] s.drop_last()[y]).mode && s.drop_last()[x].gkey == s.drop_last()[y].gkey) by {
            assert(s.drop_last()[x] == s[x]);
            assert(s.drop_last()[y] == s[y]);
        }
        if pred(s.last()) {
            assert(filtered == prev.push(s.last()));
            if b < prev.len() {
                lemma_filter_pair_distinct(s.drop_last(), pred, a, b);
            } else {
                assert(filtered[b] == s.last());
                assert(filtered[a] == prev[a]);
                assert(prev.contains(prev[a]));
                s.drop_last().lemma_filter_contains_rev(pred, prev[a]);
                let k = choose|k: int|
                    0 <= k < s.drop_last().len() && s.drop_last()[k] == prev[a];
                assert(s[k] == prev[a]);
                assert(s.last() == s[s.len() - 1]);
            }
        } else {
            assert(filtered == prev);
            lemma_filter_pair_distinct(s.drop_last(), pred, a, b);
        }
    }
}

/// A pair with no matching entry looks up to nothing (helper for bind).
proof fn lemma_assoc_slot_none_of_absent(s: Seq<MacroSlot>, mode: u8, gkey: u8)
    requires
        assoc_slot(s, mode, gkey) is Some,
    ensures
        exists|j: int| 0 <= j < s.len() && (#[trigger] s[j]).mode == mode && s[j].gkey == gkey,
    decreases s.len(),
{
    if s.len() == 0 {
    } else if s[0].mode == mode && s[0].gkey == gkey {
        assert(s[0].mode == mode && s[0].gkey == gkey);
    } else {
        lemma_assoc_slot_none_of_absent(s.skip(1), mode, gkey);
        let j = choose|j: int|
            0 <= j < s.skip(1).len() && (#[trigger] s.skip(1)[j]).mode == mode && s.skip(1)[j].gkey
                == gkey;
        assert(s[j + 1] == s.skip(1)[j]);
    }
}

} // verus!
