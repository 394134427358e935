//! Capability table: the device assigns each optional feature a dynamic
//! numeric id at discovery time. The table records, per logical capability,
//! the device-chosen id and its key metadata, and keeps a reverse index from
//! dynamic id to capability used to demultiplex key interrupts. A dynamic id
//! of 0 means the feature is unsupported on this unit and is tolerated.

use vstd::prelude::*;

use crate::events::KeyType;

verus! {

/// A logical capability whose presence and dynamic id must be discovered.
#[derive(Copy, Clone, Debug, PartialEq, Eq, Hash, Structural)]
pub enum Capability {
    GKeys,
    ModeSwitching,
    MacroRecording,
    BrightnessAdjustment,
    GameMode,
}

impl Capability {
    /// The fixed 16-bit identifier used in the discovery command.
    pub open spec fn spec_id(self) -> u16 {
        match self {
            Capability::GKeys => 0x8010u16,
            Capability::ModeSwitching => 0x8020u16,
            Capability::MacroRecording => 0x8030u16,
            Capability::BrightnessAdjustment => 0x8040u16,
            Capability::GameMode => 0x4522u16,
        }
    }

    pub fn id(self) -> (id: u16)
        ensures
            id == self.spec_id(),
    {
        match self {
            Capability::GKeys => 0x8010,
            Capability::ModeSwitching => 0x8020,
            Capability::MacroRecording => 0x8030,
            Capability::BrightnessAdjustment => 0x8040,
            Capability::GameMode => 0x4522,
        }
    }

    /// The key group that this capability's keys report under.
    pub open spec fn spec_key_type(self) -> KeyType {
        match self {
            Capability::GKeys => KeyType::GKey,
            Capability::ModeSwitching => KeyType::Mode,
            Capability::MacroRecording => KeyType::MacroRecord,
            Capability::BrightnessAdjustment => KeyType::Light,
            Capability::GameMode => KeyType::GameMode,
        }
    }

    pub fn key_type(self) -> (t: KeyType)
        ensures
            t == self.spec_key_type(),
    {
        match self {
            Capability::GKeys => KeyType::GKey,
            Capability::ModeSwitching => KeyType::Mode,
            Capability::MacroRecording => KeyType::MacroRecord,
            Capability::BrightnessAdjustment => KeyType::Light,
            Capability::GameMode => KeyType::GameMode,
        }
    }
}

/// What discovery learned about one capability. A dynamic id of 0 marks the
/// capability as unsupported; the metadata fields are then absent.
#[derive(Clone, Debug)]
pub struct CapabilityData {
    pub id: u8,
    pub key_type: Option<KeyType>,
    pub key_count: Option<u8>,
    pub raw: Option<Vec<u8>>,
}

impl Default for CapabilityData {
    fn default() -> (d: CapabilityData)
        ensures
            d.id == 0,
            d.key_type is None,
            d.key_count is None,
            d.raw is None,
    {
        CapabilityData { id: 0, key_type: None, key_count: None, raw: None }
    }
}

/// First-match lookup of a capability's data in the entry list.
pub open spec fn assoc_data(s: Seq<(Capability, CapabilityData)>, c: Capability) -> Option<
    CapabilityData,
>
    decreases s.len(),
{
    if s.len() == 0 {
        None
    } else if s[0].0 == c {
        Some(s[0].1)
    } else {
        assoc_data(s.skip(1), c)
    }
}

/// First-match lookup of a dynamic id in the reverse index.
pub open spec fn assoc_reverse(s: Seq<(u8, Capability)>, id: u8) -> Option<Capability>
    decreases s.len(),
{
    if s.len() == 0 {
        None
    } else if s[0].0 == id {
        Some(s[0].1)
    } else {
        assoc_reverse(s.skip(1), id)
    }
}

proof fn lemma_assoc_data_push(s: Seq<(Capability, CapabilityData)>, c: Capability, e: (
    Capability,
    CapabilityData,
))
    ensures
        assoc_data(s.push(e), c) == if assoc_data(s, c) is Some {
            assoc_data(s, c)
        } else if e.0 == c {
            Some(e.1)
        } else {
            None
        },
    decreases s.len(),
{
    if s.len() == 0 {
        assert(s.push(e)[0] == e);
        assert(s.push(e).skip(1) =~= Seq::<(Capability, CapabilityData)>::empty());
        assert(s.push(e).len() == 1);
        assert(assoc_data(s, c) is None);
        if e.0 == c {
            assert(assoc_data(s.push(e), c) == Some(e.1));
        } else {
            assert(assoc_data(s.push(e), c) == assoc_data(s.push(e).skip(1), c));
            assert(assoc_data(s.push(e), c) is None);
        }
    } else {
        assert(s.push(e)[0] == s[0]);
        assert(s.push(e).skip(1) =~= s.skip(1).push(e));
        lemma_assoc_data_push(s.skip(1), c, e);
    }
}

proof fn lemma_assoc_reverse_push(s: Seq<(u8, Capability)>, id: u8, e: (u8, Capability))
    ensures
        assoc_reverse(s.push(e), id) == if assoc_reverse(s, id) is Some {
            assoc_reverse(s, id)
        } else if e.0 == id {
            Some(e.1)
        } else {
            None
        },
    decreases s.len(),
{
    if s.len() == 0 {
        assert(s.push(e)[0] == e);
        assert(s.push(e).skip(1) =~= Seq::<(u8, Capability)>::empty());
        assert(assoc_reverse(s, id) is None);
        if e.0 == id {
            assert(assoc_reverse(s.push(e), id) == Some(e.1));
        } else {
            assert(assoc_reverse(s.push(e), id) == assoc_reverse(s.push(e).skip(1), id));
            assert(assoc_reverse(s.push(e), id) is None);
        }
    } else {
        assert(s.push(e)[0] == s[0]);
        assert(s.push(e).skip(1) =~= s.skip(1).push(e));
        lemma_assoc_reverse_push(s.skip(1), id, e);
    }
}

/// The capability table of one device session: populated once per capability
/// by the discovery handshake, read-only thereafter.
pub struct CapabilityTable {
    entries: Vec<(Capability, CapabilityData)>,
    reverse: Vec<(u8, Capability)>,
}

impl CapabilityTable {
    /// What discovery recorded for `c`, if it ran.
    pub closed spec fn spec_data(self, c: Capability) -> Option<CapabilityData> {
        assoc_data(self.entries@, c)
    }

    /// The capability that the device reports under dynamic id `id`.
    pub closed spec fn spec_reverse(self, id: u8) -> Option<Capability> {
        assoc_reverse(self.reverse@, id)
    }

    /// The reverse index never maps the "unsupported" id 0, and maps each id
    /// at most once.
    pub closed spec fn wf(self) -> bool {
        &&& forall|j: int| 0 <= j < self.reverse@.len() ==> (#[trigger] self.reverse@[j]).0 != 0
        &&& forall|j: int, k: int|
            0 <= j < k < self.reverse@.len() ==> (#[trigger] self.reverse@[j]).0 != (
            #[trigger] self.reverse@[k]).0
    }

    pub fn new() -> (t: CapabilityTable)
        ensures
            t.wf(),
            forall|c: Capability| t.spec_data(c) is None,
            forall|id: u8| t.spec_reverse(id) is None,
    {
        CapabilityTable { entries: Vec::new(), reverse: Vec::new() }
    }

    pub fn data(&self, c: Capability) -> (d: Option<&CapabilityData>)
        ensures
            match d {
                Some(data) => self.spec_data(c) == Some(*data),
                None => self.spec_data(c) is None,
            },
    {
        let mut i: usize = 0;
        assert(self.entries@.skip(0) =~= self.entries@);
        while i < self.entries.len()
            invariant
                i <= self.entries@.len(),
                assoc_data(self.entries@.skip(i as int), c) == assoc_data(self.entries@, c),
            decreases self.entries@.len() - i,
        {
            let ghost pre = self.entries@.skip(i as int);
            assert(pre[0] == self.entries@[i as int]);
            if self.entries[i].0 == c {
                return Some(&self.entries[i].1);
            }
            assert(pre.skip(1) =~= self.entries@.skip(i as int + 1));
            i = i + 1;
        }
        None
    }

    pub fn reverse_lookup(&self, id: u8) -> (c: Option<Capability>)
        ensures
            c == self.spec_reverse(id),
    {
        let mut i: usize = 0;
        assert(self.reverse@.skip(0) =~= self.reverse@);
        while i < self.reverse.len()
            invariant
                i <= self.reverse@.len(),
                assoc_reverse(self.reverse@.skip(i as int), id) == assoc_reverse(self.reverse@, id),
            decreases self.reverse@.len() - i,
        {
            let ghost pre = self.reverse@.skip(i as int);
            assert(pre[0] == self.reverse@[i as int]);
            if self.reverse[i].0 == id {
                return Some(self.reverse[i].1);
            }
            assert(pre.skip(1) =~= self.reverse@.skip(i as int + 1));
            i = i + 1;
        }
        None
    }

    /// Records the outcome of discovering `c`. A dynamic id of 0 leaves the
    /// reverse index untouched; a non-zero id populates exactly one reverse
    /// index entry, mapping that id to `c`, and disturbs no other id.
    pub fn record(&mut self, c: Capability, data: CapabilityData)
        requires
            old(self).wf(),
            old(self).spec_data(c) is None,
            data.id != 0 ==> old(self).spec_reverse(data.id) is None,
        ensures
            final(self).wf(),
            final(self).spec_data(c) == Some(data),
            forall|x: Capability| x != c ==> final(self).spec_data(x) == old(self).spec_data(x),
            data.id == 0 ==> forall|x: u8|
                final(self).spec_reverse(x) == old(self).spec_reverse(x),
            data.id != 0 ==> final(self).spec_reverse(data.id) == Some(c),
            data.id != 0 ==> forall|x: u8|
                x != data.id ==> final(self).spec_reverse(x) == old(self).spec_reverse(x),
    {
        let id = data.id;
        proof {
            lemma_assoc_data_push(self.entries@, c, (c, data));
        }
        assert forall|x: Capability| x != c implies assoc_data(
            self.entries@.push((c, data)),
            x,
        ) == assoc_data(self.entries@, x) by {
            lemma_assoc_data_push(self.entries@, x, (c, data));
        }
        self.entries.push((c, data));
        if id != 0 {
            assert forall|x: u8|
                assoc_reverse(self.reverse@.push((id, c)), x) == if x == id {
                    Some(c)
                } else {
                    assoc_reverse(self.reverse@, x)
                } by {
                lemma_assoc_reverse_push(self.reverse@, x, (id, c));
            }
            proof {
                if exists|j: int|
                    0 <= j < self.reverse@.len() && (#[trigger] self.reverse@[j]).0 == id {
                    let j = choose|j: int|
                        0 <= j < self.reverse@.len() && (#[trigger] self.reverse@[j]).0 == id;
                    lemma_assoc_some_of_entry(self.reverse@, j);
                }
            }
            self.reverse.push((id, c));
        }
    }
}

/// If some entry in the reverse index carries `id`, lookup finds one.
proof fn lemma_assoc_some_of_entry(s: Seq<(u8, Capability)>, j: int)
    requires
        0 <= j < s.len(),
    ensures
        assoc_reverse(s, s[j].0) is Some,
    decreases s.len(),
{
    if j == 0 {
    } else if s[0].0 == s[j].0 {
    } else {
        assert(s.skip(1)[j - 1] == s[j]);
        lemma_assoc_some_of_entry(s.skip(1), j - 1);
    }
}

} // verus!
