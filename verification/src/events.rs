//! Event translator: turns raw interrupt payloads into semantic device
//! events by diffing the current bitmask of a key group against the last
//! observed one. A set bit that was clear becomes a key-down, a cleared bit
//! that was set becomes a key-up; unchanged bits produce nothing. Key
//! numbering within a group is 1-based.

use vstd::prelude::*;

use crate::capability::CapabilityTable;

verus! {

/// The logical key group a capability's keys belong to.
#[derive(PartialEq, Eq, Hash, Clone, Copy, Debug, Structural)]
pub enum KeyType {
    GKey,
    Mode,
    GameMode,
    MacroRecord,
    Light,
    MediaControl,
}

/// Media keys are reported through their own fixed interrupt format.
#[derive(PartialEq, Eq, Hash, Clone, Copy, Debug, Structural)]
pub enum MediaKey {
    Next,
    Previous,
    PlayPause,
    VolumeUp,
    VolumeDown,
    Mute,
}

/// A semantic event decoded from a device interrupt.
#[derive(PartialEq, Eq, Clone, Copy, Debug, Structural)]
pub enum DeviceEvent {
    KeyDown(KeyType, u8),
    KeyUp(KeyType, u8),
    MediaKeyUp(MediaKey),
    MediaKeyDown(MediaKey),
    BrightnessLevelChanged(u8),
}

/// Whether bit `bit` of `mask` is set.
pub open spec fn bit_set(mask: u8, bit: u8) -> bool
    recommends
        bit < 8,
{
    (mask >> bit) & 1 == 1
}

pub fn test_bit(mask: u8, bit: u8) -> (b: bool)
    requires
        bit < 8,
    ensures
        b == bit_set(mask, bit),
{
    (mask >> bit) & 1 == 1
}

/// The events (none or one) that a change of bit `bit` in a key-group
/// bitmask produces: a key-down if the bit is now set, a key-up if it is now
/// clear, nothing if it did not change. Bit `b` is key number `b + 1`.
pub open spec fn event_for_bit(key_type: KeyType, previous: u8, current: u8, bit: u8) -> Seq<
    DeviceEvent,
>
    recommends
        bit < 8,
{
    if bit_set(previous, bit) != bit_set(current, bit) {
        if bit_set(current, bit) {
            seq![DeviceEvent::KeyDown(key_type, (bit + 1) as u8)]
        } else {
            seq![DeviceEvent::KeyUp(key_type, (bit + 1) as u8)]
        }
    } else {
        Seq::empty()
    }
}

/// All events for the bits `0 .. count` of a key group, in ascending bit
/// order.
pub open spec fn spec_key_events(key_type: KeyType, previous: u8, current: u8, count: nat) -> Seq<
    DeviceEvent,
>
    recommends
        count <= 8,
    decreases count,
{
    if count == 0 {
        Seq::empty()
    } else {
        spec_key_events(key_type, previous, current, (count - 1) as nat) + event_for_bit(
            key_type,
            previous,
            current,
            (count - 1) as u8,
        )
    }
}

/// Diffs two bitmasks of a key group and emits one event per changed bit.
pub fn key_events_for_change(key_type: KeyType, previous: u8, current: u8, key_count: u8) -> (events:
    Vec<DeviceEvent>)
    requires
        key_count <= 8,
    ensures
        events@ == spec_key_events(key_type, previous, current, key_count as nat),
{
    let mut events: Vec<DeviceEvent> = Vec::new();
    let mut bit: u8 = 0;
    while bit < key_count
        invariant
            bit <= key_count <= 8,
            events@ == spec_key_events(key_type, previous, current, bit as nat),
        decreases key_count - bit,
    {
        let was_set = test_bit(previous, bit);
        let now_set = test_bit(current, bit);
        if was_set != now_set {
            if now_set {
                events.push(DeviceEvent::KeyDown(key_type, bit + 1));
            } else {
                events.push(DeviceEvent::KeyUp(key_type, bit + 1));
            }
        }
        assert(events@ =~= spec_key_events(key_type, previous, current, (bit + 1) as nat));
        bit = bit + 1;
    }
    events
}

/// How often `e` occurs in `events`.
pub open spec fn occurrences(events: Seq<DeviceEvent>, e: DeviceEvent) -> nat
    decreases events.len(),
{
    if events.len() == 0 {
        0
    } else {
        occurrences(events.drop_last(), e) + if events.last() == e {
            1nat
        } else {
            0nat
        }
    }
}

proof fn lemma_occurrences_add(a: Seq<DeviceEvent>, b: Seq<DeviceEvent>, e: DeviceEvent)
    ensures
        occurrences(a + b, e) == occurrences(a, e) + occurrences(b, e),
    decreases b.len(),
{
    if b.len() == 0 {
        assert(a + b =~= a);
    } else {
        lemma_occurrences_add(a, b.drop_last(), e);
        assert((a + b).drop_last() =~= a + b.drop_last());
        assert((a + b).last() == b.last());
    }
}

proof fn lemma_occurrences_singleton(x: DeviceEvent, e: DeviceEvent)
    ensures
        occurrences(seq![x], e) == if x == e {
            1nat
        } else {
            0nat
        },
{
    assert(seq![x].drop_last() =~= Seq::<DeviceEvent>::empty());
    assert(occurrences(Seq::<DeviceEvent>::empty(), e) == 0);
    assert(seq![x].last() == x);
}

/// How often `e` occurs among the events of one bit: once when the bit
/// changed and `e` is the matching key-down or key-up, never otherwise.
proof fn lemma_occurrences_event_for_bit(
    key_type: KeyType,
    previous: u8,
    current: u8,
    bit: u8,
    e: DeviceEvent,
)
    requires
        bit < 8,
    ensures
        occurrences(event_for_bit(key_type, previous, current, bit), e) == if bit_set(previous, bit)
            != bit_set(current, bit) && e == (if bit_set(current, bit) {
            DeviceEvent::KeyDown(key_type, (bit + 1) as u8)
        } else {
            DeviceEvent::KeyUp(key_type, (bit + 1) as u8)
        }) {
            1nat
        } else {
            0nat
        },
{
    if bit_set(previous, bit) != bit_set(current, bit) {
        if bit_set(current, bit) {
            lemma_occurrences_singleton(DeviceEvent::KeyDown(key_type, (bit + 1) as u8), e);
        } else {
            lemma_occurrences_singleton(DeviceEvent::KeyUp(key_type, (bit + 1) as u8), e);
        }
    } else {
        assert(occurrences(Seq::<DeviceEvent>::empty(), e) == 0);
    }
}

/// No event in the group's event list carries a key number above the group's
/// key count.
proof fn lemma_key_events_number_bound(
    key_type: KeyType,
    previous: u8,
    current: u8,
    count: nat,
    n: u8,
)
    requires
        count <= 8,
        n > count,
    ensures
        occurrences(spec_key_events(key_type, previous, current, count), DeviceEvent::KeyDown(key_type, n))
            == 0,
        occurrences(spec_key_events(key_type, previous, current, count), DeviceEvent::KeyUp(key_type, n))
            == 0,
    decreases count,
{
    if count == 0 {
    } else {
        lemma_key_events_number_bound(key_type, previous, current, (count - 1) as nat, n);
        lemma_occurrences_add(
            spec_key_events(key_type, previous, current, (count - 1) as nat),
            event_for_bit(key_type, previous, current, (count - 1) as u8),
            DeviceEvent::KeyDown(key_type, n),
        );
        lemma_occurrences_add(
            spec_key_events(key_type, previous, current, (count - 1) as nat),
            event_for_bit(key_type, previous, current, (count - 1) as u8),
            DeviceEvent::KeyUp(key_type, n),
        );
        lemma_occurrences_event_for_bit(
            key_type,
            previous,
            current,
            (count - 1) as u8,
            DeviceEvent::KeyDown(key_type, n),
        );
        lemma_occurrences_event_for_bit(
            key_type,
            previous,
            current,
            (count - 1) as u8,
            DeviceEvent::KeyUp(key_type, n),
        );
    }
}

/// The translator emits, per changed bit, exactly one event — a key-down if
/// and only if the bit is now set — and no event at all for an unchanged
/// bit.
pub proof fn lemma_translator_exact(
    key_type: KeyType,
    previous: u8,
    current: u8,
    count: u8,
    bit: u8,
)
    requires
        bit < count,
        count <= 8,
    ensures
        ({
            let events = spec_key_events(key_type, previous, current, count as nat);
            let down = DeviceEvent::KeyDown(key_type, (bit + 1) as u8);
            let up = DeviceEvent::KeyUp(key_type, (bit + 1) as u8);
            &&& (bit_set(previous, bit) != bit_set(current, bit) && bit_set(current, bit))
                ==> occurrences(events, down) == 1 && occurrences(events, up) == 0
            &&& (bit_set(previous, bit) != bit_set(current, bit) && !bit_set(current, bit))
                ==> occurrences(events, up) == 1 && occurrences(events, down) == 0
            &&& bit_set(previous, bit) == bit_set(current, bit) ==> occurrences(events, down) == 0
                && occurrences(events, up) == 0
        }),
    decreases count,
{
    let down = DeviceEvent::KeyDown(key_type, (bit + 1) as u8);
    let up = DeviceEvent::KeyUp(key_type, (bit + 1) as u8);
    let prefix = spec_key_events(key_type, previous, current, (count - 1) as nat);
    let tail = event_for_bit(key_type, previous, current, (count - 1) as u8);
    lemma_occurrences_add(prefix, tail, down);
    lemma_occurrences_add(prefix, tail, up);
    lemma_occurrences_event_for_bit(key_type, previous, current, (count - 1) as u8, down);
    lemma_occurrences_event_for_bit(key_type, previous, current, (count - 1) as u8, up);
    if bit == count - 1 {
        lemma_key_events_number_bound(
            key_type,
            previous,
            current,
            (count - 1) as nat,
            (bit + 1) as u8,
        );
    } else {
        lemma_translator_exact(key_type, previous, current, (count - 1) as u8, bit);
    }
}

/// The media key reported on bit `bit` of a media-key interrupt bitmask.
/// Bit 2 is unassigned on the reference device.
pub open spec fn media_key_for_bit(bit: u8) -> Option<MediaKey> {
    if bit == 0 {
        Some(MediaKey::Next)
    } else if bit == 1 {
        Some(MediaKey::Previous)
    } else if bit == 3 {
        Some(MediaKey::PlayPause)
    } else if bit == 4 {
        Some(MediaKey::VolumeUp)
    } else if bit == 5 {
        Some(MediaKey::VolumeDown)
    } else if bit == 6 {
        Some(MediaKey::Mute)
    } else {
        None
    }
}

/// The events (none or one) that a change of bit `bit` of the media bitmask
/// produces.
pub open spec fn media_event_for_bit(previous: u8, current: u8, bit: u8) -> Seq<DeviceEvent>
    recommends
        bit < 8,
{
    match media_key_for_bit(bit) {
        Some(key) => {
            if bit_set(previous, bit) != bit_set(current, bit) {
                if bit_set(current, bit) {
                    seq![DeviceEvent::MediaKeyDown(key)]
                } else {
                    seq![DeviceEvent::MediaKeyUp(key)]
                }
            } else {
                Seq::empty()
            }
        },
        None => Seq::empty(),
    }
}

/// All media-key events for the bits `0 .. count`, in ascending bit order.
pub open spec fn spec_media_events(previous: u8, current: u8, count: nat) -> Seq<DeviceEvent>
    recommends
        count <= 8,
    decreases count,
{
    if count == 0 {
        Seq::empty()
    } else {
        spec_media_events(previous, current, (count - 1) as nat) + media_event_for_bit(
            previous,
            current,
            (count - 1) as u8,
        )
    }
}

/// Number of media-key bits carried by a media interrupt.
pub const MEDIA_KEY_BITS: u8 = 7;

/// Diffs two media bitmasks and emits one event per changed, assigned bit.
pub fn media_events_for_change(previous: u8, current: u8) -> (events: Vec<DeviceEvent>)
    ensures
        events@ == spec_media_events(previous, current, MEDIA_KEY_BITS as nat),
{
    let mut events: Vec<DeviceEvent> = Vec::new();
    let mut bit: u8 = 0;
    while bit < MEDIA_KEY_BITS
        invariant
            bit <= MEDIA_KEY_BITS,
            events@ == spec_media_events(previous, current, bit as nat),
        decreases MEDIA_KEY_BITS - bit,
    {
        let key: Option<MediaKey> = match bit {
            0 => Some(MediaKey::Next),
            1 => Some(MediaKey::Previous),
            3 => Some(MediaKey::PlayPause),
            4 => Some(MediaKey::VolumeUp),
            5 => Some(MediaKey::VolumeDown),
            6 => Some(MediaKey::Mute),
            _ => None,
        };
        if let Some(key) = key {
            let was_set = test_bit(previous, bit);
            let now_set = test_bit(current, bit);
            if was_set != now_set {
                if now_set {
                    events.push(DeviceEvent::MediaKeyDown(key));
                } else {
                    events.push(DeviceEvent::MediaKeyUp(key));
                }
            }
        }
        assert(events@ =~= spec_media_events(previous, current, (bit + 1) as nat));
        bit = bit + 1;
    }
    events
}

/// The last observed bitmask of each key group: the state the translator
/// diffs new interrupts against. It is mutated only by the translator.
pub struct KeyBitmasks {
    pub gkey: u8,
    pub mode: u8,
    pub game_mode: u8,
    pub macro_record: u8,
    pub light: u8,
    pub media_control: u8,
}

impl KeyBitmasks {
    pub open spec fn spec_get(self, t: KeyType) -> u8 {
        match t {
            KeyType::GKey => self.gkey,
            KeyType::Mode => self.mode,
            KeyType::GameMode => self.game_mode,
            KeyType::MacroRecord => self.macro_record,
            KeyType::Light => self.light,
            KeyType::MediaControl => self.media_control,
        }
    }

    pub open spec fn spec_set(self, t: KeyType, v: u8) -> KeyBitmasks {
        match t {
            KeyType::GKey => KeyBitmasks { gkey: v, ..self },
            KeyType::Mode => KeyBitmasks { mode: v, ..self },
            KeyType::GameMode => KeyBitmasks { game_mode: v, ..self },
            KeyType::MacroRecord => KeyBitmasks { macro_record: v, ..self },
            KeyType::Light => KeyBitmasks { light: v, ..self },
            KeyType::MediaControl => KeyBitmasks { media_control: v, ..self },
        }
    }

    /// All groups start from an all-clear bitmask.
    pub fn new() -> (m: KeyBitmasks)
        ensures
            forall|t: KeyType| m.spec_get(t) == 0u8,
    {
        KeyBitmasks { gkey: 0, mode: 0, game_mode: 0, macro_record: 0, light: 0, media_control: 0 }
    }

    pub fn get(&self, t: KeyType) -> (v: u8)
        ensures
            v == self.spec_get(t),
    {
        match t {
            KeyType::GKey => self.gkey,
            KeyType::Mode => self.mode,
            KeyType::GameMode => self.game_mode,
            KeyType::MacroRecord => self.macro_record,
            KeyType::Light => self.light,
            KeyType::MediaControl => self.media_control,
        }
    }

    pub fn set(&mut self, t: KeyType, v: u8)
        ensures
            *final(self) == old(self).spec_set(t, v),
    {
        match t {
            KeyType::GKey => self.gkey = v,
            KeyType::Mode => self.mode = v,
            KeyType::GameMode => self.game_mode = v,
            KeyType::MacroRecord => self.macro_record = v,
            KeyType::Light => self.light = v,
            KeyType::MediaControl => self.media_control = v,
        }
    }
}

/// Key count of a group, clamped to the width of its one-byte bitmask.
pub open spec fn clamped_key_count(key_count: u8) -> u8 {
    if key_count > 8 {
        8u8
    } else {
        key_count
    }
}

/// What one raw interrupt buffer means, given the capability table and the
/// last observed bitmasks: the events it produces and the bitmask state left
/// behind. A media interrupt starts with `0x03`; a capability key interrupt
/// starts with the standard header and names its capability by dynamic id at
/// offset 2. Unrecognized headers, unknown dynamic ids and malformed (short)
/// buffers produce no events and change nothing.
pub open spec fn spec_translate(masks: KeyBitmasks, table: CapabilityTable, buffer: Seq<u8>) -> (
    Seq<DeviceEvent>,
    KeyBitmasks,
) {
    if buffer.len() >= 2 && buffer[0] == 0x03u8 {
        (
            spec_media_events(masks.media_control, buffer[1], MEDIA_KEY_BITS as nat),
            masks.spec_set(KeyType::MediaControl, buffer[1]),
        )
    } else if buffer.len() >= 3 && buffer[0] == 0x11u8 && buffer[1] == 0xffu8 {
        match table.spec_reverse(buffer[2]) {
            Some(capability) => match table.spec_data(capability) {
                Some(data) => match (data.key_type, data.key_count) {
                    (Some(KeyType::Light), _) => {
                        if buffer.len() >= 6 {
                            (seq![DeviceEvent::BrightnessLevelChanged(buffer[5])], masks)
                        } else {
                            (Seq::empty(), masks)
                        }
                    },
                    (Some(key_type), Some(key_count)) => {
                        if buffer.len() >= 5 {
                            (
                                spec_key_events(
                                    key_type,
                                    masks.spec_get(key_type),
                                    buffer[4],
                                    clamped_key_count(key_count) as nat,
                                ),
                                masks.spec_set(key_type, buffer[4]),
                            )
                        } else {
                            (Seq::empty(), masks)
                        }
                    },
                    _ => (Seq::empty(), masks),
                },
                None => (Seq::empty(), masks),
            },
            None => (Seq::empty(), masks),
        }
    } else {
        (Seq::empty(), masks)
    }
}

/// What a whole batch of interrupt buffers means, processed in arrival
/// order, each one against the bitmask state the previous ones left behind.
pub open spec fn spec_translate_all(
    masks: KeyBitmasks,
    table: CapabilityTable,
    buffers: Seq<Vec<u8>>,
) -> (Seq<DeviceEvent>, KeyBitmasks)
    decreases buffers.len(),
{
    if buffers.len() == 0 {
        (Seq::empty(), masks)
    } else {
        let rest = spec_translate_all(masks, table, buffers.drop_last());
        let last = spec_translate(rest.1, table, buffers.last()@);
        (rest.0 + last.0, last.1)
    }
}

/// Translates one raw interrupt buffer into semantic events, updating the
/// stored bitmask of the group it reports on.
pub fn events_from_interrupt(
    masks: &mut KeyBitmasks,
    table: &CapabilityTable,
    buffer: &Vec<u8>,
) -> (events: Vec<DeviceEvent>)
    ensures
        events@ == spec_translate(*old(masks), *table, buffer@).0,
        *final(masks) == spec_translate(*old(masks), *table, buffer@).1,
{
    if buffer.len() >= 2 && buffer[0] == 0x03 {
        let current = buffer[1];
        let previous = masks.get(KeyType::MediaControl);
        let events = media_events_for_change(previous, current);
        masks.set(KeyType::MediaControl, current);
        return events;
    }
    if buffer.len() >= 3 && buffer[0] == 0x11 && buffer[1] == 0xff {
        if let Some(capability) = table.reverse_lookup(buffer[2]) {
            if let Some(data) = table.data(capability) {
                match (data.key_type, data.key_count) {
                    (Some(KeyType::Light), _) => {
                        if buffer.len() >= 6 {
                            let mut events: Vec<DeviceEvent> = Vec::new();
                            events.push(DeviceEvent::BrightnessLevelChanged(buffer[5]));
                            assert(events@ =~= seq![
                                DeviceEvent::BrightnessLevelChanged(buffer@[5]),
                            ]);
                            return events;
                        }
                    },
                    (Some(key_type), Some(key_count)) => {
                        if buffer.len() >= 5 {
                            let current = buffer[4];
                            let previous = masks.get(key_type);
                            let count = if key_count > 8 {
                                8
                            } else {
                                key_count
                            };
                            let events = key_events_for_change(key_type, previous, current, count);
                            masks.set(key_type, current);
                            return events;
                        }
                    },
                    _ => {},
                }
            }
        }
    }
    Vec::new()
}

} // verus!
