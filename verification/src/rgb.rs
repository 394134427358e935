//! Lighting data model: device-native animated effects and static themes.
//! A theme either assigns colors to sets of keys or configures one of the
//! device's parametric effects; the two are mutually exclusive on the wire.

use vstd::prelude::*;

pub use crate::color::Color;
use crate::config::Keygroups;
use crate::scancode::Scancode;

verus! {

/// A device-native animated effect, by its wire code.
#[derive(Copy, Clone, Debug, Eq, PartialEq, Structural)]
pub enum Effect {
    Off,
    Static,
    Cycle,
    ColorWave,
}

/// The two independently addressable lighting groups.
#[derive(Copy, Clone, Eq, PartialEq, Hash, Structural)]
pub enum EffectGroup {
    Logo,
    Keys,
}

impl EffectGroup {
    /// Wire code of the group in the "set effect" command.
    pub open spec fn spec_code(self) -> u8 {
        match self {
            EffectGroup::Logo => 0u8,
            EffectGroup::Keys => 1u8,
        }
    }

    pub fn code(self) -> (c: u8)
        ensures
            c == self.spec_code(),
    {
        match self {
            EffectGroup::Logo => 0,
            EffectGroup::Keys => 1,
        }
    }
}

/// A selection of keys in a theme: one key, a list, or a named group
/// resolved against the configuration's keygroup table at apply time.
#[derive(Clone, Debug, Eq, PartialEq)]
pub enum KeySelection {
    Single(Scancode),
    Multiple(Vec<Scancode>),
    Keygroup(String),
}

/// Direction parameter of the color-wave effect, by its wire code.
#[derive(Copy, Clone, Eq, PartialEq, Hash, Debug, Structural)]
pub enum EffectDirection {
    Horizontal,
    Vertical,
    CenterOut,
    CenterIn,
    ReverseHorizontal,
    ReverseVertical,
}

impl EffectDirection {
    /// Wire code of the direction in the "set effect" command.
    pub open spec fn spec_code(self) -> u8 {
        match self {
            EffectDirection::Horizontal => 0x01u8,
            EffectDirection::Vertical => 0x02u8,
            EffectDirection::CenterOut => 0x03u8,
            EffectDirection::CenterIn => 0x08u8,
            EffectDirection::ReverseHorizontal => 0x06u8,
            EffectDirection::ReverseVertical => 0x07u8,
        }
    }

    pub fn code(self) -> (c: u8)
        ensures
            c == self.spec_code(),
    {
        match self {
            EffectDirection::Horizontal => 0x01,
            EffectDirection::Vertical => 0x02,
            EffectDirection::CenterOut => 0x03,
            EffectDirection::CenterIn => 0x08,
            EffectDirection::ReverseHorizontal => 0x06,
            EffectDirection::ReverseVertical => 0x07,
        }
    }
}

/// Full configuration of one animated effect.
#[derive(Copy, Clone, Debug, Eq, PartialEq, Structural)]
pub enum EffectConfiguration {
    Off,
    Static { color: Color },
    Breathing { color: Color, duration: u16, brightness: u8 },
    Cycle { duration: u16, brightness: u8 },
    ColorWave { direction: EffectDirection, duration: u16, brightness: u8 },
    Ripple { color: Color, duration: u16 },
}

/// One color applied to a set of key selections.
#[derive(Clone, Debug, Eq, PartialEq)]
pub struct ColorAssignment {
    pub color: Color,
    pub keys: Vec<KeySelection>,
}

/// A named lighting configuration: a static per-key color assignment or an
/// animated effect.
#[derive(Clone, Debug, Eq, PartialEq)]
pub enum Theme {
    Static(Vec<ColorAssignment>),
    Effect(EffectConfiguration),
}

/// A device-ready lighting table: each color with the keys it covers.
pub type ScancodeAssignments = Vec<(Color, Vec<Scancode>)>;

impl KeySelection {
    /// The keys this selection covers: itself for a single key or a list,
    /// and the named group's keys (empty if the name is unknown) for a
    /// keygroup reference.
    pub open spec fn spec_scancodes(self, keygroups: Keygroups) -> Seq<Scancode> {
        match self {
            KeySelection::Single(scancode) => seq![scancode],
            KeySelection::Multiple(scancodes) => scancodes@,
            KeySelection::Keygroup(group_name) => match keygroups.spec_get(group_name@) {
                Some(group) => group@,
                None => Seq::empty(),
            },
        }
    }

    pub fn scancodes(&self, keygroups: &Keygroups) -> (codes: Vec<Scancode>)
        ensures
            codes@ == self.spec_scancodes(*keygroups),
    {
        match self {
            KeySelection::Single(scancode) => {
                let mut codes: Vec<Scancode> = Vec::new();
                codes.push(*scancode);
                assert(codes@ =~= seq![*scancode]);
                codes
            },
            KeySelection::Multiple(scancodes) => copy_scancodes(scancodes),
            KeySelection::Keygroup(group_name) => {
                match keygroups.get(group_name) {
                    Some(group) => copy_scancodes(group),
                    None => Vec::new(),
                }
            },
        }
    }
}

/// Copies a key list (key lists are shared between themes and the keygroup
/// table, so callers get their own).
fn copy_scancodes(scancodes: &Vec<Scancode>) -> (codes: Vec<Scancode>)
    ensures
        codes@ == scancodes@,
{
    let mut codes: Vec<Scancode> = Vec::new();
    let mut i: usize = 0;
    while i < scancodes.len()
        invariant
            i <= scancodes@.len(),
            codes@ == scancodes@.take(i as int),
        decreases scancodes@.len() - i,
    {
        codes.push(scancodes[i]);
        assert(codes@ =~= scancodes@.take(i as int + 1));
        i = i + 1;
    }
    assert(codes@ =~= scancodes@);
    codes
}

impl ColorAssignment {
    /// All keys this assignment colors, in selection order.
    pub open spec fn spec_scancodes(self, keygroups: Keygroups) -> Seq<Scancode>
        decreases self.keys@.len(),
    {
        spec_selection_scancodes(self.keys@, keygroups)
    }

    pub fn scancodes(&self, keygroups: &Keygroups) -> (codes: Vec<Scancode>)
        ensures
            codes@ == self.spec_scancodes(*keygroups),
    {
        let mut codes: Vec<Scancode> = Vec::new();
        let mut i: usize = 0;
        while i < self.keys.len()
            invariant
                i <= self.keys@.len(),
                codes@ == spec_selection_scancodes(self.keys@.take(i as int), *keygroups),
            decreases self.keys@.len() - i,
        {
            let mut more = self.keys[i].scancodes(keygroups);
            codes.append(&mut more);
            proof {
                lemma_selection_scancodes_push(
                    self.keys@.take(i as int),
                    self.keys@[i as int],
                    *keygroups,
                );
                assert(self.keys@.take(i as int).push(self.keys@[i as int]) =~= self.keys@.take(
                    i as int + 1,
                ));
            }
            i = i + 1;
        }
        assert(self.keys@.take(self.keys@.len() as int) =~= self.keys@);
        codes
    }
}

/// The keys covered by a list of selections, flattened in order.
pub open spec fn spec_selection_scancodes(selections: Seq<KeySelection>, keygroups: Keygroups) -> Seq<
    Scancode,
>
    decreases selections.len(),
{
    if selections.len() == 0 {
        Seq::empty()
    } else {
        spec_selection_scancodes(selections.drop_last(), keygroups)
            + selections.last().spec_scancodes(keygroups)
    }
}

proof fn lemma_selection_scancodes_push(
    selections: Seq<KeySelection>,
    s: KeySelection,
    keygroups: Keygroups,
)
    ensures
        spec_selection_scancodes(selections.push(s), keygroups) == spec_selection_scancodes(
            selections,
            keygroups,
        ) + s.spec_scancodes(keygroups),
{
    assert(selections.push(s).drop_last() =~= selections);
    assert(selections.push(s).last() == s);
}

impl Theme {
    /// The device-ready color table of a static theme, one entry per color
    /// assignment, in order; an effect theme has none.
    pub open spec fn spec_scancode_assignments(self, keygroups: Keygroups) -> Option<
        Seq<(Color, Seq<Scancode>)>,
    > {
        match self {
            Theme::Static(assignments) => Some(
                Seq::new(
                    assignments@.len(),
                    |i: int| (assignments@[i].color, assignments@[i].spec_scancodes(keygroups)),
                ),
            ),
            Theme::Effect(_) => None,
        }
    }

    /// Flattens a static theme into a device-friendly map of color to
    /// scancodes; `None` for an effect theme.
    pub fn scancode_assignments(&self, keygroups: &Keygroups) -> (r: Option<ScancodeAssignments>)
        ensures
            match r {
                Some(table) => {
                    &&& self.spec_scancode_assignments(*keygroups) matches Some(spec_table)
                    &&& table@.len() == spec_table.len()
                    &&& forall|i: int|
                        0 <= i < table@.len() ==> (#[trigger] table@[i]).0 == spec_table[i].0
                            && table@[i].1@ == spec_table[i].1
                },
                None => self.spec_scancode_assignments(*keygroups) is None,
            },
    {
        match self {
            Theme::Static(assignments) => {
                let ghost spec_table = self.spec_scancode_assignments(*keygroups).unwrap();
                let mut table: ScancodeAssignments = Vec::new();
                let mut i: usize = 0;
                while i < assignments.len()
                    invariant
                        i <= assignments@.len(),
                        spec_table == Seq::new(
                            assignments@.len(),
                            |j: int| (
                                assignments@[j].color,
                                assignments@[j].spec_scancodes(*keygroups),
                            ),
                        ),
                        table@.len() == i,
                        forall|j: int|
                            0 <= j < i ==> (#[trigger] table@[j]).0 == spec_table[j].0
                                && table@[j].1@ == spec_table[j].1,
                    decreases assignments@.len() - i,
                {
                    let keys = assignments[i].scancodes(keygroups);
                    table.push((assignments[i].color, keys));
                    i = i + 1;
                }
                Some(table)
            },
            Theme::Effect(_) => None,
        }
    }
}

} // verus!
