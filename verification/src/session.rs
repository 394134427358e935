//! The per-device session state machine: routes semantic events to the
//! macro lifecycle, tracks the active mode, recording flag, lighting state
//! and overrides, and computes the indicator updates. It decides *what* to
//! do; every outward effect is returned as data for the owning loop to
//! perform, so the machine itself stays pure.

use vstd::prelude::*;

use crate::color::Color;
use crate::config::{Configuration, Profile};
use crate::events::{DeviceEvent, KeyType, MediaKey};
use crate::macros::{ActivationType, Macro, MacroSignal};
use crate::overrides::OverrideTable;
use crate::rgb::{EffectConfiguration, EffectGroup, ScancodeAssignments, Theme};
use crate::scancode::Scancode;
use crate::slots::{MacroSlot, SlotTable};
use crate::windowsystem::WindowSystemSignal;

verus! {

/// Milliseconds between orchestrator ticks.
pub const POLL_INTERVAL: u64 = 5;

/// Milliseconds between indicator blink flips.
pub const BLINK_DELAY: u64 = 400;

/// An orchestration signal from the rest of the host.
pub enum DeviceSignal {
    Shutdown,
    ProfileChanged,
    ConfigurationReloaded,
    MediaStateChanged,
}

/// A command for the device, to be carried out by the owning loop.
pub enum DeviceCommand {
    Set4(Vec<(Scancode, Color)>),
    Set13(Color, Vec<Scancode>),
    SetAll(Color),
    Commit,
    SetModeLeds(u8),
    SetMacroRecording(bool),
    SetEffect(EffectGroup, EffectConfiguration),
    AddGameModeKeys(Vec<Scancode>),
    ResetGameModeKeys,
}

/// One outward effect the session asks for.
pub enum SessionAction {
    /// Issue a device command.
    Device(DeviceCommand),
    /// Hand a request to the window-system worker.
    WindowSystem(WindowSystemSignal),
    /// Spawn a macro task for this slot running the given macro.
    StartMacro { mode: u8, gkey: u8, configured: Macro },
    /// Send a control signal to the slot's running task.
    SignalMacro { mode: u8, gkey: u8, signal: MacroSignal },
}

/// What the keyboard currently shows: a static color table (under which
/// per-key overrides are possible) or an animated effect (which owns the
/// whole matrix).
pub enum CurrentLightingState {
    Custom(ScancodeAssignments),
    Effect(EffectConfiguration),
}

/// The base color a static color table gives to `key`: the first entry
/// covering the key, black when none does or an effect is running.
pub open spec fn spec_table_color(table: Seq<(Color, Vec<Scancode>)>, key: Scancode) -> Option<
    Color,
>
    decreases table.len(),
{
    if table.len() == 0 {
        None
    } else if table[0].1@.contains(key) {
        Some(table[0].0)
    } else {
        spec_table_color(table.skip(1), key)
    }
}

/// The state of one device session.
pub struct DeviceThread {
    pub macro_states: SlotTable,
    pub lighting_state: CurrentLightingState,
    pub blink_timer: u64,
    pub blink_state: bool,
    pub active_mode: u8,
    pub mode_count: u8,
    pub macro_recording: bool,
    pub overrides: OverrideTable,
}

impl DeviceThread {
    /// Slot and override tables keep their invariants, the indicator timer
    /// never runs past one blink period, and mode numbers stay in the
    /// device's 1-based, at-most-8-mode range.
    pub open spec fn wf(self) -> bool {
        &&& self.macro_states.wf()
        &&& self.overrides.wf()
        &&& self.blink_timer <= BLINK_DELAY
        &&& 1 <= self.active_mode <= 8
        &&& self.mode_count <= 8
    }

    /// The base color `key` would show under the current lighting state
    /// with no override: its color table entry, or black under an effect.
    pub open spec fn spec_base_color(self, key: Scancode) -> Color {
        match self.lighting_state {
            CurrentLightingState::Custom(table) => match spec_table_color(table@, key) {
                Some(color) => color,
                None => Color { r: 0u8, g: 0u8, b: 0u8 },
            },
            CurrentLightingState::Effect(_) => Color { r: 0u8, g: 0u8, b: 0u8 },
        }
    }

    /// The color `key` currently shows: its override if one is set, else its
    /// base color.
    pub open spec fn spec_displayed_color(self, key: Scancode) -> Color {
        match self.overrides.spec_override(key) {
            Some(color) => color,
            None => self.spec_base_color(key),
        }
    }

    /// A fresh session: no macros, no overrides, effect-off lighting, mode 1
    /// active, not recording.
    pub fn new(mode_count: u8) -> (t: DeviceThread)
        requires
            mode_count <= 8,
        ensures
            t.wf(),
            t.macro_states.view_slots().len() == 0,
            t.overrides.view_overrides().len() == 0,
            t.lighting_state == CurrentLightingState::Effect(EffectConfiguration::Off),
            t.active_mode == 1,
            t.mode_count == mode_count,
            t.macro_recording == false,
            t.blink_timer == 0,
            t.blink_state == false,
    {
        DeviceThread {
            macro_states: SlotTable::new(),
            lighting_state: CurrentLightingState::Effect(EffectConfiguration::Off),
            blink_timer: 0,
            blink_state: false,
            active_mode: 1,
            mode_count,
            macro_recording: false,
            overrides: OverrideTable::new(),
        }
    }

    /// The base color of `key` under the current lighting state.
    pub fn last_color_for_scancode(&self, key: Scancode) -> (color: Color)
        ensures
            color == self.spec_base_color(key),
    {
        match &self.lighting_state {
            CurrentLightingState::Custom(table) => {
                let mut i: usize = 0;
                assert(table@.skip(0) =~= table@);
                while i < table.len()
                    invariant
                        self.lighting_state == CurrentLightingState::Custom(*table),
                        i <= table@.len(),
                        spec_table_color(table@.skip(i as int), key) == spec_table_color(
                            table@,
                            key,
                        ),
                    decreases table@.len() - i,
                {
                    let ghost pre = table@.skip(i as int);
                    assert(pre[0] == table@[i as int]);
                    if contains_scancode(&table[i].1, key) {
                        assert(spec_table_color(pre, key) == Some(pre[0].0));
                        return table[i].0;
                    }
                    assert(pre.skip(1) =~= table@.skip(i as int + 1));
                    i = i + 1;
                }
                Color::black()
            },
            CurrentLightingState::Effect(_) => Color::black(),
        }
    }

    /// Sets or clears the override of `key`; no other key is touched and
    /// nothing else about the session changes.
    pub fn set_override(&mut self, key: Scancode, color: Option<Color>)
        requires
            old(self).wf(),
        ensures
            final(self).wf(),
            final(self).overrides.spec_override(key) == color,
            forall|other: Scancode|
                other != key ==> final(self).overrides.spec_override(other) == old(self).overrides.spec_override(other),
            final(self).lighting_state == old(self).lighting_state,
            final(self).macro_states == old(self).macro_states,
            final(self).active_mode == old(self).active_mode,
            final(self).mode_count == old(self).mode_count,
            final(self).blink_timer == old(self).blink_timer,
            final(self).blink_state == old(self).blink_state,
            final(self).macro_recording == old(self).macro_recording,
    {
        match color {
            Some(color) => self.overrides.set(key, color),
            None => self.overrides.remove(key),
        }
    }
}

/// Whether `keys` contains `key`.
fn contains_scancode(keys: &Vec<Scancode>, key: Scancode) -> (found: bool)
    ensures
        found == keys@.contains(key),
{
    let mut i: usize = 0;
    while i < keys.len()
        invariant
            i <= keys@.len(),
            forall|j: int| 0 <= j < i ==> keys@[j] != key,
        decreases keys@.len() - i,
    {
        if keys[i] == key {
            return true;
        }
        i = i + 1;
    }
    assert(!keys@.contains(key));
    false
}

/// Overriding a key's color and then clearing the override restores the
/// key's base color, and no other key's displayed color changes at any
/// step. The three states are one session before, during, and after an
/// override, under an unchanged lighting state.
pub proof fn lemma_override_round_trip(
    s0: DeviceThread,
    s1: DeviceThread,
    s2: DeviceThread,
    key: Scancode,
    color: Color,
)
    requires
        s0.overrides.spec_override(key) is None,
        s1.overrides.spec_override(key) == Some(color),
        forall|other: Scancode|
            other != key ==> s1.overrides.spec_override(other) == s0.overrides.spec_override(other),
        s1.lighting_state == s0.lighting_state,
        s2.overrides.spec_override(key) is None,
        forall|other: Scancode|
            other != key ==> s2.overrides.spec_override(other) == s1.overrides.spec_override(other),
        s2.lighting_state == s1.lighting_state,
    ensures
        s1.spec_displayed_color(key) == color,
        s2.spec_displayed_color(key) == s0.spec_displayed_color(key),
        s2.spec_displayed_color(key) == s0.spec_base_color(key),
        forall|other: Scancode|
            other != key ==> s1.spec_displayed_color(other) == s0.spec_displayed_color(other)
                && s2.spec_displayed_color(other) == s0.spec_displayed_color(other),
{
}

/// The stop signals a mode change sends: one per slot whose macro is
/// hold-to-repeat, in table order, across all modes.
pub open spec fn spec_hold_stop_actions(slots: Seq<MacroSlot>) -> Seq<SessionAction>
    decreases slots.len(),
{
    if slots.len() == 0 {
        Seq::empty()
    } else {
        spec_hold_stop_actions(slots.drop_last()) + if slots.last().activation
            == ActivationType::HoldToRepeat {
            seq![
                SessionAction::SignalMacro {
                    mode: slots.last().mode,
                    gkey: slots.last().gkey,
                    signal: MacroSignal::Stop,
                },
            ]
        } else {
            Seq::empty()
        }
    }
}

/// The stop signals a forced clear sends: one per slot, whatever its
/// activation kind, in table order.
pub open spec fn spec_stop_all_actions(slots: Seq<MacroSlot>) -> Seq<SessionAction>
    decreases slots.len(),
{
    if slots.len() == 0 {
        Seq::empty()
    } else {
        spec_stop_all_actions(slots.drop_last()) + seq![
            SessionAction::SignalMacro {
                mode: slots.last().mode,
                gkey: slots.last().gkey,
                signal: MacroSignal::Stop,
            },
        ]
    }
}

impl DeviceThread {
    /// Sends a stop signal to every hold-to-repeat slot in every mode: a
    /// held macro must not keep running once the operator left its mode.
    pub fn stop_all_hold_to_repeat_macros(&self) -> (acts: Vec<SessionAction>)
        ensures
            acts@ == spec_hold_stop_actions(self.macro_states.view_slots()),
    {
        let mut acts: Vec<SessionAction> = Vec::new();
        let mut i: usize = 0;
        while i < self.macro_states.len()
            invariant
                i <= self.macro_states.view_slots().len(),
                acts@ == spec_hold_stop_actions(self.macro_states.view_slots().take(i as int)),
            decreases self.macro_states.view_slots().len() - i,
        {
            let slot = self.macro_states.at(i);
            if let ActivationType::HoldToRepeat = slot.activation {
                acts.push(
                    SessionAction::SignalMacro {
                        mode: slot.mode,
                        gkey: slot.gkey,
                        signal: MacroSignal::Stop,
                    },
                );
            }
            proof {
                let slots = self.macro_states.view_slots();
                assert(slots.take(i as int + 1).drop_last() =~= slots.take(i as int));
                assert(slots.take(i as int + 1).last() == slots[i as int]);
                assert(acts@ =~= spec_hold_stop_actions(slots.take(i as int + 1)));
            }
            i = i + 1;
        }
        assert(self.macro_states.view_slots().take(self.macro_states.view_slots().len() as int)
            =~= self.macro_states.view_slots());
        acts
    }

    /// Sends a stop signal to every slot in every mode and clears the whole
    /// table at once: a macro bound to a no-longer-active profile must not
    /// keep running. Every task is told to stop, never killed.
    pub fn stop_and_remove_all_macros(&mut self) -> (acts: Vec<SessionAction>)
        requires
            old(self).wf(),
        ensures
            final(self).wf(),
            acts@ == spec_stop_all_actions(old(self).macro_states.view_slots()),
            final(self).macro_states.view_slots().len() == 0,
            forall|m: u8, g: u8| final(self).macro_states.spec_slot(m, g) is None,
            final(self).lighting_state == old(self).lighting_state,
            final(self).overrides == old(self).overrides,
            final(self).active_mode == old(self).active_mode,
            final(self).mode_count == old(self).mode_count,
            final(self).blink_timer == old(self).blink_timer,
            final(self).blink_state == old(self).blink_state,
            final(self).macro_recording == old(self).macro_recording,
    {
        let mut acts: Vec<SessionAction> = Vec::new();
        let mut i: usize = 0;
        while i < self.macro_states.len()
            invariant
                i <= self.macro_states.view_slots().len(),
                acts@ == spec_stop_all_actions(self.macro_states.view_slots().take(i as int)),
            decreases self.macro_states.view_slots().len() - i,
        {
            let slot = self.macro_states.at(i);
            acts.push(
                SessionAction::SignalMacro {
                    mode: slot.mode,
                    gkey: slot.gkey,
                    signal: MacroSignal::Stop,
                },
            );
            proof {
                let slots = self.macro_states.view_slots();
                assert(slots.take(i as int + 1).drop_last() =~= slots.take(i as int));
                assert(slots.take(i as int + 1).last() == slots[i as int]);
                assert(acts@ =~= spec_stop_all_actions(slots.take(i as int + 1)));
            }
            i = i + 1;
        }
        assert(self.macro_states.view_slots().take(self.macro_states.view_slots().len() as int)
            =~= self.macro_states.view_slots());
        self.macro_states.clear();
        acts
    }
}

/// What pressing G-key `gkey` does, relating the session before and after
/// and the emitted actions. `slot_finished` is the observed value of the
/// slot's shared finished flag at the time of the press.
///
/// With a live (unfinished) slot: a toggle macro is signalled to stop but
/// keeps its slot until the task is observed finished; a repeat macro has
/// its count restarted; a run-once or hold-to-repeat macro ignores the
/// press. With no slot, or a finished one, the bound macro (if any) is
/// started in a fresh slot.
pub open spec fn spec_keydown_outcome(
    old_t: DeviceThread,
    new_t: DeviceThread,
    config: Configuration,
    profile: Profile,
    gkey: u8,
    slot_finished: bool,
    acts: Seq<SessionAction>,
) -> bool {
    let mode = old_t.active_mode;
    let existing = old_t.macro_states.spec_slot(mode, gkey);
    if existing is Some && !slot_finished {
        let slot = existing->Some_0;
        match slot.activation {
            ActivationType::Toggle => acts == seq![
                SessionAction::SignalMacro { mode, gkey, signal: MacroSignal::Stop },
            ] && new_t.macro_states == old_t.macro_states,
            ActivationType::Repeat(_) => acts == seq![
                SessionAction::SignalMacro { mode, gkey, signal: MacroSignal::ResetCount },
            ] && new_t.macro_states == old_t.macro_states,
            _ => acts.len() == 0 && new_t.macro_states == old_t.macro_states,
        }
    } else {
        match profile.spec_macro_assignment(config, mode, gkey) {
            Some(assignment) => {
                if assignment.expandable(config) {
                    &&& acts.len() == 1
                    &&& acts[0] matches SessionAction::StartMacro {
                        mode: m,
                        gkey: g,
                        configured,
                    } && m == mode && g == gkey && assignment.expands_to(config, configured)
                        && new_t.macro_states.spec_slot(mode, gkey) == Some(
                        MacroSlot { mode, gkey, activation: configured.activation_type },
                    )
                    &&& forall|m2: u8, g2: u8|
                        !(m2 == mode && g2 == gkey) ==> new_t.macro_states.spec_slot(m2, g2)
                            == old_t.macro_states.spec_slot(m2, g2)
                } else {
                    acts.len() == 0 && new_t.macro_states == old_t.macro_states
                }
            },
            None => acts.len() == 0 && new_t.macro_states == old_t.macro_states,
        }
    }
}

impl DeviceThread {
    /// Handles a G-key press in the active mode.
    pub fn macro_keydown(
        &mut self,
        config: &Configuration,
        profile: &Profile,
        gkey: u8,
        slot_finished: bool,
    ) -> (acts: Vec<SessionAction>)
        requires
            old(self).wf(),
        ensures
            final(self).wf(),
            spec_keydown_outcome(
                *old(self),
                *final(self),
                *config,
                *profile,
                gkey,
                slot_finished,
                acts@,
            ),
            final(self).lighting_state == old(self).lighting_state,
            final(self).overrides == old(self).overrides,
            final(self).active_mode == old(self).active_mode,
            final(self).mode_count == old(self).mode_count,
            final(self).blink_timer == old(self).blink_timer,
            final(self).blink_state == old(self).blink_state,
            final(self).macro_recording == old(self).macro_recording,
    {
        let mode = self.active_mode;
        if let Some(slot) = self.macro_states.lookup(mode, gkey) {
            if !slot_finished {
                match slot.activation {
                    ActivationType::Toggle => {
                        let mut acts: Vec<SessionAction> = Vec::new();
                        acts.push(
                            SessionAction::SignalMacro { mode, gkey, signal: MacroSignal::Stop },
                        );
                        assert(acts@ =~= seq![
                            SessionAction::SignalMacro { mode, gkey, signal: MacroSignal::Stop },
                        ]);
                        return acts;
                    },
                    ActivationType::Repeat(_) => {
                        let mut acts: Vec<SessionAction> = Vec::new();
                        acts.push(
                            SessionAction::SignalMacro {
                                mode,
                                gkey,
                                signal: MacroSignal::ResetCount,
                            },
                        );
                        assert(acts@ =~= seq![
                            SessionAction::SignalMacro {
                                mode,
                                gkey,
                                signal: MacroSignal::ResetCount,
                            },
                        ]);
                        return acts;
                    },
                    _ => {
                        return Vec::new();
                    },
                }
            }
        }
        match profile.macro_for_gkey(config, mode, gkey) {
            Some(configured) => {
                let activation = configured.activation_type;
                self.macro_states.bind(MacroSlot { mode, gkey, activation });
                let mut acts: Vec<SessionAction> = Vec::new();
                acts.push(SessionAction::StartMacro { mode, gkey, configured });
                acts
            },
            None => Vec::new(),
        }
    }

    /// Handles a G-key release in the active mode: only a hold-to-repeat
    /// macro reacts, by being signalled to stop.
    pub fn macro_keyup(&mut self, gkey: u8) -> (acts: Vec<SessionAction>)
        requires
            old(self).wf(),
        ensures
            final(self).wf(),
            *final(self) == *old(self),
            ({
                let existing = old(self).macro_states.spec_slot(old(self).active_mode, gkey);
                if existing matches Some(slot) && slot.activation == ActivationType::HoldToRepeat {
                    acts@ == seq![
                        SessionAction::SignalMacro {
                            mode: old(self).active_mode,
                            gkey,
                            signal: MacroSignal::Stop,
                        },
                    ]
                } else {
                    acts@.len() == 0
                }
            }),
    {
        let mode = self.active_mode;
        if let Some(slot) = self.macro_states.lookup(mode, gkey) {
            if let ActivationType::HoldToRepeat = slot.activation {
                let mut acts: Vec<SessionAction> = Vec::new();
                acts.push(SessionAction::SignalMacro { mode, gkey, signal: MacroSignal::Stop });
                assert(acts@ =~= seq![
                    SessionAction::SignalMacro { mode, gkey, signal: MacroSignal::Stop },
                ]);
                return acts;
            }
        }
        Vec::new()
    }
}

/// The distinct override colors, in first-appearance order.
pub open spec fn spec_colors_seen(entries: Seq<(Scancode, Color)>) -> Seq<Color>
    decreases entries.len(),
{
    if entries.len() == 0 {
        Seq::empty()
    } else {
        let prefix = spec_colors_seen(entries.drop_last());
        if prefix.contains(entries.last().1) {
            prefix
        } else {
            prefix.push(entries.last().1)
        }
    }
}

/// The overridden keys that carry `color`, in table order.
pub open spec fn spec_keys_of_color(entries: Seq<(Scancode, Color)>, color: Color) -> Seq<Scancode>
    decreases entries.len(),
{
    if entries.len() == 0 {
        Seq::empty()
    } else {
        spec_keys_of_color(entries.drop_last(), color) + if entries.last().1 == color {
            seq![entries.last().0]
        } else {
            Seq::empty()
        }
    }
}

/// Whether `colors` contains `color`.
fn contains_color(colors: &Vec<Color>, color: Color) -> (found: bool)
    ensures
        found == colors@.contains(color),
{
    let mut i: usize = 0;
    while i < colors.len()
        invariant
            i <= colors@.len(),
            forall|j: int| 0 <= j < i ==> colors@[j] != color,
        decreases colors@.len() - i,
    {
        if colors[i].r == color.r && colors[i].g == color.g && colors[i].b == color.b {
            assert(colors@[i as int] == color);
            return true;
        }
        i = i + 1;
    }
    assert(!colors@.contains(color));
    false
}

/// The actions that reapplying a profile produces: reset the game-mode key
/// list, re-add the profile's disabled keys if it has any, then either
/// redraw the whole static theme (blank, one batch per color table entry,
/// commit) or configure the animated effect for the key group.
pub open spec fn spec_profile_actions(
    config: Configuration,
    profile: Profile,
    mode: u8,
    acts: Seq<SessionAction>,
) -> bool {
    let n_game: int = if profile.game_mode_keys is Some {
        1
    } else {
        0
    };
    &&& acts.len() >= 1 + n_game
    &&& acts[0] == SessionAction::Device(DeviceCommand::ResetGameModeKeys)
    &&& (profile.game_mode_keys matches Some(keys) ==> acts[1] matches SessionAction::Device(
        DeviceCommand::AddGameModeKeys(sent),
    ) && sent@ == keys@)
    &&& match profile.spec_theme(config, mode) {
        Some(Theme::Static(assignments)) => {
            &&& acts.len() == n_game + 3 + assignments@.len()
            &&& acts[1 + n_game] == SessionAction::Device(
                DeviceCommand::SetAll(Color { r: 0u8, g: 0u8, b: 0u8 }),
            )
            &&& forall|i: int|
                0 <= i < assignments@.len() ==> (#[trigger] acts[2 + n_game + i] matches SessionAction::Device(
                    DeviceCommand::Set13(color, keys),
                ) && color == assignments@[i].color && keys@ == assignments@[i].spec_scancodes(
                    config.keygroups,
                ))
            &&& acts[acts.len() - 1] == SessionAction::Device(DeviceCommand::Commit)
        },
        Some(Theme::Effect(effect)) => {
            &&& acts.len() == n_game + 2
            &&& acts[1 + n_game] == SessionAction::Device(
                DeviceCommand::SetEffect(EffectGroup::Keys, effect),
            )
        },
        None => acts.len() == 1 + n_game,
    }
}

/// The lighting state a profile application leaves behind: the flattened
/// color table of a static theme, the effect configuration of an effect
/// theme, and the previous state when no theme resolves.
pub open spec fn spec_profile_lighting(
    config: Configuration,
    profile: Profile,
    mode: u8,
    old_lighting: CurrentLightingState,
    new_lighting: CurrentLightingState,
) -> bool {
    match profile.spec_theme(config, mode) {
        Some(Theme::Static(assignments)) => {
            &&& new_lighting matches CurrentLightingState::Custom(table)
            &&& table@.len() == assignments@.len()
            &&& forall|i: int|
                0 <= i < table@.len() ==> (#[trigger] table@[i]).0 == assignments@[i].color
                    && table@[i].1@ == assignments@[i].spec_scancodes(config.keygroups)
        },
        Some(Theme::Effect(effect)) => new_lighting == CurrentLightingState::Effect(effect),
        None => new_lighting == old_lighting,
    }
}

/// The actions that reasserting the overrides produces: under a static
/// theme, one batch per distinct override color covering exactly the keys
/// overridden with it; nothing while an effect owns the matrix.
pub open spec fn spec_override_actions(t: DeviceThread, acts: Seq<SessionAction>) -> bool {
    match t.lighting_state {
        CurrentLightingState::Effect(_) => acts.len() == 0,
        CurrentLightingState::Custom(_) => {
            let entries = t.overrides.view_overrides();
            let colors = spec_colors_seen(entries);
            &&& acts.len() == colors.len()
            &&& forall|j: int|
                0 <= j < colors.len() ==> (#[trigger] acts[j] matches SessionAction::Device(
                    DeviceCommand::Set13(color, keys),
                ) && color == colors[j] && keys@ == spec_keys_of_color(entries, colors[j]))
        },
    }
}

impl DeviceThread {
    /// Reapplies the given profile: refreshes the game-mode key list and
    /// redraws its theme for the active mode, recording the new lighting
    /// state.
    pub fn apply_profile(&mut self, config: &Configuration, profile: &Profile) -> (acts: Vec<
        SessionAction,
    >)
        requires
            old(self).wf(),
        ensures
            final(self).wf(),
            spec_profile_actions(*config, *profile, old(self).active_mode, acts@),
            spec_profile_lighting(
                *config,
                *profile,
                old(self).active_mode,
                old(self).lighting_state,
                final(self).lighting_state,
            ),
            final(self).macro_states == old(self).macro_states,
            final(self).overrides == old(self).overrides,
            final(self).active_mode == old(self).active_mode,
            final(self).mode_count == old(self).mode_count,
            final(self).blink_timer == old(self).blink_timer,
            final(self).blink_state == old(self).blink_state,
            final(self).macro_recording == old(self).macro_recording,
    {
        let mut acts: Vec<SessionAction> = Vec::new();
        acts.push(SessionAction::Device(DeviceCommand::ResetGameModeKeys));
        if let Some(keys) = &profile.game_mode_keys {
            let mut copy: Vec<Scancode> = Vec::new();
            let mut i: usize = 0;
            while i < keys.len()
                invariant
                    i <= keys@.len(),
                    copy@ == keys@.take(i as int),
                    acts@.len() == 1,
                    acts@[0] == SessionAction::Device(DeviceCommand::ResetGameModeKeys),
                decreases keys@.len() - i,
            {
                copy.push(keys[i]);
                assert(copy@ =~= keys@.take(i as int + 1));
                i = i + 1;
            }
            assert(copy@ =~= keys@);
            acts.push(SessionAction::Device(DeviceCommand::AddGameModeKeys(copy)));
        }
        let ghost n_game: int = acts@.len() - 1;
        let theme = match profile.theme(config, self.active_mode) {
            Some(theme) => theme,
            None => {
                return acts;
            },
        };
        match theme {
            Theme::Static(_) => {
                let table = match theme.scancode_assignments(&config.keygroups) {
                    Some(table) => table,
                    None => {
                        assert(false);
                        return acts;
                    },
                };
                acts.push(SessionAction::Device(DeviceCommand::SetAll(Color::black())));
                let ghost base = acts@.len() as int;
                let mut i: usize = 0;
                while i < table.len()
                    invariant
                        i <= table@.len(),
                        base == 2 + n_game,
                        acts@.len() == base + i,
                        acts@[0] == SessionAction::Device(DeviceCommand::ResetGameModeKeys),
                        profile.game_mode_keys matches Some(keys) ==> (n_game == 1 && (
                        acts@[1] matches SessionAction::Device(DeviceCommand::AddGameModeKeys(sent))
                            && sent@ == keys@)),
                        profile.game_mode_keys is None ==> n_game == 0,
                        acts@[1 + n_game] == SessionAction::Device(
                            DeviceCommand::SetAll(Color { r: 0u8, g: 0u8, b: 0u8 }),
                        ),
                        forall|k: int|
                            0 <= k < i ==> (#[trigger] acts@[base + k] matches SessionAction::Device(
                                DeviceCommand::Set13(color, keys),
                            ) && color == table@[k].0 && keys@ == table@[k].1@),
                    decreases table@.len() - i,
                {
                    let (color, keys) = &table[i];
                    let mut copy: Vec<Scancode> = Vec::new();
                    let mut j: usize = 0;
                    while j < keys.len()
                        invariant
                            j <= keys@.len(),
                            copy@ == keys@.take(j as int),
                            i < table@.len(),
                            base == 2 + n_game,
                            acts@.len() == base + i,
                            acts@[0] == SessionAction::Device(DeviceCommand::ResetGameModeKeys),
                            profile.game_mode_keys matches Some(gm) ==> (n_game == 1 && (
                            acts@[1] matches SessionAction::Device(
                                DeviceCommand::AddGameModeKeys(sent),
                            ) && sent@ == gm@)),
                            profile.game_mode_keys is None ==> n_game == 0,
                            acts@[1 + n_game] == SessionAction::Device(
                                DeviceCommand::SetAll(Color { r: 0u8, g: 0u8, b: 0u8 }),
                            ),
                            forall|k: int|
                                0 <= k < i ==> (#[trigger] acts@[base + k] matches SessionAction::Device(
                                    DeviceCommand::Set13(c2, k2),
                                ) && c2 == table@[k].0 && k2@ == table@[k].1@),
                        decreases keys@.len() - j,
                    {
                        copy.push(keys[j]);
                        assert(copy@ =~= keys@.take(j as int + 1));
                        j = j + 1;
                    }
                    assert(copy@ =~= keys@);
                    acts.push(SessionAction::Device(DeviceCommand::Set13(*color, copy)));
                    i = i + 1;
                }
                acts.push(SessionAction::Device(DeviceCommand::Commit));
                proof {
                    let mode = old(self).active_mode;
                    assert(profile.spec_theme(*config, mode) == Some(*theme));
                    let assignments = (*theme)->Static_0;
                    assert(table@.len() == assignments@.len());
                    assert(acts@.len() == n_game + 3 + assignments@.len());
                    assert(acts@[0] == SessionAction::Device(DeviceCommand::ResetGameModeKeys));
                    assert(acts@[1 + n_game] == SessionAction::Device(
                        DeviceCommand::SetAll(Color { r: 0u8, g: 0u8, b: 0u8 }),
                    ));
                    assert(acts@[acts@.len() - 1] == SessionAction::Device(DeviceCommand::Commit));
                    assert forall|i2: int| 0 <= i2 < assignments@.len() implies (
                        #[trigger] acts@[2 + n_game + i2] matches SessionAction::Device(
                            DeviceCommand::Set13(color, keys),
                        ) && color == assignments@[i2].color && keys@
                            == assignments@[i2].spec_scancodes(config.keygroups)) by {
                        assert(acts@[base + i2] matches SessionAction::Device(
                            DeviceCommand::Set13(color, keys),
                        ) && color == table@[i2].0 && keys@ == table@[i2].1@);
                    }
                }
                self.lighting_state = CurrentLightingState::Custom(table);
                acts
            },
            Theme::Effect(effect) => {
                acts.push(
                    SessionAction::Device(DeviceCommand::SetEffect(EffectGroup::Keys, *effect)),
                );
                self.lighting_state = CurrentLightingState::Effect(*effect);
                acts
            },
        }
    }
}

proof fn lemma_assoc_override_entry(entries: Seq<(Scancode, Color)>, key: Scancode, color: Color)
    requires
        crate::overrides::assoc_override(entries, key) == Some(color),
    ensures
        exists|j: int| 0 <= j < entries.len() && #[trigger] entries[j] == (key, color),
    decreases entries.len(),
{
    if entries.len() == 0 {
    } else if entries[0].0 == key {
        assert(entries[0] == (key, color));
    } else {
        lemma_assoc_override_entry(entries.skip(1), key, color);
        let j = choose|j: int|
            0 <= j < entries.skip(1).len() && #[trigger] entries.skip(1)[j] == (key, color);
        assert(entries[j + 1] == entries.skip(1)[j]);
    }
}

proof fn lemma_keys_of_color_contains(entries: Seq<(Scancode, Color)>, j: int)
    requires
        0 <= j < entries.len(),
    ensures
        spec_keys_of_color(entries, entries[j].1).contains(entries[j].0),
    decreases entries.len(),
{
    let color = entries[j].1;
    let keys = spec_keys_of_color(entries, color);
    let prefix = spec_keys_of_color(entries.drop_last(), color);
    if j == entries.len() - 1 {
        assert(keys[prefix.len() as int] == entries[j].0);
    } else {
        assert(entries.drop_last()[j] == entries[j]);
        lemma_keys_of_color_contains(entries.drop_last(), j);
        let k = choose|k: int| 0 <= k < prefix.len() && prefix[k] == entries[j].0;
        assert(keys[k] == entries[j].0);
    }
}

proof fn lemma_colors_seen_contains(entries: Seq<(Scancode, Color)>, j: int)
    requires
        0 <= j < entries.len(),
    ensures
        spec_colors_seen(entries).contains(entries[j].1),
    decreases entries.len(),
{
    let color = entries[j].1;
    let seen = spec_colors_seen(entries);
    let prefix = spec_colors_seen(entries.drop_last());
    if j == entries.len() - 1 {
        if !prefix.contains(color) {
            assert(seen[prefix.len() as int] == color);
        }
    } else {
        assert(entries.drop_last()[j] == entries[j]);
        lemma_colors_seen_contains(entries.drop_last(), j);
        let k = choose|k: int| 0 <= k < prefix.len() && prefix[k] == color;
        if prefix.contains(entries.last().1) {
            assert(seen[k] == color);
        } else {
            assert(seen[k] == color);
        }
    }
}

/// No overridden key is missed when the overrides are reasserted: its color
/// is one of the distinct batch colors and the batch for that color lists
/// the key.
pub proof fn lemma_override_batches_cover(
    entries: Seq<(Scancode, Color)>,
    key: Scancode,
    color: Color,
)
    requires
        crate::overrides::assoc_override(entries, key) == Some(color),
    ensures
        spec_colors_seen(entries).contains(color),
        spec_keys_of_color(entries, color).contains(key),
{
    lemma_assoc_override_entry(entries, key, color);
    let j = choose|j: int| 0 <= j < entries.len() && #[trigger] entries[j] == (key, color);
    lemma_keys_of_color_contains(entries, j);
    lemma_colors_seen_contains(entries, j);
}

/// The key-combo name injected for a media key.
pub open spec fn spec_media_combo(key: MediaKey) -> Seq<char> {
    match key {
        MediaKey::Mute => "XF86AudioMute"@,
        MediaKey::PlayPause => "XF86AudioPlay"@,
        MediaKey::Next => "XF86AudioNext"@,
        MediaKey::Previous => "XF86AudioPrev"@,
        MediaKey::VolumeUp => "XF86AudioRaiseVolume"@,
        MediaKey::VolumeDown => "XF86AudioLowerVolume"@,
    }
}

impl DeviceThread {
    /// Reasserts the overrides on top of the drawn theme: one batch per
    /// distinct override color. Meaningless (and empty) while an effect owns
    /// the matrix. The recorded base lighting state is never altered, so a
    /// later override removal can still recompute the original color.
    pub fn apply_overrides(&self) -> (acts: Vec<SessionAction>)
        ensures
            spec_override_actions(*self, acts@),
    {
        match &self.lighting_state {
            CurrentLightingState::Effect(_) => Vec::new(),
            CurrentLightingState::Custom(_) => {
                let ghost entries = self.overrides.view_overrides();
                let mut seen: Vec<Color> = Vec::new();
                let mut i: usize = 0;
                while i < self.overrides.len()
                    invariant
                        i <= self.overrides.view_overrides().len(),
                        entries == self.overrides.view_overrides(),
                        seen@ == spec_colors_seen(entries.take(i as int)),
                    decreases self.overrides.view_overrides().len() - i,
                {
                    let entry = self.overrides.at(i);
                    if !contains_color(&seen, entry.1) {
                        seen.push(entry.1);
                    }
                    proof {
                        assert(entries.take(i as int + 1).drop_last() =~= entries.take(i as int));
                        assert(entries.take(i as int + 1).last() == entries[i as int]);
                    }
                    i = i + 1;
                }
                assert(entries.take(entries.len() as int) =~= entries);
                let mut acts: Vec<SessionAction> = Vec::new();
                let mut j: usize = 0;
                while j < seen.len()
                    invariant
                        j <= seen@.len(),
                        entries == self.overrides.view_overrides(),
                        seen@ == spec_colors_seen(entries),
                        self.lighting_state is Custom,
                        acts@.len() == j,
                        forall|k: int|
                            0 <= k < j ==> (#[trigger] acts@[k] matches SessionAction::Device(
                                DeviceCommand::Set13(color, keys),
                            ) && color == seen@[k] && keys@ == spec_keys_of_color(
                                entries,
                                seen@[k],
                            )),
                    decreases seen@.len() - j,
                {
                    let color = seen[j];
                    let mut keys: Vec<Scancode> = Vec::new();
                    let mut k: usize = 0;
                    while k < self.overrides.len()
                        invariant
                            k <= self.overrides.view_overrides().len(),
                            entries == self.overrides.view_overrides(),
                            keys@ == spec_keys_of_color(entries.take(k as int), color),
                        decreases self.overrides.view_overrides().len() - k,
                    {
                        let entry = self.overrides.at(k);
                        if entry.1.r == color.r && entry.1.g == color.g && entry.1.b == color.b {
                            assert(entry.1 == color);
                            keys.push(entry.0);
                        }
                        proof {
                            assert(entries.take(k as int + 1).drop_last() =~= entries.take(
                                k as int,
                            ));
                            assert(entries.take(k as int + 1).last() == entries[k as int]);
                        }
                        k = k + 1;
                    }
                    assert(entries.take(entries.len() as int) =~= entries);
                    acts.push(SessionAction::Device(DeviceCommand::Set13(color, keys)));
                    j = j + 1;
                }
                acts
            },
        }
    }

    /// Routes one semantic device event. `slot_finished` is the observed
    /// finished flag of the G-key's slot (meaningful only for G-key presses).
    pub fn handle_event(
        &mut self,
        config: &Configuration,
        profile: &Profile,
        event: &DeviceEvent,
        slot_finished: bool,
    ) -> (acts: Vec<SessionAction>)
        requires
            old(self).wf(),
        ensures
            final(self).wf(),
            match *event {
                DeviceEvent::KeyDown(KeyType::GKey, gkey) => spec_keydown_outcome(
                    *old(self),
                    *final(self),
                    *config,
                    *profile,
                    gkey,
                    slot_finished,
                    acts@,
                ) && final(self).active_mode == old(self).active_mode && final(self).lighting_state
                    == old(self).lighting_state && final(self).overrides == old(self).overrides
                    && final(self).macro_recording == old(self).macro_recording,
                DeviceEvent::KeyUp(KeyType::GKey, gkey) => *final(self) == *old(self) && ({
                    let existing = old(self).macro_states.spec_slot(old(self).active_mode, gkey);
                    if existing matches Some(slot) && slot.activation
                        == ActivationType::HoldToRepeat {
                        acts@ == seq![
                            SessionAction::SignalMacro {
                                mode: old(self).active_mode,
                                gkey,
                                signal: MacroSignal::Stop,
                            },
                        ]
                    } else {
                        acts@.len() == 0
                    }
                }),
                DeviceEvent::KeyUp(KeyType::MacroRecord, _) => final(self).macro_recording == !old(self).macro_recording && acts@ == seq![
                    SessionAction::Device(
                        DeviceCommand::SetMacroRecording(!old(self).macro_recording),
                    ),
                ] && final(self).macro_states == old(self).macro_states && final(self).lighting_state == old(self).lighting_state && final(self).overrides == old(self).overrides && final(self).active_mode == old(self).active_mode,
                DeviceEvent::KeyDown(KeyType::Mode, mode) => if 1 <= mode <= 8 {
                    &&& final(self).active_mode == mode
                    &&& final(self).blink_timer == BLINK_DELAY
                    &&& acts@ == spec_hold_stop_actions(old(self).macro_states.view_slots())
                    &&& final(self).macro_states == old(self).macro_states
                    &&& final(self).lighting_state == old(self).lighting_state
                    &&& final(self).overrides == old(self).overrides
                    &&& final(self).macro_recording == old(self).macro_recording
                } else {
                    *final(self) == *old(self) && acts@.len() == 0
                },
                DeviceEvent::MediaKeyDown(key) => *final(self) == *old(self) && acts@.len() == 1
                    && (acts@[0] matches SessionAction::WindowSystem(
                    WindowSystemSignal::SendKeyCombo(combo),
                ) && combo@ == spec_media_combo(key)),
                _ => *final(self) == *old(self) && acts@.len() == 0,
            },
    {
        match event {
            DeviceEvent::KeyDown(KeyType::GKey, number) => {
                self.macro_keydown(config, profile, *number, slot_finished)
            },
            DeviceEvent::KeyUp(KeyType::GKey, number) => self.macro_keyup(*number),
            DeviceEvent::KeyUp(KeyType::MacroRecord, _) => {
                let new_state = !self.macro_recording;
                self.macro_recording = new_state;
                let mut acts: Vec<SessionAction> = Vec::new();
                acts.push(SessionAction::Device(DeviceCommand::SetMacroRecording(new_state)));
                assert(acts@ =~= seq![
                    SessionAction::Device(DeviceCommand::SetMacroRecording(new_state)),
                ]);
                acts
            },
            DeviceEvent::KeyDown(KeyType::Mode, mode) => {
                if 1 <= *mode && *mode <= 8 {
                    self.active_mode = *mode;
                    self.blink_timer = BLINK_DELAY;
                    self.stop_all_hold_to_repeat_macros()
                } else {
                    Vec::new()
                }
            },
            DeviceEvent::MediaKeyDown(key) => {
                let combo = match key {
                    MediaKey::Mute => "XF86AudioMute".to_owned(),
                    MediaKey::PlayPause => "XF86AudioPlay".to_owned(),
                    MediaKey::Next => "XF86AudioNext".to_owned(),
                    MediaKey::Previous => "XF86AudioPrev".to_owned(),
                    MediaKey::VolumeUp => "XF86AudioRaiseVolume".to_owned(),
                    MediaKey::VolumeDown => "XF86AudioLowerVolume".to_owned(),
                };
                let mut acts: Vec<SessionAction> = Vec::new();
                acts.push(SessionAction::WindowSystem(WindowSystemSignal::SendKeyCombo(combo)));
                acts
            },
            _ => Vec::new(),
        }
    }
}

/// A running toggle macro pressed a second time keeps its slot — it leaves
/// the table only once the task is observed finished — and the only effect
/// of the press is one stop signal to that task.
pub proof fn lemma_toggle_keydown_keeps_slot(
    old_t: DeviceThread,
    new_t: DeviceThread,
    config: Configuration,
    profile: Profile,
    gkey: u8,
    acts: Seq<SessionAction>,
)
    requires
        spec_keydown_outcome(old_t, new_t, config, profile, gkey, false, acts),
        old_t.macro_states.spec_slot(old_t.active_mode, gkey) matches Some(slot)
            && slot.activation == ActivationType::Toggle,
    ensures
        new_t.macro_states.spec_slot(old_t.active_mode, gkey) == old_t.macro_states.spec_slot(
            old_t.active_mode,
            gkey,
        ),
        acts == seq![
            SessionAction::SignalMacro {
                mode: old_t.active_mode,
                gkey,
                signal: MacroSignal::Stop,
            },
        ],
{
}

/// Every hold-to-repeat slot gets a stop signal on a mode change, in
/// whatever mode it lives.
pub proof fn lemma_mode_change_stops_held(slots: Seq<MacroSlot>, j: int)
    requires
        0 <= j < slots.len(),
        slots[j].activation == ActivationType::HoldToRepeat,
    ensures
        spec_hold_stop_actions(slots).contains(
            SessionAction::SignalMacro {
                mode: slots[j].mode,
                gkey: slots[j].gkey,
                signal: MacroSignal::Stop,
            },
        ),
    decreases slots.len(),
{
    let action = SessionAction::SignalMacro {
        mode: slots[j].mode,
        gkey: slots[j].gkey,
        signal: MacroSignal::Stop,
    };
    let acts = spec_hold_stop_actions(slots);
    let prefix = spec_hold_stop_actions(slots.drop_last());
    if j == slots.len() - 1 {
        assert(acts[prefix.len() as int] == action);
    } else {
        assert(slots.drop_last()[j] == slots[j]);
        lemma_mode_change_stops_held(slots.drop_last(), j);
        let k = choose|k: int| 0 <= k < prefix.len() && prefix[k] == action;
        assert(acts[k] == action);
    }
}

/// Every slot gets a stop signal on a forced clear, whatever its activation
/// kind.
pub proof fn lemma_clear_stops_every_slot(slots: Seq<MacroSlot>, j: int)
    requires
        0 <= j < slots.len(),
    ensures
        spec_stop_all_actions(slots).contains(
            SessionAction::SignalMacro {
                mode: slots[j].mode,
                gkey: slots[j].gkey,
                signal: MacroSignal::Stop,
            },
        ),
    decreases slots.len(),
{
    let action = SessionAction::SignalMacro {
        mode: slots[j].mode,
        gkey: slots[j].gkey,
        signal: MacroSignal::Stop,
    };
    let acts = spec_stop_all_actions(slots);
    let prefix = spec_stop_all_actions(slots.drop_last());
    if j == slots.len() - 1 {
        assert(acts[prefix.len() as int] == action);
    } else {
        assert(slots.drop_last()[j] == slots[j]);
        lemma_clear_stops_every_slot(slots.drop_last(), j);
        let k = choose|k: int| 0 <= k < prefix.len() && prefix[k] == action;
        assert(acts[k] == action);
    }
}

/// The red-or-off blink color for the new blink phase.
pub open spec fn spec_blink_color(blink_state: bool) -> Color {
    if blink_state {
        Color { r: 255u8, g: 0u8, b: 0u8 }
    } else {
        Color { r: 0u8, g: 0u8, b: 0u8 }
    }
}

/// The per-G-key color updates of one indicator tick: for every slot in the
/// active mode, the blink color while its macro still runs, and the key's
/// base color once the task was observed finished. Slots in other modes (and
/// slots whose key number names no G-key) draw nothing.
pub open spec fn spec_indicator_key_data(
    t: DeviceThread,
    slots: Seq<MacroSlot>,
    finished: Seq<(u8, u8)>,
    blink_color: Color,
) -> Seq<(Scancode, Color)>
    decreases slots.len(),
{
    if slots.len() == 0 {
        Seq::empty()
    } else {
        let slot = slots.last();
        spec_indicator_key_data(t, slots.drop_last(), finished, blink_color) + if slot.mode
            == t.active_mode {
            match Scancode::spec_from_gkey(slot.gkey) {
                Some(key) => seq![
                    (
                        key,
                        if finished.contains((slot.mode, slot.gkey)) {
                            t.spec_base_color(key)
                        } else {
                            blink_color
                        },
                    ),
                ],
                None => Seq::empty(),
            }
        } else {
            Seq::empty()
        }
    }
}

/// Whether some slot lives in `mode`.
pub open spec fn spec_mode_has_slots(slots: Seq<MacroSlot>, mode: u8) -> bool {
    exists|j: int| 0 <= j < slots.len() && (#[trigger] slots[j]).mode == mode
}

/// The mode-LED bitmask over modes `1 ..= count`: the active mode's LED is
/// always lit; another mode's LED is lit only in the on-phase of the blink
/// while that mode has at least one live slot.
pub open spec fn spec_mode_led_mask(
    slots: Seq<MacroSlot>,
    active: u8,
    blink: bool,
    count: u8,
) -> u8
    recommends
        count <= 8,
    decreases count,
{
    if count == 0 {
        0u8
    } else {
        spec_mode_led_mask(slots, active, blink, (count - 1) as u8) | (if count == active || (
        spec_mode_has_slots(slots, count) && blink) {
            1u8 << ((count - 1) as u8)
        } else {
            0u8
        })
    }
}

impl DeviceThread {
    /// Whether some slot lives in `mode`.
    fn mode_has_slots(&self, mode: u8) -> (found: bool)
        ensures
            found == spec_mode_has_slots(self.macro_states.view_slots(), mode),
    {
        let mut i: usize = 0;
        while i < self.macro_states.len()
            invariant
                i <= self.macro_states.view_slots().len(),
                forall|j: int|
                    0 <= j < i ==> (#[trigger] self.macro_states.view_slots()[j]).mode != mode,
            decreases self.macro_states.view_slots().len() - i,
        {
            if self.macro_states.at(i).mode == mode {
                return true;
            }
            i = i + 1;
        }
        false
    }

    /// One indicator tick. Accumulates the poll interval until a blink
    /// period has passed; then flips the blink phase, redraws the G-keys of
    /// the active mode's slots (blinking the running ones, restoring the
    /// finished ones to their base color), evicts every slot in `finished`,
    /// and recomputes the mode LEDs. The caller skips this entirely while an
    /// effect owns the matrix.
    pub fn update_macro_indicators(&mut self, finished: &Vec<(u8, u8)>) -> (acts: Vec<
        SessionAction,
    >)
        requires
            old(self).wf(),
        ensures
            final(self).wf(),
            final(self).lighting_state == old(self).lighting_state,
            final(self).overrides == old(self).overrides,
            final(self).active_mode == old(self).active_mode,
            final(self).mode_count == old(self).mode_count,
            final(self).macro_recording == old(self).macro_recording,
            ({
                let fired = old(self).blink_timer + POLL_INTERVAL >= BLINK_DELAY;
                if !fired {
                    &&& *final(self) == DeviceThread {
                        blink_timer: (old(self).blink_timer + POLL_INTERVAL) as u64,
                        ..*old(self)
                    }
                    &&& acts@.len() == 0
                } else {
                    let blink_color = spec_blink_color(!old(self).blink_state);
                    let key_data = spec_indicator_key_data(
                        *old(self),
                        old(self).macro_states.view_slots(),
                        finished@,
                        blink_color,
                    );
                    let mask = spec_mode_led_mask(
                        final(self).macro_states.view_slots(),
                        old(self).active_mode,
                        !old(self).blink_state,
                        old(self).mode_count,
                    );
                    &&& final(self).blink_timer == 0
                    &&& final(self).blink_state == !old(self).blink_state
                    &&& final(self).macro_states.view_slots() == old(self).macro_states.view_slots().filter(
                        |s: MacroSlot| !finished@.contains((s.mode, s.gkey)),
                    )
                    &&& if key_data.len() == 0 {
                        acts@ == seq![
                            SessionAction::Device(DeviceCommand::SetModeLeds(mask)),
                        ]
                    } else {
                        &&& acts@.len() == 3
                        &&& (acts@[0] matches SessionAction::Device(DeviceCommand::Set4(data))
                            && data@ == key_data)
                        &&& acts@[1] == SessionAction::Device(DeviceCommand::Commit)
                        &&& acts@[2] == SessionAction::Device(DeviceCommand::SetModeLeds(mask))
                    }
                }
            }),
    {
        if self.blink_timer + POLL_INTERVAL < BLINK_DELAY {
            self.blink_timer = self.blink_timer + POLL_INTERVAL;
            return Vec::new();
        }
        let ghost orig = *self;
        self.blink_timer = 0;
        self.blink_state = !self.blink_state;
        let blink_color = Color::new(if self.blink_state { 255 } else { 0 }, 0, 0);
        let mut key_data: Vec<(Scancode, Color)> = Vec::new();
        let mut i: usize = 0;
        while i < self.macro_states.len()
            invariant
                orig == *old(self),
                self.macro_states == orig.macro_states,
                self.lighting_state == orig.lighting_state,
                self.overrides == orig.overrides,
                self.active_mode == orig.active_mode,
                self.mode_count == orig.mode_count,
                self.macro_recording == orig.macro_recording,
                self.blink_timer == 0,
                self.blink_state == !orig.blink_state,
                blink_color == spec_blink_color(!orig.blink_state),
                i <= self.macro_states.view_slots().len(),
                key_data@ == spec_indicator_key_data(
                    orig,
                    orig.macro_states.view_slots().take(i as int),
                    finished@,
                    blink_color,
                ),
            decreases self.macro_states.view_slots().len() - i,
        {
            let slot = self.macro_states.at(i);
            if slot.mode == self.active_mode {
                if let Some(key) = Scancode::from_gkey(slot.gkey) {
                    let color = if contains_finished(finished, slot.mode, slot.gkey) {
                        self.last_color_for_scancode(key)
                    } else {
                        blink_color
                    };
                    proof {
                        assert(self.spec_base_color(key) == orig.spec_base_color(key));
                    }
                    key_data.push((key, color));
                }
            }
            proof {
                let slots = orig.macro_states.view_slots();
                assert(slots.take(i as int + 1).drop_last() =~= slots.take(i as int));
                assert(slots.take(i as int + 1).last() == slots[i as int]);
                assert(key_data@ =~= spec_indicator_key_data(
                    orig,
                    slots.take(i as int + 1),
                    finished@,
                    blink_color,
                ));
            }
            i = i + 1;
        }
        assert(orig.macro_states.view_slots().take(orig.macro_states.view_slots().len() as int)
            =~= orig.macro_states.view_slots());
        self.macro_states.remove_finished(finished);
        let mut mask: u8 = 0;
        let mut mode: u8 = 1;
        while mode <= self.mode_count
            invariant
                orig == *old(self),
                1 <= mode <= self.mode_count + 1,
                self.mode_count == orig.mode_count,
                self.mode_count <= 8,
                self.active_mode == orig.active_mode,
                self.blink_state == !orig.blink_state,
                self.macro_states.view_slots() == orig.macro_states.view_slots().filter(
                    |s: MacroSlot| !finished@.contains((s.mode, s.gkey)),
                ),
                mask == spec_mode_led_mask(
                    self.macro_states.view_slots(),
                    orig.active_mode,
                    !orig.blink_state,
                    (mode - 1) as u8,
                ),
            decreases self.mode_count - mode + 1,
        {
            if mode == self.active_mode || (self.mode_has_slots(mode) && self.blink_state) {
                mask = mask | (1u8 << (mode - 1));
            } else {
                mask = mask | 0;
            }
            mode = mode + 1;
        }
        let mut acts: Vec<SessionAction> = Vec::new();
        if key_data.len() > 0 {
            acts.push(SessionAction::Device(DeviceCommand::Set4(key_data)));
            acts.push(SessionAction::Device(DeviceCommand::Commit));
        }
        acts.push(SessionAction::Device(DeviceCommand::SetModeLeds(mask)));
        acts
    }

    /// Reacts to one orchestration signal. Returns the actions to perform
    /// and whether the session should shut down. Profile and configuration
    /// changes first stop and clear every macro in every mode, then reapply
    /// the profile and the overrides; a media change re-derives the
    /// indicator overrides first. Either way an indicator refresh is forced
    /// by maxing the blink timer, and the redraw ends with a commit.
    pub fn handle_signal(
        &mut self,
        config: &Configuration,
        profile: &Profile,
        media_state: &crate::media::MediaState,
        signal: &DeviceSignal,
    ) -> (r: (Vec<SessionAction>, bool))
        requires
            old(self).wf(),
        ensures
            final(self).wf(),
            match *signal {
                DeviceSignal::Shutdown => r.1 == true && r.0@.len() == 0 && *final(self) == *old(self),
                DeviceSignal::ProfileChanged | DeviceSignal::ConfigurationReloaded => {
                    &&& r.1 == false
                    &&& final(self).blink_timer == BLINK_DELAY
                    &&& final(self).macro_states.view_slots().len() == 0
                    &&& spec_profile_lighting(
                        *config,
                        *profile,
                        old(self).active_mode,
                        old(self).lighting_state,
                        final(self).lighting_state,
                    )
                    &&& final(self).overrides == old(self).overrides
                    &&& exists|profile_acts: Seq<SessionAction>, override_acts: Seq<SessionAction>|
                        {
                            &&& #[trigger] spec_profile_actions(
                                *config,
                                *profile,
                                old(self).active_mode,
                                profile_acts,
                            )
                            &&& #[trigger] spec_override_actions(*final(self), override_acts)
                            &&& r.0@ == spec_stop_all_actions(old(self).macro_states.view_slots())
                                + profile_acts + override_acts + seq![
                                SessionAction::Device(DeviceCommand::Commit),
                            ]
                        }
                },
                DeviceSignal::MediaStateChanged => {
                    &&& r.1 == false
                    &&& final(self).macro_states == old(self).macro_states
                    &&& final(self).overrides.spec_override(Scancode::Mute) == (
                    if media_state.muted {
                        Some(Color { r: 255u8, g: 0u8, b: 0u8 })
                    } else {
                        None
                    })
                    &&& final(self).overrides.spec_override(Scancode::MediaPrevious) == (
                    if media_state.player_status == crate::media::PlayerStatus::NoMedia {
                        Some(Color { r: 0u8, g: 0u8, b: 0u8 })
                    } else {
                        None
                    })
                    &&& final(self).overrides.spec_override(Scancode::MediaNext) == (
                    if media_state.player_status == crate::media::PlayerStatus::NoMedia {
                        Some(Color { r: 0u8, g: 0u8, b: 0u8 })
                    } else {
                        None
                    })
                    &&& final(self).overrides.spec_override(Scancode::MediaPlayPause) == (
                    match media_state.player_status {
                        crate::media::PlayerStatus::Playing => None,
                        crate::media::PlayerStatus::Paused => Some(
                            Color { r: 255u8, g: 0u8, b: 0u8 },
                        ),
                        crate::media::PlayerStatus::NoMedia => Some(
                            Color { r: 0u8, g: 0u8, b: 0u8 },
                        ),
                    })
                    &&& forall|key: Scancode|
                        !(key == Scancode::Mute || key == Scancode::MediaPrevious || key
                            == Scancode::MediaNext || key == Scancode::MediaPlayPause) ==> final(self).overrides.spec_override(key) == old(self).overrides.spec_override(key)
                    &&& spec_profile_lighting(
                        *config,
                        *profile,
                        old(self).active_mode,
                        old(self).lighting_state,
                        final(self).lighting_state,
                    )
                    &&& exists|profile_acts: Seq<SessionAction>, override_acts: Seq<SessionAction>|
                        {
                            &&& #[trigger] spec_profile_actions(
                                *config,
                                *profile,
                                old(self).active_mode,
                                profile_acts,
                            )
                            &&& #[trigger] spec_override_actions(*final(self), override_acts)
                            &&& r.0@ == profile_acts + override_acts + seq![
                                SessionAction::Device(DeviceCommand::Commit),
                            ]
                        }
                },
            },
    {
        match signal {
            DeviceSignal::Shutdown => (Vec::new(), true),
            DeviceSignal::ProfileChanged | DeviceSignal::ConfigurationReloaded => {
                self.blink_timer = BLINK_DELAY;
                let mut acts = self.stop_and_remove_all_macros();
                let mut profile_acts = self.apply_profile(config, profile);
                let ghost profile_acts_view = profile_acts@;
                let mut override_acts = self.apply_overrides();
                let ghost override_acts_view = override_acts@;
                acts.append(&mut profile_acts);
                acts.append(&mut override_acts);
                acts.push(SessionAction::Device(DeviceCommand::Commit));
                proof {
                    assert(spec_profile_actions(
                        *config,
                        *profile,
                        old(self).active_mode,
                        profile_acts_view,
                    ));
                    assert(spec_override_actions(*self, override_acts_view));
                    assert(acts@ =~= spec_stop_all_actions(old(self).macro_states.view_slots())
                        + profile_acts_view + override_acts_view + seq![
                        SessionAction::Device(DeviceCommand::Commit),
                    ]);
                }
                (acts, false)
            },
            DeviceSignal::MediaStateChanged => {
                let red = Color::new(255, 0, 0);
                let black = Color::black();
                let no_media = match media_state.player_status {
                    crate::media::PlayerStatus::NoMedia => true,
                    _ => false,
                };
                self.set_override(
                    Scancode::Mute,
                    if media_state.muted {
                        Some(red)
                    } else {
                        None
                    },
                );
                self.set_override(
                    Scancode::MediaPrevious,
                    if no_media {
                        Some(black)
                    } else {
                        None
                    },
                );
                self.set_override(
                    Scancode::MediaNext,
                    if no_media {
                        Some(black)
                    } else {
                        None
                    },
                );
                self.set_override(
                    Scancode::MediaPlayPause,
                    match media_state.player_status {
                        crate::media::PlayerStatus::Playing => None,
                        crate::media::PlayerStatus::Paused => Some(red),
                        crate::media::PlayerStatus::NoMedia => Some(black),
                    },
                );
                let mut acts = self.apply_profile(config, profile);
                let ghost profile_acts_view = acts@;
                let mut override_acts = self.apply_overrides();
                let ghost override_acts_view = override_acts@;
                acts.append(&mut override_acts);
                acts.push(SessionAction::Device(DeviceCommand::Commit));
                proof {
                    assert(spec_profile_actions(
                        *config,
                        *profile,
                        old(self).active_mode,
                        profile_acts_view,
                    ));
                    assert(spec_override_actions(*self, override_acts_view));
                    assert(acts@ =~= profile_acts_view + override_acts_view + seq![
                        SessionAction::Device(DeviceCommand::Commit),
                    ]);
                }
                (acts, false)
            },
        }
    }
}

/// Whether `finished` holds the pair (mode, gkey).
fn contains_finished(finished: &Vec<(u8, u8)>, mode: u8, gkey: u8) -> (found: bool)
    ensures
        found == finished@.contains((mode, gkey)),
{
    let mut i: usize = 0;
    while i < finished.len()
        invariant
            i <= finished@.len(),
            forall|j: int| 0 <= j < i ==> #[trigger] finished@[j] != (mode, gkey),
        decreases finished@.len() - i,
    {
        if finished[i].0 == mode && finished[i].1 == gkey {
            assert(finished@[i as int] == (mode, gkey));
            return true;
        }
        i = i + 1;
    }
    assert(!finished@.contains((mode, gkey)));
    false
}


} // verus!
