//! The resolved configuration the session consumes: named themes and
//! keygroups, profiles with per-mode overrides, and the G-key macro lookup.
//! Reading and watching the configuration file is a collaborator's job; the
//! session only resolves names and keys against these tables.

use vstd::prelude::*;

use crate::macros::{macro_like, Action, Macro};
use crate::rgb::Theme;
use crate::scancode::Scancode;
use crate::tables::{ByteTable, StringTable};

verus! {

/// A named group of keys that themes may reference.
pub type Keygroup = Vec<Scancode>;

/// The keygroup table, by group name.
pub type Keygroups = StringTable<Keygroup>;

/// What a G-key is bound to: a single inline action or a named macro.
#[derive(Debug)]
pub enum MacroKeyAssignment {
    SimpleAction(Action),
    NamedMacro(String),
}

/// G-key bindings of a profile or mode, by G-key number.
pub type GkeyAssignments = Option<ByteTable<MacroKeyAssignment>>;

/// Names of reusable G-key binding sets, later entries winning.
pub type GkeySets = Option<Vec<String>>;

/// Per-mode overrides within a profile.
#[derive(Debug)]
pub struct ModeProfile {
    pub theme: Option<String>,
    pub gkey_sets: GkeySets,
    pub gkeys: GkeyAssignments,
}

/// One profile: its theme, G-key bindings, optional game-mode key-disable
/// list, and per-mode overrides.
#[derive(Debug)]
pub struct Profile {
    pub theme: Option<String>,
    pub gkey_sets: GkeySets,
    pub gkeys: GkeyAssignments,
    pub game_mode_keys: Option<Vec<Scancode>>,
    pub modes: Option<ByteTable<ModeProfile>>,
}

/// The whole resolved configuration.
#[derive(Debug)]
pub struct Configuration {
    pub profiles: StringTable<Profile>,
    pub themes: StringTable<Theme>,
    pub keygroups: Keygroups,
    pub gkey_sets: Option<StringTable<ByteTable<MacroKeyAssignment>>>,
    pub macros: Option<StringTable<Macro>>,
}

impl MacroKeyAssignment {
    /// Whether this assignment stands for runnable macro `m`: an inline
    /// action becomes a run-once macro with that action as its single step;
    /// a named macro must match the configuration's macro of that name.
    pub open spec fn expands_to(self, config: Configuration, m: Macro) -> bool {
        match self {
            MacroKeyAssignment::SimpleAction(action) => {
                &&& m.activation_type == crate::macros::ActivationType::Singular
                &&& m.theme is None
                &&& m.steps@.len() == 1
                &&& crate::macros::action_like(m.steps@[0].action, action)
                &&& m.steps@[0].duration == 5u64
            },
            MacroKeyAssignment::NamedMacro(macro_name) => match config.macros {
                Some(macros) => match macros.spec_get(macro_name@) {
                    Some(stored) => macro_like(m, stored),
                    None => false,
                },
                None => false,
            },
        }
    }

    /// Whether expansion succeeds: inline actions always do; a named macro
    /// only when the configuration defines it.
    pub open spec fn expandable(self, config: Configuration) -> bool {
        match self {
            MacroKeyAssignment::SimpleAction(_) => true,
            MacroKeyAssignment::NamedMacro(macro_name) => match config.macros {
                Some(macros) => macros.spec_get(macro_name@) is Some,
                None => false,
            },
        }
    }

    /// The macro this assignment stands for, if it can be resolved.
    pub fn expand(&self, config: &Configuration) -> (m: Option<Macro>)
        ensures
            m matches Some(result) ==> self.expands_to(*config, result),
            m is Some <==> self.expandable(*config),
    {
        match self {
            MacroKeyAssignment::SimpleAction(action) => {
                Some(Macro::from_action(action.clone()))
            },
            MacroKeyAssignment::NamedMacro(macro_name) => match &config.macros {
                Some(macros) => match macros.get(macro_name) {
                    Some(found) => Some(found.clone()),
                    None => None,
                },
                None => None,
            },
        }
    }
}

/// The binding of G-key `key` in one named G-key set.
pub open spec fn spec_gkey_set_assignment(
    config: Configuration,
    gkey_set: Seq<char>,
    key: u8,
) -> Option<MacroKeyAssignment> {
    match config.gkey_sets {
        Some(sets) => match sets.spec_get(gkey_set) {
            Some(set) => set.spec_get(key),
            None => None,
        },
        None => None,
    }
}

impl Configuration {
    /// The profile named "default", which a valid configuration always has.
    pub fn default_profile(&self) -> (p: Option<&Profile>)
        ensures
            match p {
                Some(profile) => self.profiles.spec_get("default"@) == Some(*profile),
                None => self.profiles.spec_get("default"@) is None,
            },
    {
        self.profiles.get(&"default".to_owned())
    }

    /// The theme named "default", which a valid configuration always has.
    pub fn default_theme(&self) -> (t: Option<&Theme>)
        ensures
            match t {
                Some(theme) => self.themes.spec_get("default"@) == Some(*theme),
                None => self.themes.spec_get("default"@) is None,
            },
    {
        self.themes.get(&"default".to_owned())
    }

    /// The binding of G-key `key` in the named G-key set, if both exist.
    pub fn gkey_set_assignment(&self, gkey_set: &String, key: u8) -> (a: Option<
        &MacroKeyAssignment,
    >)
        ensures
            match a {
                Some(assignment) => spec_gkey_set_assignment(*self, gkey_set@, key) == Some(
                    *assignment,
                ),
                None => spec_gkey_set_assignment(*self, gkey_set@, key) is None,
            },
    {
        match &self.gkey_sets {
            Some(sets) => match sets.get(gkey_set) {
                Some(set) => set.get(key),
                None => None,
            },
            None => None,
        }
    }
}

/// The binding of `key` among a list of G-key set names: later names win
/// over earlier ones.
pub open spec fn spec_set_list_assignment(
    config: Configuration,
    set_names: Seq<String>,
    key: u8,
) -> Option<MacroKeyAssignment>
    decreases set_names.len(),
{
    if set_names.len() == 0 {
        None
    } else {
        match spec_gkey_set_assignment(config, set_names.last()@, key) {
            Some(assignment) => Some(assignment),
            None => spec_set_list_assignment(config, set_names.drop_last(), key),
        }
    }
}

/// Looks `key` up in the named G-key sets, last name first.
fn set_list_assignment<'a>(
    config: &'a Configuration,
    set_names: &Vec<String>,
    key: u8,
) -> (a: Option<&'a MacroKeyAssignment>)
    ensures
        match a {
            Some(assignment) => spec_set_list_assignment(*config, set_names@, key) == Some(
                *assignment,
            ),
            None => spec_set_list_assignment(*config, set_names@, key) is None,
        },
{
    let mut i: usize = set_names.len();
    assert(set_names@.take(set_names@.len() as int) =~= set_names@);
    while i > 0
        invariant
            i <= set_names@.len(),
            spec_set_list_assignment(*config, set_names@, key) == spec_set_list_assignment(
                *config,
                set_names@.take(i as int),
                key,
            ),
        decreases i,
    {
        i = i - 1;
        let ghost pre = set_names@.take(i as int + 1);
        assert(pre.last() == set_names@[i as int]);
        assert(pre.drop_last() =~= set_names@.take(i as int));
        if let Some(assignment) = config.gkey_set_assignment(&set_names[i], key) {
            return Some(assignment);
        }
    }
    assert(set_names@.take(0) =~= Seq::<String>::empty());
    None
}

/// The direct or set-provided binding of `key`: explicit per-key bindings
/// win over the G-key sets.
pub open spec fn spec_level_assignment(
    config: Configuration,
    gkeys: GkeyAssignments,
    gkey_sets: GkeySets,
    key: u8,
) -> Option<MacroKeyAssignment> {
    let direct = match gkeys {
        Some(assignments) => assignments.spec_get(key),
        None => None,
    };
    match direct {
        Some(assignment) => Some(assignment),
        None => match gkey_sets {
            Some(set_names) => spec_set_list_assignment(config, set_names@, key),
            None => None,
        },
    }
}

/// Looks `key` up in one profile or mode level: its own bindings first, then
/// its G-key sets.
fn level_assignment<'a>(
    config: &'a Configuration,
    gkeys: &'a GkeyAssignments,
    gkey_sets: &'a GkeySets,
    key: u8,
) -> (a: Option<&'a MacroKeyAssignment>)
    ensures
        match a {
            Some(assignment) => spec_level_assignment(*config, *gkeys, *gkey_sets, key) == Some(
                *assignment,
            ),
            None => spec_level_assignment(*config, *gkeys, *gkey_sets, key) is None,
        },
{
    if let Some(assignments) = gkeys {
        if let Some(assignment) = assignments.get(key) {
            return Some(assignment);
        }
    }
    match gkey_sets {
        Some(set_names) => set_list_assignment(config, set_names, key),
        None => None,
    }
}

impl Profile {
    /// The theme shown in `mode`: the mode's own theme name if set, else the
    /// profile's, resolved against the configuration's themes, falling back
    /// to the default theme.
    pub open spec fn spec_theme(self, config: Configuration, mode: u8) -> Option<Theme> {
        let name = match self.spec_mode_theme_name(mode) {
            Some(name) => Some(name),
            None => self.theme,
        };
        let named = match name {
            Some(name) => config.themes.spec_get(name@),
            None => None,
        };
        match named {
            Some(theme) => Some(theme),
            None => config.themes.spec_get("default"@),
        }
    }

    /// The theme name the mode override carries, if any.
    pub open spec fn spec_mode_theme_name(self, mode: u8) -> Option<String> {
        match self.modes {
            Some(modes) => match modes.spec_get(mode) {
                Some(mode_profile) => mode_profile.theme,
                None => None,
            },
            None => None,
        }
    }

    pub fn theme<'a>(&'a self, config: &'a Configuration, mode: u8) -> (t: Option<&'a Theme>)
        ensures
            match t {
                Some(theme) => self.spec_theme(*config, mode) == Some(*theme),
                None => self.spec_theme(*config, mode) is None,
            },
    {
        let mode_theme_name: Option<&String> = match &self.modes {
            Some(modes) => match modes.get(mode) {
                Some(mode_profile) => match &mode_profile.theme {
                    Some(name) => Some(name),
                    None => None,
                },
                None => None,
            },
            None => None,
        };
        let name: Option<&String> = match mode_theme_name {
            Some(name) => Some(name),
            None => match &self.theme {
                Some(name) => Some(name),
                None => None,
            },
        };
        let named: Option<&Theme> = match name {
            Some(name) => config.themes.get(name),
            None => None,
        };
        match named {
            Some(theme) => Some(theme),
            None => config.default_theme(),
        }
    }

    /// The macro bound to `gkey` in `mode`: the mode's own bindings win over
    /// the profile's, and explicit bindings over G-key sets at each level.
    pub open spec fn spec_macro_assignment(self, config: Configuration, mode: u8, gkey: u8) -> Option<
        MacroKeyAssignment,
    > {
        let from_mode = match self.modes {
            Some(modes) => match modes.spec_get(mode) {
                Some(mode_profile) => spec_level_assignment(
                    config,
                    mode_profile.gkeys,
                    mode_profile.gkey_sets,
                    gkey,
                ),
                None => None,
            },
            None => None,
        };
        match from_mode {
            Some(assignment) => Some(assignment),
            None => spec_level_assignment(config, self.gkeys, self.gkey_sets, gkey),
        }
    }

    /// The macro bound to `gkey` in `mode`, expanded to a runnable macro.
    pub fn macro_for_gkey(&self, config: &Configuration, mode: u8, gkey: u8) -> (m: Option<Macro>)
        ensures
            m matches Some(result) ==> (self.spec_macro_assignment(*config, mode, gkey) matches Some(
                assignment,
            ) && assignment.expands_to(*config, result)),
            m is None ==> match self.spec_macro_assignment(*config, mode, gkey) {
                Some(assignment) => !assignment.expandable(*config),
                None => true,
            },
    {
        let from_mode: Option<&MacroKeyAssignment> = match &self.modes {
            Some(modes) => match modes.get(mode) {
                Some(mode_profile) => level_assignment(
                    config,
                    &mode_profile.gkeys,
                    &mode_profile.gkey_sets,
                    gkey,
                ),
                None => None,
            },
            None => None,
        };
        let assignment: Option<&MacroKeyAssignment> = match from_mode {
            Some(assignment) => Some(assignment),
            None => level_assignment(config, &self.gkeys, &self.gkey_sets, gkey),
        };
        match assignment {
            Some(assignment) => assignment.expand(config),
            None => None,
        }
    }
}

} // verus!
