use g815_driver::color::Color;
use g815_driver::config::{Configuration, MacroKeyAssignment, ModeProfile, Profile};
use g815_driver::macros::{Action, ActivationType, Macro, Step};
use g815_driver::rgb::{ColorAssignment, EffectConfiguration, KeySelection, Theme};
use g815_driver::scancode::Scancode;
use g815_driver::tables::{ByteTable, StringTable};

fn named_macro() -> Macro {
    Macro {
        activation_type: ActivationType::Toggle,
        theme: None,
        steps: vec![Step { action: Action::Delay, duration: 50 }],
    }
}

fn test_config() -> Configuration {
    let mut themes = StringTable::new();
    themes.insert(
        "default".to_string(),
        Theme::Static(vec![ColorAssignment {
            color: Color::new(255, 0, 0),
            keys: vec![KeySelection::Single(Scancode::G1)],
        }]),
    );
    themes.insert(
        "waves".to_string(),
        Theme::Effect(EffectConfiguration::Cycle { duration: 1000, brightness: 100 }),
    );
    let mut keygroups = StringTable::new();
    keygroups.insert("arrows".to_string(), vec![
        Scancode::Up,
        Scancode::Down,
        Scancode::Left,
        Scancode::Right,
    ]);
    let mut macros = StringTable::new();
    macros.insert("spam".to_string(), named_macro());
    let mut set = ByteTable::new();
    set.insert(2, MacroKeyAssignment::SimpleAction(Action::Delay));
    let mut gkey_sets = StringTable::new();
    gkey_sets.insert("base".to_string(), set);
    Configuration {
        profiles: StringTable::new(),
        themes,
        keygroups,
        gkey_sets: Some(gkey_sets),
        macros: Some(macros),
    }
}

#[test]
fn string_and_byte_tables_store_and_miss() {
    let mut table: StringTable<u8> = StringTable::new();
    table.insert("one".to_string(), 1);
    assert_eq!(table.get(&"one".to_string()), Some(&1));
    assert_eq!(table.get(&"two".to_string()), None);
    let mut numbers: ByteTable<u8> = ByteTable::new();
    numbers.insert(3, 30);
    assert_eq!(numbers.get(3), Some(&30));
    assert_eq!(numbers.get(4), None);
}

#[test]
fn key_selections_resolve_against_keygroups() {
    let config = test_config();
    let single = KeySelection::Single(Scancode::A);
    assert_eq!(single.scancodes(&config.keygroups), vec![Scancode::A]);
    let multiple = KeySelection::Multiple(vec![Scancode::A, Scancode::B]);
    assert_eq!(multiple.scancodes(&config.keygroups), vec![Scancode::A, Scancode::B]);
    let group = KeySelection::Keygroup("arrows".to_string());
    assert_eq!(
        group.scancodes(&config.keygroups),
        vec![Scancode::Up, Scancode::Down, Scancode::Left, Scancode::Right]
    );
    let unknown = KeySelection::Keygroup("absent".to_string());
    assert_eq!(unknown.scancodes(&config.keygroups), Vec::new());
}

#[test]
fn color_assignments_flatten_their_selections() {
    let config = test_config();
    let assignment = ColorAssignment {
        color: Color::new(0, 255, 0),
        keys: vec![
            KeySelection::Single(Scancode::A),
            KeySelection::Keygroup("arrows".to_string()),
        ],
    };
    assert_eq!(
        assignment.scancodes(&config.keygroups),
        vec![Scancode::A, Scancode::Up, Scancode::Down, Scancode::Left, Scancode::Right]
    );
}

#[test]
fn static_themes_flatten_and_effect_themes_do_not() {
    let config = test_config();
    let theme = Theme::Static(vec![
        ColorAssignment {
            color: Color::new(1, 2, 3),
            keys: vec![KeySelection::Single(Scancode::F1)],
        },
        ColorAssignment {
            color: Color::new(4, 5, 6),
            keys: vec![KeySelection::Keygroup("arrows".to_string())],
        },
    ]);
    let table = theme.scancode_assignments(&config.keygroups).expect("static theme");
    assert_eq!(table.len(), 2);
    assert_eq!(table[0], (Color::new(1, 2, 3), vec![Scancode::F1]));
    assert_eq!(
        table[1],
        (
            Color::new(4, 5, 6),
            vec![Scancode::Up, Scancode::Down, Scancode::Left, Scancode::Right]
        )
    );
    let effect = Theme::Effect(EffectConfiguration::Off);
    assert!(effect.scancode_assignments(&config.keygroups).is_none());
}

#[test]
fn expand_builds_inline_actions_and_looks_up_named_macros() {
    let config = test_config();
    let inline = MacroKeyAssignment::SimpleAction(Action::RunCommand("true".to_string()));
    let built = inline.expand(&config).expect("inline actions always expand");
    assert_eq!(built.activation_type, ActivationType::Singular);
    assert_eq!(built.steps.len(), 1);
    let named = MacroKeyAssignment::NamedMacro("spam".to_string());
    let found = named.expand(&config).expect("the macro is defined");
    assert_eq!(found.activation_type, ActivationType::Toggle);
    assert_eq!(found.steps.len(), 1);
    let missing = MacroKeyAssignment::NamedMacro("ghost".to_string());
    assert!(missing.expand(&config).is_none());
}

#[test]
fn profile_theme_prefers_mode_override_then_profile_then_default() {
    let config = test_config();
    let mut modes = ByteTable::new();
    modes.insert(2, ModeProfile {
        theme: Some("waves".to_string()),
        gkey_sets: None,
        gkeys: None,
    });
    let profile = Profile {
        theme: None,
        gkey_sets: None,
        gkeys: None,
        game_mode_keys: None,
        modes: Some(modes),
    };
    let in_mode_2 = profile.theme(&config, 2).expect("mode override resolves");
    assert!(matches!(in_mode_2, Theme::Effect(_)));
    let in_mode_1 = profile.theme(&config, 1).expect("falls back to the default theme");
    assert!(matches!(in_mode_1, Theme::Static(_)));
}

#[test]
fn gkey_lookup_prefers_explicit_bindings_over_sets() {
    let config = test_config();
    let mut gkeys = ByteTable::new();
    gkeys.insert(1, MacroKeyAssignment::NamedMacro("spam".to_string()));
    let profile = Profile {
        theme: None,
        gkey_sets: Some(vec!["base".to_string()]),
        gkeys: Some(gkeys),
        game_mode_keys: None,
        modes: None,
    };
    let explicit = profile.macro_for_gkey(&config, 1, 1).expect("explicit binding");
    assert_eq!(explicit.activation_type, ActivationType::Toggle);
    let from_set = profile.macro_for_gkey(&config, 1, 2).expect("set binding");
    assert_eq!(from_set.activation_type, ActivationType::Singular);
    assert!(profile.macro_for_gkey(&config, 1, 3).is_none());
}

#[test]
fn hex_color_codes_parse_exactly() {
    assert_eq!(Color::from_hex_bytes(b"ff8001"), Some(Color::new(255, 128, 1)));
    assert_eq!(Color::from_hex_bytes(b"00FF00"), Some(Color::new(0, 255, 0)));
    assert_eq!(Color::from_hex_bytes(b"00ff0"), None);
    assert_eq!(Color::from_hex_bytes(b"00ff0g"), None);
    assert_eq!(Color::from_hex_bytes(b"+12345"), None);
    assert_eq!(Color::from(0x00336699u32), Color::new(0x33, 0x66, 0x99));
    assert_eq!(Color::default(), Color::black());
}
