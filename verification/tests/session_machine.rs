use g815_driver::color::Color;
use g815_driver::config::{Configuration, MacroKeyAssignment, Profile};
use g815_driver::events::{DeviceEvent, KeyType, MediaKey};
use g815_driver::macros::{Action, ActivationType, Macro, MacroSignal, Step};
use g815_driver::media::{MediaState, PlayerStatus};
use g815_driver::rgb::{ColorAssignment, KeySelection, Theme};
use g815_driver::scancode::Scancode;
use g815_driver::session::{
    CurrentLightingState, DeviceCommand, DeviceSignal, DeviceThread, SessionAction, BLINK_DELAY,
    POLL_INTERVAL,
};
use g815_driver::tables::{ByteTable, StringTable};
use g815_driver::windowsystem::WindowSystemSignal;

fn macro_with(kind: ActivationType) -> Macro {
    Macro {
        activation_type: kind,
        theme: None,
        steps: vec![Step { action: Action::Delay, duration: 10 }],
    }
}

fn config_with_binding(gkey: u8, kind: ActivationType) -> (Configuration, Profile) {
    let mut themes = StringTable::new();
    themes.insert(
        "default".to_string(),
        Theme::Static(vec![ColorAssignment {
            color: Color::new(255, 0, 0),
            keys: vec![KeySelection::Single(Scancode::G1)],
        }]),
    );
    let mut macros = StringTable::new();
    macros.insert("bound".to_string(), macro_with(kind));
    let config = Configuration {
        profiles: StringTable::new(),
        themes,
        keygroups: StringTable::new(),
        gkey_sets: None,
        macros: Some(macros),
    };
    let mut gkeys = ByteTable::new();
    gkeys.insert(gkey, MacroKeyAssignment::NamedMacro("bound".to_string()));
    let profile = Profile {
        theme: None,
        gkey_sets: None,
        gkeys: Some(gkeys),
        game_mode_keys: None,
        modes: None,
    };
    (config, profile)
}

fn red_theme_session() -> DeviceThread {
    let mut session = DeviceThread::new(3);
    session.lighting_state = CurrentLightingState::Custom(vec![(
        Color::new(255, 0, 0),
        vec![Scancode::G1],
    )]);
    session
}

#[test]
fn override_then_clear_restores_the_base_color() {
    let mut session = red_theme_session();
    assert_eq!(session.last_color_for_scancode(Scancode::G1), Color::new(255, 0, 0));
    session.set_override(Scancode::G1, Some(Color::black()));
    assert_eq!(session.overrides.lookup(Scancode::G1), Some(Color::black()));
    assert_eq!(session.overrides.lookup(Scancode::G2), None);
    session.set_override(Scancode::G1, None);
    assert_eq!(session.overrides.lookup(Scancode::G1), None);
    assert_eq!(session.last_color_for_scancode(Scancode::G1), Color::new(255, 0, 0));
    assert_eq!(session.last_color_for_scancode(Scancode::G2), Color::black());
}

#[test]
fn toggle_macro_stays_bound_until_the_task_is_observed_finished() {
    let (config, profile) = config_with_binding(1, ActivationType::Toggle);
    let mut session = DeviceThread::new(3);

    let acts = session.macro_keydown(&config, &profile, 1, false);
    assert_eq!(acts.len(), 1);
    assert!(matches!(
        &acts[0],
        SessionAction::StartMacro { mode: 1, gkey: 1, .. }
    ));
    assert!(session.macro_states.lookup(1, 1).is_some());

    let acts = session.macro_keydown(&config, &profile, 1, false);
    assert_eq!(acts.len(), 1);
    assert!(matches!(
        &acts[0],
        SessionAction::SignalMacro { mode: 1, gkey: 1, signal: MacroSignal::Stop }
    ));
    assert!(session.macro_states.lookup(1, 1).is_some(), "the slot survives the stop signal");

    session.blink_timer = BLINK_DELAY;
    let _ = session.update_macro_indicators(&vec![(1, 1)]);
    assert!(
        session.macro_states.lookup(1, 1).is_none(),
        "the slot leaves only after the task was observed finished"
    );
}

#[test]
fn repeat_macro_gets_its_count_restarted() {
    let (config, profile) = config_with_binding(2, ActivationType::Repeat(3));
    let mut session = DeviceThread::new(3);
    let _ = session.macro_keydown(&config, &profile, 2, false);
    let acts = session.macro_keydown(&config, &profile, 2, false);
    assert_eq!(acts.len(), 1);
    assert!(matches!(
        &acts[0],
        SessionAction::SignalMacro { mode: 1, gkey: 2, signal: MacroSignal::ResetCount }
    ));
}

#[test]
fn running_singular_macro_ignores_another_press() {
    let (config, profile) = config_with_binding(3, ActivationType::Singular);
    let mut session = DeviceThread::new(3);
    let _ = session.macro_keydown(&config, &profile, 3, false);
    let acts = session.macro_keydown(&config, &profile, 3, false);
    assert!(acts.is_empty());
}

#[test]
fn finished_slot_lets_the_macro_start_again() {
    let (config, profile) = config_with_binding(1, ActivationType::Singular);
    let mut session = DeviceThread::new(3);
    let _ = session.macro_keydown(&config, &profile, 1, false);
    let acts = session.macro_keydown(&config, &profile, 1, true);
    assert_eq!(acts.len(), 1);
    assert!(matches!(&acts[0], SessionAction::StartMacro { .. }));
}

#[test]
fn mode_change_stops_held_macros_without_a_key_up() {
    let (config, profile) = config_with_binding(1, ActivationType::HoldToRepeat);
    let mut session = DeviceThread::new(3);
    let _ = session.macro_keydown(&config, &profile, 1, false);
    assert_eq!(session.active_mode, 1);

    let acts = session.handle_event(
        &config,
        &profile,
        &DeviceEvent::KeyDown(KeyType::Mode, 2),
        false,
    );
    assert_eq!(session.active_mode, 2);
    assert_eq!(acts.len(), 1);
    assert!(matches!(
        &acts[0],
        SessionAction::SignalMacro { mode: 1, gkey: 1, signal: MacroSignal::Stop }
    ));
    assert!(
        session.macro_states.lookup(1, 1).is_some(),
        "the slot stays until the task is observed finished"
    );
}

#[test]
fn key_up_stops_only_hold_to_repeat_macros() {
    let (config, profile) = config_with_binding(1, ActivationType::HoldToRepeat);
    let mut session = DeviceThread::new(3);
    let _ = session.macro_keydown(&config, &profile, 1, false);
    let acts = session.handle_event(&config, &profile, &DeviceEvent::KeyUp(KeyType::GKey, 1), false);
    assert_eq!(acts.len(), 1);
    assert!(matches!(
        &acts[0],
        SessionAction::SignalMacro { mode: 1, gkey: 1, signal: MacroSignal::Stop }
    ));

    let (config, profile) = config_with_binding(2, ActivationType::Toggle);
    let _ = session.macro_keydown(&config, &profile, 2, false);
    let acts = session.handle_event(&config, &profile, &DeviceEvent::KeyUp(KeyType::GKey, 2), false);
    assert!(acts.is_empty());
}

#[test]
fn profile_change_stops_and_clears_every_slot_in_every_mode() {
    let (config, profile) = config_with_binding(1, ActivationType::Toggle);
    let mut session = DeviceThread::new(3);
    let _ = session.macro_keydown(&config, &profile, 1, false);
    let _ = session.handle_event(&config, &profile, &DeviceEvent::KeyDown(KeyType::Mode, 2), false);
    let (config2, profile2) = config_with_binding(2, ActivationType::HoldToRepeat);
    let _ = session.macro_keydown(&config2, &profile2, 2, false);
    assert!(session.macro_states.lookup(1, 1).is_some());
    assert!(session.macro_states.lookup(2, 2).is_some());

    let media = MediaState::default();
    let (acts, shutdown) =
        session.handle_signal(&config2, &profile2, &media, &DeviceSignal::ProfileChanged);
    assert!(!shutdown);
    assert!(session.macro_states.lookup(1, 1).is_none());
    assert!(session.macro_states.lookup(2, 2).is_none());
    let stops: Vec<(u8, u8)> = acts
        .iter()
        .filter_map(|a| match a {
            SessionAction::SignalMacro { mode, gkey, signal: MacroSignal::Stop } => {
                Some((*mode, *gkey))
            },
            _ => None,
        })
        .collect();
    assert!(stops.contains(&(1, 1)), "the toggle macro in mode 1 was told to stop");
    assert!(stops.contains(&(2, 2)), "the held macro in mode 2 was told to stop");
    assert!(matches!(
        acts.last(),
        Some(SessionAction::Device(DeviceCommand::Commit))
    ));
}

#[test]
fn shutdown_signal_only_asks_to_exit() {
    let (config, profile) = config_with_binding(1, ActivationType::Toggle);
    let mut session = DeviceThread::new(3);
    let media = MediaState::default();
    let (acts, shutdown) = session.handle_signal(&config, &profile, &media, &DeviceSignal::Shutdown);
    assert!(shutdown);
    assert!(acts.is_empty());
}

#[test]
fn media_state_turns_into_indicator_overrides() {
    let (config, profile) = config_with_binding(1, ActivationType::Toggle);
    let mut session = red_theme_session();
    let media = MediaState { muted: true, player_status: PlayerStatus::Paused };
    let (_, shutdown) =
        session.handle_signal(&config, &profile, &media, &DeviceSignal::MediaStateChanged);
    assert!(!shutdown);
    assert_eq!(session.overrides.lookup(Scancode::Mute), Some(Color::new(255, 0, 0)));
    assert_eq!(session.overrides.lookup(Scancode::MediaPlayPause), Some(Color::new(255, 0, 0)));
    assert_eq!(session.overrides.lookup(Scancode::MediaPrevious), None);
    assert_eq!(session.overrides.lookup(Scancode::MediaNext), None);

    let playing = MediaState { muted: false, player_status: PlayerStatus::Playing };
    let _ = session.handle_signal(&config, &profile, &playing, &DeviceSignal::MediaStateChanged);
    assert_eq!(session.overrides.lookup(Scancode::Mute), None);
    assert_eq!(session.overrides.lookup(Scancode::MediaPlayPause), None);

    let silent = MediaState { muted: false, player_status: PlayerStatus::NoMedia };
    let _ = session.handle_signal(&config, &profile, &silent, &DeviceSignal::MediaStateChanged);
    assert_eq!(session.overrides.lookup(Scancode::MediaPrevious), Some(Color::black()));
    assert_eq!(session.overrides.lookup(Scancode::MediaNext), Some(Color::black()));
    assert_eq!(session.overrides.lookup(Scancode::MediaPlayPause), Some(Color::black()));
}

#[test]
fn macro_record_key_toggles_the_recording_indicator() {
    let (config, profile) = config_with_binding(1, ActivationType::Toggle);
    let mut session = DeviceThread::new(3);
    let acts = session.handle_event(
        &config,
        &profile,
        &DeviceEvent::KeyUp(KeyType::MacroRecord, 1),
        false,
    );
    assert!(session.macro_recording);
    assert_eq!(acts.len(), 1);
    assert!(matches!(
        &acts[0],
        SessionAction::Device(DeviceCommand::SetMacroRecording(true))
    ));
    let acts = session.handle_event(
        &config,
        &profile,
        &DeviceEvent::KeyUp(KeyType::MacroRecord, 1),
        false,
    );
    assert!(!session.macro_recording);
    assert!(matches!(
        &acts[0],
        SessionAction::Device(DeviceCommand::SetMacroRecording(false))
    ));
}

#[test]
fn media_keys_become_key_combo_requests() {
    let (config, profile) = config_with_binding(1, ActivationType::Toggle);
    let mut session = DeviceThread::new(3);
    let acts = session.handle_event(
        &config,
        &profile,
        &DeviceEvent::MediaKeyDown(MediaKey::PlayPause),
        false,
    );
    assert_eq!(acts.len(), 1);
    match &acts[0] {
        SessionAction::WindowSystem(WindowSystemSignal::SendKeyCombo(combo)) => {
            assert_eq!(combo, "XF86AudioPlay");
        },
        _ => panic!("expected a key-combo request"),
    }
}

#[test]
fn indicator_tick_waits_for_the_blink_period() {
    let mut session = red_theme_session();
    let acts = session.update_macro_indicators(&Vec::new());
    assert!(acts.is_empty());
    assert_eq!(session.blink_timer, POLL_INTERVAL);
    assert!(!session.blink_state);
}

#[test]
fn indicator_tick_blinks_running_macros_and_relights_mode_leds() {
    let (config, profile) = config_with_binding(1, ActivationType::Toggle);
    let mut session = red_theme_session();
    let _ = session.macro_keydown(&config, &profile, 1, false);
    session.blink_timer = BLINK_DELAY;
    let acts = session.update_macro_indicators(&Vec::new());
    assert!(session.blink_state);
    assert_eq!(session.blink_timer, 0);
    assert_eq!(acts.len(), 3);
    match &acts[0] {
        SessionAction::Device(DeviceCommand::Set4(data)) => {
            assert_eq!(data.as_slice(), &[(Scancode::G1, Color::new(255, 0, 0))]);
        },
        _ => panic!("expected a per-key color update"),
    }
    assert!(matches!(&acts[1], SessionAction::Device(DeviceCommand::Commit)));
    assert!(matches!(
        &acts[2],
        SessionAction::Device(DeviceCommand::SetModeLeds(0b001))
    ));
}

#[test]
fn indicator_tick_restores_finished_macros_to_their_base_color() {
    let (config, profile) = config_with_binding(1, ActivationType::Singular);
    let mut session = red_theme_session();
    let _ = session.macro_keydown(&config, &profile, 1, false);
    session.blink_timer = BLINK_DELAY;
    let acts = session.update_macro_indicators(&vec![(1, 1)]);
    match &acts[0] {
        SessionAction::Device(DeviceCommand::Set4(data)) => {
            assert_eq!(data.as_slice(), &[(Scancode::G1, Color::new(255, 0, 0))]);
        },
        _ => panic!("expected a per-key color update"),
    }
    assert!(session.macro_states.lookup(1, 1).is_none());
}

#[test]
fn inactive_mode_led_blinks_only_while_it_has_running_macros() {
    let (config, profile) = config_with_binding(1, ActivationType::Toggle);
    let mut session = red_theme_session();
    let _ = session.macro_keydown(&config, &profile, 1, false);
    let _ = session.handle_event(&config, &profile, &DeviceEvent::KeyDown(KeyType::Mode, 2), false);
    session.blink_timer = BLINK_DELAY;
    session.blink_state = false;
    let acts = session.update_macro_indicators(&Vec::new());
    // on-phase: mode 2 active, mode 1 blinking because its macro still runs
    assert!(matches!(
        acts.last(),
        Some(SessionAction::Device(DeviceCommand::SetModeLeds(0b011)))
    ));
    session.blink_timer = BLINK_DELAY;
    let acts = session.update_macro_indicators(&Vec::new());
    // off-phase: only the active mode stays lit
    assert!(matches!(
        acts.last(),
        Some(SessionAction::Device(DeviceCommand::SetModeLeds(0b010)))
    ));
}

#[test]
fn applying_a_static_theme_records_the_custom_lighting_state() {
    let (config, profile) = config_with_binding(1, ActivationType::Toggle);
    let mut session = DeviceThread::new(3);
    let acts = session.apply_profile(&config, &profile);
    assert!(matches!(
        &acts[0],
        SessionAction::Device(DeviceCommand::ResetGameModeKeys)
    ));
    assert!(matches!(
        &acts[1],
        SessionAction::Device(DeviceCommand::SetAll(c)) if *c == Color::black()
    ));
    match &acts[2] {
        SessionAction::Device(DeviceCommand::Set13(color, keys)) => {
            assert_eq!(*color, Color::new(255, 0, 0));
            assert_eq!(keys.as_slice(), &[Scancode::G1]);
        },
        _ => panic!("expected the theme's color batch"),
    }
    assert!(matches!(
        acts.last(),
        Some(SessionAction::Device(DeviceCommand::Commit))
    ));
    match &session.lighting_state {
        CurrentLightingState::Custom(table) => {
            assert_eq!(table.as_slice(), &[(Color::new(255, 0, 0), vec![Scancode::G1])]);
        },
        _ => panic!("expected custom lighting after a static theme"),
    }
}

#[test]
fn overrides_are_regrouped_by_color() {
    let mut session = red_theme_session();
    session.set_override(Scancode::Mute, Some(Color::new(255, 0, 0)));
    session.set_override(Scancode::MediaNext, Some(Color::black()));
    session.set_override(Scancode::MediaPrevious, Some(Color::new(255, 0, 0)));
    let acts = session.apply_overrides();
    assert_eq!(acts.len(), 2);
    match (&acts[0], &acts[1]) {
        (
            SessionAction::Device(DeviceCommand::Set13(c1, k1)),
            SessionAction::Device(DeviceCommand::Set13(c2, k2)),
        ) => {
            assert_eq!(*c1, Color::new(255, 0, 0));
            assert_eq!(k1.as_slice(), &[Scancode::Mute, Scancode::MediaPrevious]);
            assert_eq!(*c2, Color::black());
            assert_eq!(k2.as_slice(), &[Scancode::MediaNext]);
        },
        _ => panic!("expected two color batches"),
    }
}

#[test]
fn overrides_are_meaningless_under_an_effect() {
    let mut session = DeviceThread::new(3);
    session.set_override(Scancode::Mute, Some(Color::new(255, 0, 0)));
    assert!(session.apply_overrides().is_empty());
}
