use g815_driver::color::Color;
use g815_driver::device::{build_effect_payload, game_mode_key_codes, parse_version, Command};
use g815_driver::rgb::{EffectConfiguration, EffectDirection, EffectGroup};
use g815_driver::scancode::Scancode;

#[test]
fn version_responses_decode_their_binary_coded_digits() {
    let data = vec![0x00, b'U', b'1', b' ', 0x12, 0x34, 0x00, 0x56];
    let info = parse_version(&data).expect("long enough");
    assert_eq!(info.name, vec![b'U', b'1', b' ']);
    assert_eq!(info.major, 100 + 12);
    assert_eq!(info.minor, 34);
    assert_eq!(info.build, 56);
}

#[test]
fn short_version_responses_are_rejected() {
    let data = vec![0x00, 1, 2, 3, 4, 5, 6];
    assert!(parse_version(&data).is_none());
}

#[test]
fn effect_payloads_match_the_wire_layout() {
    let off = build_effect_payload(EffectGroup::Keys, &EffectConfiguration::Off);
    assert_eq!(off, vec![1, 0, 0, 0, 0, 0, 0, 0, 0, 0, 0, 0, 1, 0, 0, 0]);

    let fixed = build_effect_payload(
        EffectGroup::Logo,
        &EffectConfiguration::Static { color: Color::new(10, 20, 30) },
    );
    assert_eq!(fixed, vec![0, 1, 10, 20, 30, 2, 0, 0, 0, 0, 0, 0, 1, 0, 0, 0]);

    let breathing = build_effect_payload(
        EffectGroup::Keys,
        &EffectConfiguration::Breathing { color: Color::new(1, 2, 3), duration: 0x1234, brightness: 80 },
    );
    assert_eq!(breathing, vec![1, 2, 1, 2, 3, 0x12, 0x34, 80, 0, 0, 0, 0, 1, 0, 0, 0]);

    let cycle = build_effect_payload(
        EffectGroup::Keys,
        &EffectConfiguration::Cycle { duration: 0x0a0b, brightness: 90 },
    );
    assert_eq!(cycle, vec![1, 3, 0, 0, 0, 0, 0, 0x0a, 0x0b, 90, 0, 0, 1, 0, 0, 0]);

    let wave = build_effect_payload(
        EffectGroup::Keys,
        &EffectConfiguration::ColorWave {
            direction: EffectDirection::CenterOut,
            duration: 0x0102,
            brightness: 70,
        },
    );
    assert_eq!(wave, vec![1, 4, 0, 0, 0, 0, 0, 0, 0x02, 3, 70, 0x01, 1, 0, 0, 0]);

    let ripple = build_effect_payload(
        EffectGroup::Keys,
        &EffectConfiguration::Ripple { color: Color::new(9, 8, 7), duration: 150 },
    );
    assert_eq!(ripple, vec![1, 5, 9, 8, 7, 0, 0, 150, 0, 0, 0, 0, 1, 0, 0, 0]);
}

#[test]
fn game_mode_codes_drop_keys_the_device_refuses() {
    let keys = vec![
        Scancode::A,
        Scancode::G1,
        Scancode::LeftMeta,
        Scancode::Space,
        Scancode::Mute,
        Scancode::Logo,
        Scancode::MediaPlayPause,
    ];
    let codes = game_mode_key_codes(&keys);
    assert_eq!(codes, vec![Scancode::A.hid_code(), Scancode::Space.hid_code()]);
}

#[test]
fn command_codes_carry_the_session_nibble() {
    assert_eq!(Command::InitializeSession.code(), 0x001a);
    assert_eq!(Command::Set13.code(), 0x106a);
    assert_eq!(Command::Set4.code(), 0x101a);
    assert_eq!(Command::SetEffect.code(), 0x0f1a);
    assert_eq!(Command::Commit.code(), 0x107a);
    assert_eq!(Command::CapabilityInfo.code(), 0x000a);
    assert_eq!(Command::SetModeLeds.code(), 0x0b1a);
    assert_eq!(Command::GameModeAddKeys.code(), 0x081a);
}
