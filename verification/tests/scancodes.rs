use g815_driver::scancode::{all_scancodes, Scancode};

#[test]
fn rgb_ids_of_ordinary_keys_sit_three_below_their_scancode() {
    assert_eq!(Scancode::A.hid_code(), 4);
    assert_eq!(Scancode::A.rgb_id(), 1);
    assert_eq!(Scancode::Space.hid_code(), 44);
    assert_eq!(Scancode::Space.rgb_id(), 41);
    assert_eq!(Scancode::Backslash.hid_code(), 100);
    assert_eq!(Scancode::Backslash.rgb_id(), 97);
}

#[test]
fn irregular_rgb_ids_match_the_hand_derived_table() {
    assert_eq!(Scancode::Mute.hid_code(), 0x7f);
    assert_eq!(Scancode::Mute.rgb_id(), 0x9c);
    assert_eq!(Scancode::ContextMenu.hid_code(), 0x76);
    assert_eq!(Scancode::ContextMenu.rgb_id(), 0x62);
    assert_eq!(Scancode::LeftControl.hid_code(), 0xe0);
    assert_eq!(Scancode::LeftControl.rgb_id(), 0x68);
    assert_eq!(Scancode::RightMeta.hid_code(), 0xe7);
    assert_eq!(Scancode::RightMeta.rgb_id(), 0x6f);
}

#[test]
fn rgb_only_keys_keep_their_value() {
    assert_eq!(Scancode::G1.rgb_id(), 0xb4);
    assert_eq!(Scancode::G8.rgb_id(), 0xbb);
    assert_eq!(Scancode::Logo.rgb_id(), 0xd2);
    assert_eq!(Scancode::Light.rgb_id(), 0x99);
    assert_eq!(Scancode::MediaPrevious.rgb_id(), 0x9e);
    assert_eq!(Scancode::MediaNext.rgb_id(), 0x9d);
    assert_eq!(Scancode::MediaPlayPause.rgb_id(), 0x9b);
}

#[test]
fn rgb_ids_never_collide() {
    let all = all_scancodes();
    for (i, a) in all.iter().enumerate() {
        for b in all.iter().skip(i + 1) {
            assert_ne!(a.rgb_id(), b.rgb_id(), "{:?} and {:?} share an RGB id", a, b);
        }
    }
}

#[test]
fn gkey_numbering_round_trips() {
    for number in 1..=8u8 {
        let key = Scancode::from_gkey(number).expect("every G-key number names a key");
        assert_eq!(key.gkey_number(), Some(number));
    }
    assert_eq!(Scancode::from_gkey(0), None);
    assert_eq!(Scancode::from_gkey(9), None);
    assert_eq!(Scancode::A.gkey_number(), None);
}

#[test]
fn the_key_matrix_lists_every_key_once() {
    let all = all_scancodes();
    assert_eq!(all.len(), 120);
    assert!(all.contains(&Scancode::A));
    assert!(all.contains(&Scancode::Logo));
    for (i, a) in all.iter().enumerate() {
        for b in all.iter().skip(i + 1) {
            assert_ne!(a, b);
        }
    }
}
