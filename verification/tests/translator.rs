use g815_driver::capability::{Capability, CapabilityData, CapabilityTable};
use g815_driver::events::{
    events_from_interrupt, key_events_for_change, media_events_for_change, DeviceEvent,
    KeyBitmasks, KeyType, MediaKey,
};

fn discovered_table() -> CapabilityTable {
    let mut table = CapabilityTable::new();
    table.record(
        Capability::GKeys,
        CapabilityData { id: 0x0a, key_type: Some(KeyType::GKey), key_count: Some(8), raw: None },
    );
    table.record(
        Capability::ModeSwitching,
        CapabilityData { id: 0x0b, key_type: Some(KeyType::Mode), key_count: Some(3), raw: None },
    );
    table.record(
        Capability::BrightnessAdjustment,
        CapabilityData { id: 0x0d, key_type: Some(KeyType::Light), key_count: Some(1), raw: None },
    );
    table
}

#[test]
fn two_new_bits_emit_two_key_downs() {
    let events = key_events_for_change(KeyType::GKey, 0b0000000, 0b0000011, 8);
    assert_eq!(
        events,
        vec![
            DeviceEvent::KeyDown(KeyType::GKey, 1),
            DeviceEvent::KeyDown(KeyType::GKey, 2),
        ]
    );
}

#[test]
fn cleared_bit_emits_key_up_and_unchanged_bits_nothing() {
    let events = key_events_for_change(KeyType::GKey, 0b0000110, 0b0000010, 8);
    assert_eq!(events, vec![DeviceEvent::KeyUp(KeyType::GKey, 3)]);
    let unchanged = key_events_for_change(KeyType::GKey, 0b0000110, 0b0000110, 8);
    assert_eq!(unchanged, Vec::new());
}

#[test]
fn key_count_limits_observed_bits() {
    let events = key_events_for_change(KeyType::Mode, 0b000, 0b1001, 3);
    assert_eq!(events, vec![DeviceEvent::KeyDown(KeyType::Mode, 1)]);
}

#[test]
fn media_bitmask_diff_maps_assigned_bits() {
    let events = media_events_for_change(0b0000000, 0b1000001);
    assert_eq!(
        events,
        vec![
            DeviceEvent::MediaKeyDown(MediaKey::Next),
            DeviceEvent::MediaKeyDown(MediaKey::Mute),
        ]
    );
    let releases = media_events_for_change(0b1000001, 0b0000000);
    assert_eq!(
        releases,
        vec![
            DeviceEvent::MediaKeyUp(MediaKey::Next),
            DeviceEvent::MediaKeyUp(MediaKey::Mute),
        ]
    );
}

#[test]
fn media_unassigned_bit_is_ignored() {
    let events = media_events_for_change(0, 0b0000100);
    assert_eq!(events, Vec::new());
}

#[test]
fn media_interrupt_updates_stored_bitmask() {
    let table = discovered_table();
    let mut masks = KeyBitmasks::new();
    let press = vec![0x03, 0x01];
    let events = events_from_interrupt(&mut masks, &table, &press);
    assert_eq!(events, vec![DeviceEvent::MediaKeyDown(MediaKey::Next)]);
    let repeat = events_from_interrupt(&mut masks, &table, &press);
    assert_eq!(repeat, Vec::new());
    let release = vec![0x03, 0x00];
    let events = events_from_interrupt(&mut masks, &table, &release);
    assert_eq!(events, vec![DeviceEvent::MediaKeyUp(MediaKey::Next)]);
}

#[test]
fn capability_interrupt_resolves_dynamic_id() {
    let table = discovered_table();
    let mut masks = KeyBitmasks::new();
    let gkey_press = vec![0x11, 0xff, 0x0a, 0x00, 0b0000001];
    let events = events_from_interrupt(&mut masks, &table, &gkey_press);
    assert_eq!(events, vec![DeviceEvent::KeyDown(KeyType::GKey, 1)]);
    let gkey_release = vec![0x11, 0xff, 0x0a, 0x00, 0b0000000];
    let events = events_from_interrupt(&mut masks, &table, &gkey_release);
    assert_eq!(events, vec![DeviceEvent::KeyUp(KeyType::GKey, 1)]);
}

#[test]
fn brightness_interrupt_reports_level() {
    let table = discovered_table();
    let mut masks = KeyBitmasks::new();
    let brightness = vec![0x11, 0xff, 0x0d, 0x00, 0x00, 60];
    let events = events_from_interrupt(&mut masks, &table, &brightness);
    assert_eq!(events, vec![DeviceEvent::BrightnessLevelChanged(60)]);
}

#[test]
fn unknown_dynamic_id_and_malformed_buffers_yield_nothing() {
    let table = discovered_table();
    let mut masks = KeyBitmasks::new();
    let unknown = vec![0x11, 0xff, 0x77, 0x00, 0x01];
    assert_eq!(events_from_interrupt(&mut masks, &table, &unknown), Vec::new());
    let bad_header = vec![0x10, 0xff, 0x0a, 0x00, 0x01];
    assert_eq!(events_from_interrupt(&mut masks, &table, &bad_header), Vec::new());
    let empty: Vec<u8> = Vec::new();
    assert_eq!(events_from_interrupt(&mut masks, &table, &empty), Vec::new());
    let short = vec![0x11, 0xff];
    assert_eq!(events_from_interrupt(&mut masks, &table, &short), Vec::new());
}
