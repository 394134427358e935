use g815_driver::capability::{Capability, CapabilityData, CapabilityTable};
use g815_driver::events::KeyType;

#[test]
fn capability_ids_and_key_types_are_fixed() {
    assert_eq!(Capability::GKeys.id(), 0x8010);
    assert_eq!(Capability::ModeSwitching.id(), 0x8020);
    assert_eq!(Capability::MacroRecording.id(), 0x8030);
    assert_eq!(Capability::BrightnessAdjustment.id(), 0x8040);
    assert_eq!(Capability::GameMode.id(), 0x4522);
    assert_eq!(Capability::GKeys.key_type(), KeyType::GKey);
    assert_eq!(Capability::ModeSwitching.key_type(), KeyType::Mode);
    assert_eq!(Capability::MacroRecording.key_type(), KeyType::MacroRecord);
    assert_eq!(Capability::BrightnessAdjustment.key_type(), KeyType::Light);
    assert_eq!(Capability::GameMode.key_type(), KeyType::GameMode);
}

#[test]
fn unsupported_capability_never_populates_the_reverse_index() {
    let mut table = CapabilityTable::new();
    table.record(
        Capability::GameMode,
        CapabilityData { id: 0, key_type: None, key_count: None, raw: None },
    );
    let data = table.data(Capability::GameMode).expect("recorded");
    assert_eq!(data.id, 0);
    assert_eq!(table.reverse_lookup(0), None);
    for id in 0..=255u8 {
        assert_eq!(table.reverse_lookup(id), None);
    }
}

#[test]
fn supported_capability_populates_exactly_one_reverse_entry() {
    let mut table = CapabilityTable::new();
    table.record(
        Capability::GKeys,
        CapabilityData { id: 0x0a, key_type: Some(KeyType::GKey), key_count: Some(8), raw: None },
    );
    assert_eq!(table.reverse_lookup(0x0a), Some(Capability::GKeys));
    let mut hits = 0;
    for id in 0..=255u8 {
        if table.reverse_lookup(id).is_some() {
            hits += 1;
        }
    }
    assert_eq!(hits, 1);
}

#[test]
fn default_capability_data_is_unsupported() {
    let data = CapabilityData::default();
    assert_eq!(data.id, 0);
    assert!(data.key_type.is_none());
    assert!(data.key_count.is_none());
    assert!(data.raw.is_none());
}

#[test]
fn lookup_misses_report_nothing() {
    let table = CapabilityTable::new();
    assert!(table.data(Capability::GKeys).is_none());
    assert_eq!(table.reverse_lookup(0x0a), None);
}
