use posidonius_core::output::AxesBits;
use posidonius_core::output::HISTORIC_RECORD_BYTES;
use posidonius_core::output::HistoricRecord;
use posidonius_core::output::encode_historic_record;
use posidonius_core::output::expected_history_bytes;
use posidonius_core::output::n_bytes_per_particle_in_historic_snapshot;

fn zero_axes() -> AxesBits {
    AxesBits { x: 0, y: 0, z: 0 }
}

fn zero_record() -> HistoricRecord {
    HistoricRecord {
        current_time: 0,
        id: 0,
        inertial_position: zero_axes(),
        inertial_velocity: zero_axes(),
        spin: zero_axes(),
        acceleration: zero_axes(),
        denergy_dt: 0,
        dangular_momentum_dt: zero_axes(),
    }
}

#[test]
fn record_is_one_hundred_forty_four_bytes() {
    assert_eq!(HISTORIC_RECORD_BYTES, 144);
    assert_eq!(n_bytes_per_particle_in_historic_snapshot(), 144);
    let bytes = encode_historic_record(&zero_record());
    assert_eq!(bytes.len(), 144);
}

#[test]
fn fields_are_little_endian_in_declaration_order() {
    let mut record = zero_record();
    record.current_time = 0x0807060504030201;
    record.id = 42;
    record.spin = AxesBits { x: 1, y: 0x1122334455667788, z: 2 };
    let bytes = encode_historic_record(&record);
    // current_time at offset 0, least significant byte first.
    assert_eq!(&bytes[0..8], &[1, 2, 3, 4, 5, 6, 7, 8]);
    // id at offset 8.
    assert_eq!(&bytes[8..16], &[42, 0, 0, 0, 0, 0, 0, 0]);
    // spin is the fifth field: 2 scalars and 2 triples come before it,
    // so its x component starts at byte 64 and its y component at byte 72.
    assert_eq!(&bytes[64..72], &[1, 0, 0, 0, 0, 0, 0, 0]);
    assert_eq!(&bytes[72..80], &[0x88, 0x77, 0x66, 0x55, 0x44, 0x33, 0x22, 0x11]);
    // dangular_momentum_dt is the last triple; everything after spin.y is zero
    // in this record.
    assert_eq!(&bytes[136..144], &[0, 0, 0, 0, 0, 0, 0, 0]);
}

#[test]
fn double_fields_serialize_as_ieee_le_bytes() {
    let time: f64 = 123.25;
    let spin_y: f64 = -0.25;
    let mut record = zero_record();
    record.current_time = time.to_bits();
    record.spin = AxesBits { x: 0, y: spin_y.to_bits(), z: 0 };
    let bytes = encode_historic_record(&record);
    assert_eq!(&bytes[0..8], &time.to_le_bytes());
    assert_eq!(&bytes[72..80], &spin_y.to_le_bytes());
    let mut raw = [0u8; 8];
    raw.copy_from_slice(&bytes[0..8]);
    assert_eq!(f64::from_bits(u64::from_le_bytes(raw)), 123.25);
}

#[test]
fn history_byte_budget_is_the_triple_product() {
    let per_particle = n_bytes_per_particle_in_historic_snapshot();
    assert_eq!(expected_history_bytes(1000, per_particle, 4), Some(576_000));
    assert_eq!(expected_history_bytes(1, 144, 1), Some(144));
    assert_eq!(expected_history_bytes(0, 144, 9), Some(0));
}

#[test]
fn history_byte_budget_overflow_is_reported() {
    assert_eq!(expected_history_bytes(u64::MAX, 144, 2), None);
    assert_eq!(expected_history_bytes(u64::MAX, u64::MAX, u64::MAX), None);
}

#[test]
fn empty_system_has_an_empty_budget_even_past_overflow() {
    assert_eq!(expected_history_bytes(u64::MAX, u64::MAX, 0), Some(0));
}
