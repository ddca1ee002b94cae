use eps_core::snapshot::StateSnapshot;

fn snapshot_from(b: u8) -> StateSnapshot {
    StateSnapshot {
        bat_1: b & 1 != 0,
        bat_2: b & 2 != 0,
        aux_pwr: b & 4 != 0,
        rocket_lst: b & 8 != 0,
        sensor_upp: b & 16 != 0,
        rocket_hd: b & 32 != 0,
    }
}

#[test]
fn round_trip_holds_for_all_64_combinations() {
    for b in 0u8..64 {
        let snap = snapshot_from(b);
        let bits = snap.bits();
        assert_eq!(bits, b);
        assert_eq!(StateSnapshot::from_bits(bits), Some(snap));
    }
}

#[test]
fn bytes_with_unused_high_bits_are_rejected() {
    for b in 64u8..=255 {
        assert_eq!(StateSnapshot::from_bits(b), None);
    }
}

#[test]
fn each_flag_has_its_fixed_bit_position() {
    let mut snap = snapshot_from(0);
    assert_eq!(snap.bits(), 0);
    snap.bat_1 = true;
    assert_eq!(snap.bits(), 1);
    snap.bat_1 = false;
    snap.bat_2 = true;
    assert_eq!(snap.bits(), 2);
    snap.bat_2 = false;
    snap.aux_pwr = true;
    assert_eq!(snap.bits(), 4);
    snap.aux_pwr = false;
    snap.rocket_lst = true;
    assert_eq!(snap.bits(), 8);
    snap.rocket_lst = false;
    snap.sensor_upp = true;
    assert_eq!(snap.bits(), 16);
    snap.sensor_upp = false;
    snap.rocket_hd = true;
    assert_eq!(snap.bits(), 32);
}
