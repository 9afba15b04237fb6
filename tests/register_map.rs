use tps65185::{DeviceVersion, Register};

const ALL: [(Register, u8); 17] = [
    (Register::TMST_VALUE, 0x00),
    (Register::ENABLE, 0x01),
    (Register::VADJ, 0x02),
    (Register::VCOM1, 0x03),
    (Register::VCOM2, 0x04),
    (Register::INT_EN1, 0x05),
    (Register::INT_EN2, 0x06),
    (Register::INT1, 0x07),
    (Register::INT2, 0x08),
    (Register::UPSEQ0, 0x09),
    (Register::UPSEQ1, 0x0a),
    (Register::DWNSEQ0, 0x0b),
    (Register::DWNSEQ1, 0x0c),
    (Register::TMST1, 0x0d),
    (Register::TMST2, 0x0e),
    (Register::PG, 0x0f),
    (Register::REVID, 0x10),
];

#[test]
fn register_addresses_match_data_sheet() {
    for (register, address) in ALL {
        assert_eq!(register.addr(), address);
    }
}

#[test]
fn register_addresses_are_distinct() {
    for (i, (a, _)) in ALL.iter().enumerate() {
        for (j, (b, _)) in ALL.iter().enumerate() {
            assert_eq!(a.addr() == b.addr(), i == j);
        }
    }
}

#[test]
fn identity_lookup_knows_exactly_four_bytes() {
    let mut known = 0;
    for b in 0u8..=255 {
        match DeviceVersion::from_repr(b) {
            Some(v) => {
                known += 1;
                assert!(b == 0x45 || b == 0x55 || b == 0x65 || b == 0x66);
                assert_eq!(v.repr(), b);
            }
            None => assert!(b != 0x45 && b != 0x55 && b != 0x65 && b != 0x66),
        }
    }
    assert_eq!(known, 4);
}

#[test]
fn identity_bytes_name_their_revisions() {
    assert_eq!(DeviceVersion::from_repr(0x45), Some(DeviceVersion::Tps65185_1p0));
    assert_eq!(DeviceVersion::from_repr(0x55), Some(DeviceVersion::Tps65185_1p1));
    assert_eq!(DeviceVersion::from_repr(0x65), Some(DeviceVersion::Tps65185_1p2));
    assert_eq!(DeviceVersion::from_repr(0x66), Some(DeviceVersion::Tps651851_1p0));
    assert_eq!(DeviceVersion::from_repr(0x99), None);
    assert_eq!(DeviceVersion::from_repr(0x00), None);
}
