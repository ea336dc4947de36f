use rubble::uuid::{AttUuid, Uuid128, Uuid16};

/// The Bluetooth base UUID with `short` substituted at bytes 12..14 of the
/// little-endian byte form (bits 96..112 of the 128-bit value).
fn base_expansion_bytes(short: u16) -> [u8; 16] {
    let mut bytes = [
        0xFB, 0x34, 0x9B, 0x5F, 0x80, 0x00, 0x00, 0x80, 0x00, 0x10, 0x00, 0x00, 0x00, 0x00, 0x00,
        0x00,
    ];
    bytes[12] = (short & 0xFF) as u8;
    bytes[13] = (short >> 8) as u8;
    bytes
}

#[test]
fn uuid16_equals_its_base_expansion() {
    let short = AttUuid::Uuid16(Uuid16(0x2800));
    let long = AttUuid::Uuid128(Uuid128::from_bytes(base_expansion_bytes(0x2800)));
    assert!(short == long);
    assert!(long == short);
}

#[test]
fn from_uuid16_matches_byte_level_expansion() {
    for short in [0x0000u16, 0x2800, 0x2803, 0x2A19, 0xFFFF] {
        let from_short = Uuid128::from_uuid16(Uuid16(short));
        let from_bytes = Uuid128::from_bytes(base_expansion_bytes(short));
        assert!(AttUuid::Uuid128(from_short) == AttUuid::Uuid128(from_bytes));
    }
}

#[test]
fn distinct_uuid16_never_equal() {
    assert!(AttUuid::Uuid16(Uuid16(0x2800)) != AttUuid::Uuid16(Uuid16(0x2803)));
    assert!(AttUuid::Uuid16(Uuid16(0x0001)) != AttUuid::Uuid16(Uuid16(0x0002)));
}

#[test]
fn uuid16_equal_to_itself_in_either_representation() {
    let short = AttUuid::Uuid16(Uuid16(0x2A19));
    let long = AttUuid::Uuid128(Uuid128::from_uuid16(Uuid16(0x2A19)));
    assert!(short == short);
    assert!(long == long);
    assert!(short == long);
}

#[test]
fn uuid16_does_not_equal_foreign_uuid128() {
    // a 128-bit UUID that is not a base expansion (the MIDI service UUID)
    let midi = AttUuid::Uuid128(Uuid128::from_bytes([
        0x00, 0xC7, 0xC4, 0x4E, 0xE3, 0x6C, 0x51, 0xA7, 0x33, 0x4B, 0xE8, 0xED, 0x5A, 0x0E, 0xB8,
        0x03,
    ]));
    assert!(AttUuid::Uuid16(Uuid16(0x2800)) != midi);
    assert!(midi != AttUuid::Uuid16(Uuid16(0x2800)));
}

#[test]
fn distinct_uuid128_never_equal() {
    let a = Uuid128::from_bytes([
        0x00, 0xC7, 0xC4, 0x4E, 0xE3, 0x6C, 0x51, 0xA7, 0x33, 0x4B, 0xE8, 0xED, 0x5A, 0x0E, 0xB8,
        0x03,
    ]);
    let b = Uuid128::from_bytes([
        0xF3, 0x6B, 0x10, 0x9D, 0x66, 0xF2, 0xA9, 0xA1, 0x12, 0x41, 0x68, 0x38, 0xDB, 0xE5, 0x72,
        0x77,
    ]);
    assert!(AttUuid::Uuid128(a) != AttUuid::Uuid128(b));
}
