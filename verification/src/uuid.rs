//! Bluetooth UUIDs.
//!
//! Attribute types are identified by UUIDs that come in a short 16-bit form
//! and a full 128-bit form. A 16-bit UUID `U` stands for the 128-bit UUID
//! obtained by substituting `U` into the Bluetooth SIG base UUID
//! `00000000-0000-1000-8000-00805F9B34FB` at the standardized offset, so
//! equality between the two forms must expand the short form first.

use vstd::prelude::*;

verus! {

/// The Bluetooth SIG base UUID `00000000-0000-1000-8000-00805F9B34FB` as one
/// 128-bit number.
pub const BLUETOOTH_BASE_UUID: u128 = 0x00000000_0000_1000_8000_00805F9B34FB;

/// A 16-bit short-form UUID.
#[derive(Copy, Clone, Debug, PartialEq, Eq, Structural)]
pub struct Uuid16(pub u16);

/// A full 128-bit UUID.
#[derive(Copy, Clone, Debug, PartialEq, Eq, Structural)]
pub struct Uuid128(u128);

/// The 128-bit UUID that a 16-bit UUID abbreviates: the short value replaces
/// bits 96..112 of the base UUID.
pub open spec fn spec_base_uuid_expansion(short: u16) -> u128 {
    BLUETOOTH_BASE_UUID | ((short as u128) << 96)
}

/// A 128-bit value read from 16 bytes in little-endian order: byte `i`
/// contributes bits `8*i .. 8*i+8`.
pub open spec fn spec_u128_from_le_bytes(s: Seq<u8>) -> u128
    recommends
        s.len() == 16,
{
    (s[0] as u128) | ((s[1] as u128) << 8) | ((s[2] as u128) << 16) | ((s[3] as u128) << 24) | (
    (s[4] as u128) << 32) | ((s[5] as u128) << 40) | ((s[6] as u128) << 48) | ((s[7] as u128)
        << 56) | ((s[8] as u128) << 64) | ((s[9] as u128) << 72) | ((s[10] as u128) << 80) | ((
    s[11] as u128) << 88) | ((s[12] as u128) << 96) | ((s[13] as u128) << 104) | ((s[14] as u128)
        << 112) | ((s[15] as u128) << 120)
}

impl Uuid128 {
    /// The 128-bit value carried by this UUID.
    pub closed spec fn spec_value(self) -> u128 {
        self.0
    }

    /// Creates a 128-bit UUID from its 16 bytes, stored byte-reversed
    /// (little-endian) relative to the canonical hyphenated textual form.
    pub fn from_bytes(bytes: [u8; 16]) -> (uuid: Self)
        ensures
            uuid.spec_value() == spec_u128_from_le_bytes(bytes@),
    {
        Uuid128(
            (bytes[0] as u128) | ((bytes[1] as u128) << 8) | ((bytes[2] as u128) << 16) | ((
            bytes[3] as u128) << 24) | ((bytes[4] as u128) << 32) | ((bytes[5] as u128) << 40) | ((
            bytes[6] as u128) << 48) | ((bytes[7] as u128) << 56) | ((bytes[8] as u128) << 64) | ((
            bytes[9] as u128) << 72) | ((bytes[10] as u128) << 80) | ((bytes[11] as u128) << 88)
                | ((bytes[12] as u128) << 96) | ((bytes[13] as u128) << 104) | ((bytes[14] as u128)
                << 112) | ((bytes[15] as u128) << 120),
        )
    }

    /// The 128-bit base-UUID expansion of a 16-bit UUID.
    pub fn from_uuid16(short: Uuid16) -> (uuid: Self)
        ensures
            uuid.spec_value() == spec_base_uuid_expansion(short.0),
    {
        Uuid128(BLUETOOTH_BASE_UUID | ((short.0 as u128) << 96))
    }
}

/// An attribute-type UUID: either a 16-bit short form or a full 128-bit UUID.
#[derive(Copy, Clone, Debug)]
pub enum AttUuid {
    Uuid16(Uuid16),
    Uuid128(Uuid128),
}

/// UUID-space-correct equality: a 16-bit UUID equals the 128-bit UUID formed
/// by substituting it into the Bluetooth base UUID; two values in the same
/// form are equal exactly when their numbers are.
pub open spec fn spec_att_uuid_matches(a: AttUuid, b: AttUuid) -> bool {
    match (a, b) {
        (AttUuid::Uuid16(x), AttUuid::Uuid16(y)) => x.0 == y.0,
        (AttUuid::Uuid16(x), AttUuid::Uuid128(v)) => v.spec_value() == spec_base_uuid_expansion(
            x.0,
        ),
        (AttUuid::Uuid128(u), AttUuid::Uuid16(y)) => u.spec_value() == spec_base_uuid_expansion(
            y.0,
        ),
        (AttUuid::Uuid128(u), AttUuid::Uuid128(v)) => u.spec_value() == v.spec_value(),
    }
}

impl PartialEq for AttUuid {
    fn eq(&self, other: &AttUuid) -> (r: bool) {
        match (self, other) {
            (AttUuid::Uuid16(x), AttUuid::Uuid16(y)) => x.0 == y.0,
            (AttUuid::Uuid16(x), AttUuid::Uuid128(v)) => *v == Uuid128::from_uuid16(*x),
            (AttUuid::Uuid128(u), AttUuid::Uuid16(y)) => *u == Uuid128::from_uuid16(*y),
            (AttUuid::Uuid128(u), AttUuid::Uuid128(v)) => u == v,
        }
    }
}

impl vstd::std_specs::cmp::PartialEqSpecImpl for AttUuid {
    open spec fn obeys_eq_spec() -> bool {
        true
    }

    open spec fn eq_spec(&self, other: &AttUuid) -> bool {
        spec_att_uuid_matches(*self, *other)
    }
}

/// UUID equality is symmetric.
pub proof fn lemma_att_uuid_matches_symmetric(a: AttUuid, b: AttUuid)
    ensures
        spec_att_uuid_matches(a, b) == spec_att_uuid_matches(b, a),
{
}

/// A 16-bit UUID and its 128-bit base-UUID expansion compare equal, in either
/// order.
pub proof fn lemma_uuid16_matches_base_expansion(x: Uuid16, v: Uuid128)
    requires
        v.spec_value() == spec_base_uuid_expansion(x.0),
    ensures
        spec_att_uuid_matches(AttUuid::Uuid16(x), AttUuid::Uuid128(v)),
        spec_att_uuid_matches(AttUuid::Uuid128(v), AttUuid::Uuid16(x)),
{
}

/// Two distinct 16-bit UUIDs never compare equal, in either representation of
/// the comparison.
pub proof fn lemma_distinct_uuid16_never_equal(x: Uuid16, y: Uuid16)
    requires
        x.0 != y.0,
    ensures
        !spec_att_uuid_matches(AttUuid::Uuid16(x), AttUuid::Uuid16(y)),
{
}

} // verus!
