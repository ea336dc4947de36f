//! Generic Attribute Profile (GATT) service tables.
//!
//! GATT describes a service framework that uses the Attribute Protocol for
//! discovery and interaction. This module holds two demo service tables, each
//! an `AttributeProvider`: a Battery Service and a MIDI Service.

use crate::att::{
    range_end_index, range_start_index, Attribute, AttributeProvider, Handle, HandleRange,
};
use crate::uuid::{spec_att_uuid_matches, AttUuid, Uuid128, Uuid16};
use vstd::prelude::*;

verus! {

/// The 16-bit UUID of the "Primary Service" grouping attribute type.
pub const PRIMARY_SERVICE_UUID16: u16 = 0x2800;

/// The 16-bit UUID of the "Characteristic" declaration attribute type.
pub const CHARACTERISTIC_UUID16: u16 = 0x2803;

/// The 16-bit UUID of the "Client Characteristic Configuration" descriptor.
pub const CCCD_UUID16: u16 = 0x2902;

/// Whether a UUID denotes the "Primary Service" attribute type, under
/// UUID-space-correct equality. Primary Service declarations are the only
/// grouping attribute type the demo tables recognize.
pub open spec fn spec_is_primary_service(uuid: AttUuid) -> bool {
    spec_att_uuid_matches(uuid, AttUuid::Uuid16(Uuid16(PRIMARY_SERVICE_UUID16)))
}

/// The exact contents of the Battery Service demo table: a Primary Service
/// declaration for the Battery Service (0x180F) at handle 1, a
/// read-only Characteristic declaration at handle 2, and the Battery Level
/// (0x2A19) value attribute at handle 3.
pub open spec fn spec_battery_table(s: Seq<Attribute>) -> bool {
    &&& s.len() == 3
    &&& s[0].att_type == AttUuid::Uuid16(Uuid16(PRIMARY_SERVICE_UUID16))
    &&& s[0].handle.spec_raw() == 1
    &&& s[0].value@ == seq![0x0Fu8, 0x18u8]
    &&& s[1].att_type == AttUuid::Uuid16(Uuid16(CHARACTERISTIC_UUID16))
    &&& s[1].handle.spec_raw() == 2
    &&& s[1].value@ == seq![0x02u8, 0x03u8, 0x00u8, 0x19u8, 0x2Au8]
    &&& s[2].att_type == AttUuid::Uuid16(Uuid16(0x2A19))
    &&& s[2].handle.spec_raw() == 3
    &&& s[2].value@ == seq![48u8]
}

/// A demo `AttributeProvider` that will enumerate as a *Battery Service*.
pub struct BatteryServiceAttrs {
    attributes: Vec<Attribute>,
}

impl Default for BatteryServiceAttrs {
    /// Builds the three-attribute Battery Service table.
    fn default() -> (table: Self)
        ensures
            table.wf(),
            spec_battery_table(table.attrs()),
    {
        let mut attributes: Vec<Attribute> = Vec::new();
        attributes.push(
            Attribute::new(
                // "Primary Service"
                AttUuid::Uuid16(Uuid16(PRIMARY_SERVICE_UUID16)),
                Handle::from_raw(0x0001),
                // "Battery Service" = 0x180F
                vec![0x0F, 0x18],
            ),
        );
        attributes.push(
            Attribute::new(
                // "Characteristic"
                AttUuid::Uuid16(Uuid16(CHARACTERISTIC_UUID16)),
                Handle::from_raw(0x0002),
                vec![
                    // 1 byte properties: READ = 0x02
                    0x02,
                    // 2 bytes handle = 0x0003
                    0x03,
                    0x00,
                    // 2 bytes UUID = 0x2A19 (Battery Level)
                    0x19,
                    0x2A,
                ],
            ),
        );
        // Characteristic value (Battery Level)
        attributes.push(
            Attribute::new(AttUuid::Uuid16(Uuid16(0x2A19)), Handle::from_raw(0x0003), vec![48u8]),
        );
        proof {
            assert(attributes@[0].value@ =~= seq![0x0Fu8, 0x18u8]);
            assert(attributes@[1].value@ =~= seq![0x02u8, 0x03u8, 0x00u8, 0x19u8, 0x2Au8]);
            assert(attributes@[2].value@ =~= seq![48u8]);
        }
        Self { attributes }
    }
}

impl AttributeProvider for BatteryServiceAttrs {
    closed spec fn attrs(&self) -> Seq<Attribute> {
        self.attributes@
    }

    open spec fn wf(&self) -> bool {
        spec_battery_table(self.attrs())
    }

    open spec fn grouping_spec(&self, uuid: AttUuid) -> bool {
        spec_is_primary_service(uuid)
    }

    open spec fn group_end_index(&self, handle: u16) -> Option<int> {
        if handle == 1 || handle == 2 {
            Some(2int)
        } else {
            None
        }
    }

    proof fn wf_implies_table_wf(&self) {
    }

    proof fn group_end_consistent(&self, handle: u16) {
    }

    fn for_attrs_in_range<E, F: Fn(&Attribute) -> Result<(), E>>(
        &self,
        range: HandleRange,
        f: F,
    ) -> (r: Result<(), E>) {
        let count = self.attributes.len();
        // handles start at 1, not 0
        let start = (range.start().as_u16() - 1) as usize;
        let end_raw = (range.end().as_u16() - 1) as usize;
        if start >= count {
            return Ok(());
        }
        let end = if end_raw < count - 1 {
            end_raw
        } else {
            count - 1
        };
        let mut i = start;
        while i <= end
            invariant
                start <= i <= end + 1,
                start == range_start_index(range),
                end == range_end_index(range, self.attrs().len() as int),
                end < self.attrs().len(),
                count == self.attrs().len(),
                forall|k: int|
                    start <= k <= end ==> call_requires(f, (&self.attrs()[k],)),
                forall|j: int|
                    start <= j < i ==> call_ensures(f, (&self.attrs()[j],), Ok(())),
            decreases end + 1 - i,
        {
            let res = f(&self.attributes[i]);
            proof {
                assert(call_ensures(f, (&self.attrs()[i as int],), res));
            }
            match &res {
                Ok(_) => {
                    proof {
                        assert(res is Ok);
                        assert(res->Ok_0 == ());
                        assert(res == Ok::<(), E>(()));
                    }
                },
                Err(_) => {
                    proof {
                        assert(call_ensures(f, (&self.attrs()[i as int],), Err(res->Err_0)));
                    }
                    return res;
                },
            }
            i += 1;
        }
        Ok(())
    }

    fn is_grouping_attr(&self, uuid: AttUuid) -> (r: bool) {
        uuid == AttUuid::Uuid16(Uuid16(PRIMARY_SERVICE_UUID16))
    }

    fn group_end(&self, handle: Handle) -> (r: Option<&Attribute>) {
        match handle.as_u16() {
            0x0001 => Some(&self.attributes[2]),
            0x0002 => Some(&self.attributes[2]),
            _ => None,
        }
    }
}

/// The 128-bit UUID of the MIDI Service
/// (`03B80E5A-EDE8-4B33-A751-6CE34EC4C700`), as stored on the wire:
/// byte-reversed (little-endian) relative to the canonical textual form.
pub open spec fn spec_midi_service_uuid_bytes() -> Seq<u8> {
    seq![
        0x00u8,
        0xC7u8,
        0xC4u8,
        0x4Eu8,
        0xE3u8,
        0x6Cu8,
        0x51u8,
        0xA7u8,
        0x33u8,
        0x4Bu8,
        0xE8u8,
        0xEDu8,
        0x5Au8,
        0x0Eu8,
        0xB8u8,
        0x03u8,
    ]
}

/// The 128-bit UUID of the MIDI Data I/O characteristic
/// (`7772E5DB-3868-4112-A1A9-F2669D106BF3`), as stored on the wire:
/// byte-reversed (little-endian) relative to the canonical textual form.
pub open spec fn spec_midi_data_io_uuid_bytes() -> Seq<u8> {
    seq![
        0xF3u8,
        0x6Bu8,
        0x10u8,
        0x9Du8,
        0x66u8,
        0xF2u8,
        0xA9u8,
        0xA1u8,
        0x12u8,
        0x41u8,
        0x68u8,
        0x38u8,
        0xDBu8,
        0xE5u8,
        0x72u8,
        0x77u8,
    ]
}

/// The exact contents of the MIDI Service demo table: a Primary Service
/// declaration for the MIDI Service at handle 1, a Characteristic declaration
/// (readable, writable with and without response, notifiable) at handle 2,
/// the empty MIDI Data I/O value attribute at handle 3, and a Client
/// Characteristic Configuration descriptor at handle 4.
pub open spec fn spec_midi_table(s: Seq<Attribute>) -> bool {
    &&& s.len() == 4
    &&& s[0].att_type == AttUuid::Uuid16(Uuid16(PRIMARY_SERVICE_UUID16))
    &&& s[0].handle.spec_raw() == 1
    &&& s[0].value@ == spec_midi_service_uuid_bytes()
    &&& s[1].att_type == AttUuid::Uuid16(Uuid16(CHARACTERISTIC_UUID16))
    &&& s[1].handle.spec_raw() == 2
    &&& s[1].value@ == seq![0x1Eu8, 0x03u8, 0x00u8].add(spec_midi_data_io_uuid_bytes())
    &&& s[2].att_type is Uuid128
    &&& s[2].att_type->Uuid128_0.spec_value() == crate::uuid::spec_u128_from_le_bytes(
        spec_midi_data_io_uuid_bytes(),
    )
    &&& s[2].handle.spec_raw() == 3
    &&& s[2].value@ == Seq::<u8>::empty()
    &&& s[3].att_type == AttUuid::Uuid16(Uuid16(CCCD_UUID16))
    &&& s[3].handle.spec_raw() == 4
    &&& s[3].value@ == seq![0x00u8, 0x00u8]
}

/// A demo `AttributeProvider` that will enumerate as a *MIDI Service*.
pub struct MidiServiceAttrs {
    attributes: Vec<Attribute>,
}

impl Default for MidiServiceAttrs {
    /// Builds the four-attribute MIDI Service table.
    fn default() -> (table: Self)
        ensures
            table.wf(),
            spec_midi_table(table.attrs()),
    {
        let mut attributes: Vec<Attribute> = Vec::new();
        attributes.push(
            Attribute::new(
                // "Primary Service"
                AttUuid::Uuid16(Uuid16(PRIMARY_SERVICE_UUID16)),
                Handle::from_raw(0x0001),
                // "MIDI Service"
                vec![
                    0x00, 0xC7, 0xC4, 0x4E, 0xE3, 0x6C, /* - */
                    0x51, 0xA7, /* - */
                    0x33, 0x4B, /* - */
                    0xE8, 0xED, /* - */
                    0x5A, 0x0E, 0xB8, 0x03,
                ],
            ),
        );
        attributes.push(
            Attribute::new(
                // "Characteristic"
                AttUuid::Uuid16(Uuid16(CHARACTERISTIC_UUID16)),
                Handle::from_raw(0x0002),
                vec![
                    // 1 byte properties: READ = 0x02, WRITE_CMD = 0x04,
                    // WRITE_REQ = 0x08, NOTIFY = 0x10
                    0x02 | 0x08 | 0x04 | 0x10,
                    // 2 bytes handle = 0x0003
                    0x03,
                    0x00,
                    // the actual UUID
                    0xF3, 0x6B, 0x10, 0x9D, 0x66, 0xF2, /* - */
                    0xA9, 0xA1, /* - */
                    0x12, 0x41, /* - */
                    0x68, 0x38, /* - */
                    0xDB, 0xE5, 0x72, 0x77,
                ],
            ),
        );
        // Characteristic value (Empty Packet)
        attributes.push(
            Attribute::new(
                AttUuid::Uuid128(
                    Uuid128::from_bytes(
                        [
                            0xF3, 0x6B, 0x10, 0x9D, 0x66, 0xF2, /* - */
                            0xA9, 0xA1, /* - */
                            0x12, 0x41, /* - */
                            0x68, 0x38, /* - */
                            0xDB, 0xE5, 0x72, 0x77,
                        ],
                    ),
                ),
                Handle::from_raw(0x0003),
                Vec::new(),
            ),
        );
        // CCCD
        attributes.push(
            Attribute::new(
                AttUuid::Uuid16(Uuid16(CCCD_UUID16)),
                Handle::from_raw(0x0004),
                vec![0x00, 0x00],
            ),
        );
        proof {
            assert(attributes@[0].value@ =~= spec_midi_service_uuid_bytes());
            assert(0x02u8 | 0x08u8 | 0x04u8 | 0x10u8 == 0x1Eu8) by (bit_vector);
            assert(attributes@[1].value@ =~= seq![0x1Eu8, 0x03u8, 0x00u8].add(
                spec_midi_data_io_uuid_bytes(),
            ));
            assert(attributes@[2].att_type->Uuid128_0.spec_value()
                == crate::uuid::spec_u128_from_le_bytes(spec_midi_data_io_uuid_bytes())) by {
                assert([
                    0xF3u8, 0x6Bu8, 0x10u8, 0x9Du8, 0x66u8, 0xF2u8, 0xA9u8, 0xA1u8, 0x12u8, 0x41u8,
                    0x68u8, 0x38u8, 0xDBu8, 0xE5u8, 0x72u8, 0x77u8,
                ]@ =~= spec_midi_data_io_uuid_bytes());
            }
            assert(attributes@[2].value@ =~= Seq::<u8>::empty());
            assert(attributes@[3].value@ =~= seq![0x00u8, 0x00u8]);
        }
        Self { attributes }
    }
}

impl AttributeProvider for MidiServiceAttrs {
    closed spec fn attrs(&self) -> Seq<Attribute> {
        self.attributes@
    }

    open spec fn wf(&self) -> bool {
        spec_midi_table(self.attrs())
    }

    open spec fn grouping_spec(&self, uuid: AttUuid) -> bool {
        spec_is_primary_service(uuid)
    }

    open spec fn group_end_index(&self, handle: u16) -> Option<int> {
        if handle == 1 || handle == 2 {
            Some(3int)
        } else {
            None
        }
    }

    proof fn wf_implies_table_wf(&self) {
    }

    proof fn group_end_consistent(&self, handle: u16) {
    }

    fn for_attrs_in_range<E, F: Fn(&Attribute) -> Result<(), E>>(
        &self,
        range: HandleRange,
        f: F,
    ) -> (r: Result<(), E>) {
        let count = self.attributes.len();
        // handles start at 1, not 0
        let start = (range.start().as_u16() - 1) as usize;
        let end_raw = (range.end().as_u16() - 1) as usize;
        if start >= count {
            return Ok(());
        }
        let end = if end_raw < count - 1 {
            end_raw
        } else {
            count - 1
        };
        let mut i = start;
        while i <= end
            invariant
                start <= i <= end + 1,
                start == range_start_index(range),
                end == range_end_index(range, self.attrs().len() as int),
                end < self.attrs().len(),
                count == self.attrs().len(),
                forall|k: int|
                    start <= k <= end ==> call_requires(f, (&self.attrs()[k],)),
                forall|j: int|
                    start <= j < i ==> call_ensures(f, (&self.attrs()[j],), Ok(())),
            decreases end + 1 - i,
        {
            let res = f(&self.attributes[i]);
            proof {
                assert(call_ensures(f, (&self.attrs()[i as int],), res));
            }
            match &res {
                Ok(_) => {
                    proof {
                        assert(res is Ok);
                        assert(res->Ok_0 == ());
                        assert(res == Ok::<(), E>(()));
                    }
                },
                Err(_) => {
                    proof {
                        assert(call_ensures(f, (&self.attrs()[i as int],), Err(res->Err_0)));
                    }
                    return res;
                },
            }
            i += 1;
        }
        Ok(())
    }

    fn is_grouping_attr(&self, uuid: AttUuid) -> (r: bool) {
        uuid == AttUuid::Uuid16(Uuid16(PRIMARY_SERVICE_UUID16))
    }

    fn group_end(&self, handle: Handle) -> (r: Option<&Attribute>) {
        match handle.as_u16() {
            0x0001 => Some(&self.attributes[3]),
            0x0002 => Some(&self.attributes[3]),
            _ => None,
        }
    }
}

} // verus!
