//! Attribute-data and physical-channel modeling core of a Bluetooth Low
//! Energy (BLE) protocol stack.
//!
//! Two independent components:
//!
//! * an ATT/GATT data model: attributes addressed by 16-bit handles, with a
//!   range-query capability and grouping queries, implemented by concrete
//!   service tables (battery, MIDI); and
//! * a physical-layer channel model: the bijection between BLE channel
//!   indices (0..=39) and RF channel numbers, the derived center frequency,
//!   and the data-whitening LFSR seed.

pub mod att;
pub mod gatt;
pub mod phy;
pub mod uuid;
