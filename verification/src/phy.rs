//! Physical-layer channel model.
//!
//! BLE data is transmitted on 40 RF channels numbered 0 to 39 with ascending
//! frequencies. RF channels 0, 12 and 39 are reserved for advertising; all
//! others carry data. BLE uses "channel indices" that reorder the RF channels
//! so that indices 0..=36 refer to data channels and 37..=39 to the
//! advertising channels. The Link-Layer works with channel indices, so only
//! those are modeled here.

use vstd::prelude::*;

verus! {

/// Center frequency in MHz of an RF channel (`2402 + 2 * rf`).
pub open spec fn spec_rf_channel_freq(rf_channel: u8) -> u16 {
    (2402 + 2 * (rf_channel as u16)) as u16
}

/// Data-whitening LFSR seed for a channel index: bit 6 set, low 6 bits the
/// channel index (indices never exceed 39, so 6 bits suffice).
pub open spec fn spec_whitening_iv(channel_idx: u8) -> u8 {
    0x40u8 | channel_idx
}

/// RF channel carrying an advertising channel index (37, 38 or 39).
pub open spec fn spec_adv_rf_channel(channel_idx: u8) -> u8 {
    if channel_idx == 37 {
        0
    } else if channel_idx == 38 {
        12
    } else {
        39
    }
}

/// The ring step on a bare advertising channel index.
pub open spec fn cycle_index(channel_idx: u8) -> u8 {
    if channel_idx == 39 {
        37
    } else {
        (channel_idx + 1) as u8
    }
}

/// RF channel carrying a data channel index (0..=36): the mapping skips the
/// three RF channels reserved for advertising.
pub open spec fn spec_data_rf_channel(channel_idx: u8) -> u8 {
    if channel_idx <= 10 {
        (channel_idx + 1) as u8
    } else {
        (channel_idx + 2) as u8
    }
}

/// Returns the center frequency in MHz corresponding to an RF channel.
fn rf_channel_freq(rf_channel: u8) -> (freq: u16)
    ensures
        freq == spec_rf_channel_freq(rf_channel),
{
    2402 + u16::from(rf_channel) * 2
}

/// Returns the data whitening IV for a channel index (not RF channel).
fn whitening_iv(channel_idx: u8) -> (iv: u8)
    requires
        channel_idx <= 39,
    ensures
        iv == spec_whitening_iv(channel_idx),
        iv == 0x40 + channel_idx,
{
    proof {
        lemma_whitening_iv_bits(channel_idx);
    }
    0b0100_0000 | channel_idx
}

/// The whitening seed of every channel index has bit 6 set and all bits
/// above bit 6 clear, so it is a valid 7-bit LFSR initial value.
pub proof fn lemma_whitening_iv_bits(channel_idx: u8)
    requires
        channel_idx <= 39,
    ensures
        spec_whitening_iv(channel_idx) & 0x40 == 0x40,
        spec_whitening_iv(channel_idx) < 0x80,
        spec_whitening_iv(channel_idx) == 0x40 + channel_idx,
{
    assert((0x40u8 | channel_idx) & 0x40 == 0x40) by (bit_vector);
    assert(channel_idx <= 39 ==> (0x40u8 | channel_idx) < 0x80) by (bit_vector);
    assert(channel_idx <= 39 ==> (0x40u8 | channel_idx) == 0x40 + channel_idx) by (bit_vector);
}

/// One of the three advertising channels (channel indices 37, 38 or 39).
#[derive(Copy, Clone, Debug)]
pub struct AdvertisingChannel(u8);

impl AdvertisingChannel {
    /// The channel index carried by this value.
    pub closed spec fn spec_channel(self) -> u8 {
        self.0
    }

    /// Every `AdvertisingChannel` holds one of the indices 37, 38, 39.
    pub open spec fn wf(self) -> bool {
        37 <= self.spec_channel() <= 39
    }

    /// The next index in the fixed ring 37 -> 38 -> 39 -> 37.
    pub open spec fn spec_cycle(self) -> u8 {
        cycle_index(self.spec_channel())
    }

    /// Returns the first (lowest-numbered) advertising channel.
    pub fn first() -> (ch: Self)
        ensures
            ch.wf(),
            ch.spec_channel() == 37,
    {
        AdvertisingChannel(37)
    }

    /// Returns all 3 advertising channels in ascending order.
    pub fn iter_all() -> (chs: Vec<Self>)
        ensures
            chs@.len() == 3,
            chs@[0].spec_channel() == 37,
            chs@[1].spec_channel() == 38,
            chs@[2].spec_channel() == 39,
            forall|i: int| 0 <= i < 3 ==> (#[trigger] chs@[i]).wf(),
    {
        let mut chs: Vec<AdvertisingChannel> = Vec::new();
        chs.push(AdvertisingChannel(37));
        chs.push(AdvertisingChannel(38));
        chs.push(AdvertisingChannel(39));
        chs
    }

    /// Returns the next advertising channel, or the first one if `self` is the
    /// last channel.
    pub fn cycle(&self) -> (ch: Self)
        requires
            self.wf(),
        ensures
            ch.wf(),
            ch.spec_channel() == self.spec_cycle(),
    {
        if self.0 == 39 {
            AdvertisingChannel(37)
        } else {
            AdvertisingChannel(self.0 + 1)
        }
    }

    /// Returns the channel index.
    ///
    /// Channels 37, 38 and 39 are used for advertising.
    pub fn channel(&self) -> (idx: u8)
        ensures
            idx == self.spec_channel(),
    {
        self.0
    }

    /// Returns the physical RF channel corresponding to this advertising
    /// channel index.
    ///
    /// RF channels 0, 12 and 39 are used for advertising.
    pub fn rf_channel(&self) -> (rf: u8)
        requires
            self.wf(),
        ensures
            rf == spec_adv_rf_channel(self.spec_channel()),
            self.spec_channel() == 37 ==> rf == 0,
            self.spec_channel() == 38 ==> rf == 12,
            self.spec_channel() == 39 ==> rf == 39,
    {
        match self.0 {
            37 => 0,
            38 => 12,
            _ => 39,
        }
    }

    /// Returns the center frequency of this channel in MHz.
    pub fn freq(&self) -> (freq: u16)
        requires
            self.wf(),
        ensures
            freq == spec_rf_channel_freq(spec_adv_rf_channel(self.spec_channel())),
    {
        rf_channel_freq(self.rf_channel())
    }

    /// Calculates the initial value of the LFSR to use for data whitening.
    ///
    /// The value is a 7-bit value. The MSb will always be 0, and the 2nd MSb
    /// always 1 (Position 0). The LSb contains Position 6.
    ///
    /// The polynomial is always `x^7 + x^4 + 1`.
    ///
    /// Whitening is applied to PDU and CRC.
    pub fn whitening_iv(&self) -> (iv: u8)
        requires
            self.wf(),
        ensures
            iv == spec_whitening_iv(self.spec_channel()),
            iv == 0x40 + self.spec_channel(),
    {
        whitening_iv(self.0)
    }
}

/// Cycling an advertising channel three times returns to the same channel:
/// the ring 37 -> 38 -> 39 -> 37 closes with period 3.
pub proof fn lemma_cycle_period_three(ch: AdvertisingChannel)
    requires
        ch.wf(),
    ensures
        cycle_index(cycle_index(cycle_index(ch.spec_channel()))) == ch.spec_channel(),
{
}

/// One of 37 data channels on which data channel PDUs are sent between
/// connected devices (channel indices 0..=36).
#[derive(Copy, Clone, Debug, PartialEq, Eq, Structural)]
pub struct DataChannel(u8);

impl DataChannel {
    /// The channel index carried by this value.
    pub closed spec fn spec_index(self) -> u8 {
        self.0
    }

    /// Every `DataChannel` holds one of the indices 0..=36.
    pub open spec fn wf(self) -> bool {
        self.spec_index() <= 36
    }

    /// Creates a `DataChannel` from a raw index.
    ///
    /// Valid indices are 0..=36. An index outside that range is a
    /// scheduling bug upstream, not a recoverable runtime condition, so it is
    /// ruled out by contract rather than clamped.
    pub fn new(index: u8) -> (ch: Self)
        requires
            index <= 36,
        ensures
            ch.wf(),
            ch.spec_index() == index,
    {
        DataChannel(index)
    }

    /// Returns the data channel index.
    ///
    /// The returned value is always in range 0..=36.
    pub fn index(&self) -> (idx: u8)
        ensures
            idx == self.spec_index(),
    {
        self.0
    }

    /// Returns the RF channel corresponding to this data channel index.
    ///
    /// RF channels 1-11 and 13-38 are used for data transmission.
    pub fn rf_channel(&self) -> (rf: u8)
        requires
            self.wf(),
        ensures
            rf == spec_data_rf_channel(self.spec_index()),
    {
        if self.0 <= 10 {
            self.0 + 1
        } else {
            self.0 + 2
        }
    }

    /// Returns the center frequency of this channel in MHz.
    pub fn freq(&self) -> (freq: u16)
        requires
            self.wf(),
        ensures
            freq == spec_rf_channel_freq(spec_data_rf_channel(self.spec_index())),
    {
        rf_channel_freq(self.rf_channel())
    }

    /// Calculates the initial value of the LFSR to use for data whitening.
    ///
    /// The value is a 7-bit value. The MSb will always be 0, and the 2nd MSb
    /// always 1 (Position 0). The LSb contains Position 6.
    ///
    /// The polynomial is always `x^7 + x^4 + 1`.
    ///
    /// Whitening is applied to PDU and CRC.
    pub fn whitening_iv(&self) -> (iv: u8)
        requires
            self.wf(),
        ensures
            iv == spec_whitening_iv(self.spec_index()),
            iv == 0x40 + self.spec_index(),
    {
        whitening_iv(self.0)
    }
}

/// The data-channel mapping never produces an RF channel reserved for
/// advertising, and is injective: distinct data channel indices map to
/// distinct RF channels.
pub proof fn lemma_data_rf_channel_avoids_advertising_and_injective()
    ensures
        forall|c: u8|
            c <= 36 ==> #[trigger] spec_data_rf_channel(c) != 0
                && spec_data_rf_channel(c) != 12 && spec_data_rf_channel(c) != 39,
        forall|c1: u8, c2: u8|
            c1 <= 36 && c2 <= 36 && c1 != c2 ==> spec_data_rf_channel(c1)
                != spec_data_rf_channel(c2),
{
}

/// The three advertising channel indices map exactly onto the three RF
/// channels reserved for advertising: 37 to 0, 38 to 12, 39 to 39.
pub proof fn lemma_adv_rf_channel_mapping()
    ensures
        spec_adv_rf_channel(37) == 0,
        spec_adv_rf_channel(38) == 12,
        spec_adv_rf_channel(39) == 39,
{
}

/// Trait for raw 2.4 GHz non-BLE-specific radios.
///
/// You probably won't need to implement this trait, unless you're working
/// with hardware that has absolutely no special support for BLE. Usually, the
/// Link-Layer `Transmitter` should be implemented.
pub trait Radio {
    /// Transmit every Byte in `buf` over the air, LSb first, at `freq` MHz.
    fn transmit(&mut self, buf: &mut [u8], freq: u16);
}

} // verus!
