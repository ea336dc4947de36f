use rubble::phy::{AdvertisingChannel, DataChannel, Radio};

#[test]
fn data_rf_channel_avoids_advertising_channels() {
    for idx in 0..=36u8 {
        let rf = DataChannel::new(idx).rf_channel();
        assert_ne!(rf, 0);
        assert_ne!(rf, 12);
        assert_ne!(rf, 39);
    }
}

#[test]
fn data_rf_channel_is_injective() {
    let mut seen = [false; 40];
    for idx in 0..=36u8 {
        let rf = DataChannel::new(idx).rf_channel() as usize;
        assert!(!seen[rf], "two data channel indices map to RF channel {rf}");
        seen[rf] = true;
    }
}

#[test]
fn data_rf_channel_formula() {
    for idx in 0..=10u8 {
        assert_eq!(DataChannel::new(idx).rf_channel(), idx + 1);
    }
    for idx in 11..=36u8 {
        assert_eq!(DataChannel::new(idx).rf_channel(), idx + 2);
    }
}

#[test]
fn advertising_rf_channels_are_the_reserved_three() {
    let chs = AdvertisingChannel::iter_all();
    assert_eq!(chs.len(), 3);
    assert_eq!(chs[0].channel(), 37);
    assert_eq!(chs[1].channel(), 38);
    assert_eq!(chs[2].channel(), 39);
    assert_eq!(chs[0].rf_channel(), 0);
    assert_eq!(chs[1].rf_channel(), 12);
    assert_eq!(chs[2].rf_channel(), 39);
}

#[test]
fn iter_all_is_restartable() {
    let first_pass: Vec<u8> = AdvertisingChannel::iter_all().iter().map(|c| c.channel()).collect();
    let second_pass: Vec<u8> = AdvertisingChannel::iter_all().iter().map(|c| c.channel()).collect();
    assert_eq!(first_pass, vec![37, 38, 39]);
    assert_eq!(first_pass, second_pass);
}

#[test]
fn freq_is_2402_plus_twice_rf() {
    // RF channel 0 (advertising channel 37) -> 2402 MHz
    assert_eq!(AdvertisingChannel::first().freq(), 2402);
    // RF channel 39 (advertising channel 39) -> 2480 MHz
    let chs = AdvertisingChannel::iter_all();
    assert_eq!(chs[2].freq(), 2480);
    // RF channel 12 (advertising channel 38) -> 2426 MHz
    assert_eq!(chs[1].freq(), 2426);
    for idx in 0..=36u8 {
        let ch = DataChannel::new(idx);
        assert_eq!(ch.freq(), 2402 + 2 * ch.rf_channel() as u16);
    }
}

#[test]
fn whitening_iv_exact_values() {
    assert_eq!(DataChannel::new(0).whitening_iv(), 0x40);
    let chs = AdvertisingChannel::iter_all();
    assert_eq!(chs[2].whitening_iv(), 0x40 | 39);
    assert_eq!(chs[2].whitening_iv(), 0x67);
}

#[test]
fn whitening_iv_bit_pattern_for_all_channels() {
    for idx in 0..=36u8 {
        let iv = DataChannel::new(idx).whitening_iv();
        assert_eq!(iv & 0x40, 0x40, "bit 6 must be set");
        assert_eq!(iv & 0x80, 0, "bits above 6 must be clear");
        assert_eq!(iv & 0x3F, idx, "low bits carry the channel index");
    }
    for ch in AdvertisingChannel::iter_all() {
        let iv = ch.whitening_iv();
        assert_eq!(iv & 0x40, 0x40);
        assert_eq!(iv & 0x80, 0);
        assert_eq!(iv & 0x3F, ch.channel() & 0x3F);
    }
}

#[test]
fn cycle_ring_closes_with_period_three() {
    let first = AdvertisingChannel::first();
    assert_eq!(first.channel(), 37);
    assert_eq!(first.cycle().channel(), 38);
    assert_eq!(first.cycle().cycle().channel(), 39);
    assert_eq!(first.cycle().cycle().cycle().channel(), 37);
}

#[test]
fn data_channel_index_round_trip() {
    for idx in 0..=36u8 {
        assert_eq!(DataChannel::new(idx).index(), idx);
    }
}

struct LoopbackRadio {
    transmissions: Vec<(Vec<u8>, u16)>,
}

impl Radio for LoopbackRadio {
    fn transmit(&mut self, buf: &mut [u8], freq: u16) {
        self.transmissions.push((buf.to_vec(), freq));
    }
}

#[test]
fn radio_receives_channel_model_output() {
    let mut radio = LoopbackRadio { transmissions: Vec::new() };
    let mut pdu = [0x42u8, 0x00, 0x01];
    let ch = AdvertisingChannel::first();
    radio.transmit(&mut pdu, ch.freq());
    let data = DataChannel::new(36);
    radio.transmit(&mut pdu, data.freq());
    assert_eq!(radio.transmissions.len(), 2);
    assert_eq!(radio.transmissions[0].1, 2402);
    // data channel 36 -> RF channel 38 -> 2478 MHz
    assert_eq!(radio.transmissions[1].1, 2478);
    assert_eq!(radio.transmissions[0].0, vec![0x42, 0x00, 0x01]);
}
