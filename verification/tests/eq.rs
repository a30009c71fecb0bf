use pd200x::{
    build_eq_packet, eq_band_packet, eq_pairs, eq_preset_packets, hpf_values, lpf_values, EqBand,
    EqBandValues, FilterType,
};

fn band(enabled: bool, filter_type: FilterType, frequency: u16, gain: u16, q: u16) -> EqBandValues {
    EqBandValues { enabled, filter_type, frequency, gain, q }
}

#[test]
fn band_bases_have_stride_five() {
    let bands = [
        EqBand::Band1,
        EqBand::Band2,
        EqBand::Band3,
        EqBand::Band4,
        EqBand::Band5,
        EqBand::Hpf,
        EqBand::Lpf,
    ];
    for (k, b) in bands.iter().enumerate() {
        assert_eq!(b.base_cmd(), 0x204D + 5 * k as u16);
    }
}

#[test]
fn parametric_band_pairs() {
    let v = band(true, FilterType::Peaking, 120, 1970, 150);
    assert_eq!(
        eq_pairs(EqBand::Band1, &v),
        [(0x204D, 1), (0x204E, 0), (0x204F, 120), (0x2050, 1970), (0x2051, 150)]
    );
    let v = band(false, FilterType::HighShelf, 10000, 2030, 50);
    assert_eq!(
        eq_pairs(EqBand::Band5, &v),
        [(0x2061, 0), (0x2062, 4), (0x2063, 10000), (0x2064, 2030), (0x2065, 50)]
    );
}

#[test]
fn filter_bands_fix_type_and_send_given_gain_and_q() {
    let v = band(true, FilterType::Peaking, 80, 1234, 150);
    assert_eq!(
        eq_pairs(EqBand::Hpf, &v),
        [(0x2066, 1), (0x2067, 2), (0x2068, 80), (0x2069, 1234), (0x206A, 150)]
    );
    assert_eq!(
        eq_pairs(EqBand::Lpf, &v),
        [(0x206B, 1), (0x206C, 1), (0x206D, 80), (0x206E, 1234), (0x206F, 150)]
    );
    assert_eq!(
        eq_pairs(EqBand::Hpf, &hpf_values(true, 80)),
        [(0x2066, 1), (0x2067, 2), (0x2068, 80), (0x2069, 2000), (0x206A, 100)]
    );
    assert_eq!(
        eq_pairs(EqBand::Lpf, &lpf_values(false, 22000)),
        [(0x206B, 0), (0x206C, 1), (0x206D, 22000), (0x206E, 2000), (0x206F, 100)]
    );
    assert_eq!(hpf_values(true, 80).filter_type, FilterType::HighPass);
    assert_eq!(lpf_values(true, 80).filter_type, FilterType::LowPass);
}

#[test]
fn band_packet_is_eq_report_of_pairs() {
    let v = band(true, FilterType::LowShelf, 200, 1950, 80);
    let p = eq_band_packet(EqBand::Band1, &v);
    assert_eq!(p, build_eq_packet(eq_pairs(EqBand::Band1, &v)));
    assert_eq!(p[2], 0x1B);
    assert_eq!(u16::from_le_bytes([p[10], p[11]]), 0x204E);
    assert_eq!(u16::from_le_bytes([p[12], p[13]]), 3); // filter type code of a low shelf
}

#[test]
fn preset_packets_one_per_band() {
    let bands = [
        (EqBand::Band1, band(true, FilterType::Peaking, 3000, 2030, 139)),
        (EqBand::Hpf, hpf_values(true, 108)),
        (EqBand::Lpf, lpf_values(false, 22000)),
    ];
    let ps = eq_preset_packets(&bands);
    assert_eq!(ps.len(), 3);
    for (p, (b, v)) in ps.iter().zip(bands.iter()) {
        assert_eq!(*p, eq_band_packet(*b, v));
    }
    assert!(eq_preset_packets(&[]).is_empty());
}

#[test]
fn codes() {
    assert_eq!(FilterType::Peaking.code(), 0);
    assert_eq!(FilterType::HighShelf.code(), 4);
    assert_eq!(pd200x::RgbColor::White.code(), 0);
    assert_eq!(pd200x::RgbColor::Rainbow.code(), 8);
}
