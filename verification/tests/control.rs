use std::collections::HashMap;

use pd200x::{
    cmd, decode_flag, decode_level, decode_mic_monitor, decode_nc_strength, encode_nc_strength,
    register_writes, write_delay_ms, RegisterWrite, RgbColor, Setting,
};

fn w(cmd: u16, value: u16) -> RegisterWrite {
    RegisterWrite { cmd, value }
}

#[test]
fn each_setting_writes_its_registers() {
    assert_eq!(register_writes(Setting::Mute(true)), vec![w(cmd::MIC_MUTE, 1)]);
    assert_eq!(register_writes(Setting::Mute(false)), vec![w(cmd::MIC_MUTE, 0)]);
    assert_eq!(register_writes(Setting::MicGain(80)), vec![w(0x2023, 80)]);
    assert_eq!(
        register_writes(Setting::MicMonitor(true)),
        vec![w(0x2031, 2000), w(0x2070, 0)]
    );
    assert_eq!(
        register_writes(Setting::MicMonitor(false)),
        vec![w(0x2031, 3000), w(0x2070, 1)]
    );
    assert_eq!(register_writes(Setting::HeadphoneVolume(70)), vec![w(0x2030, 70)]);
    assert_eq!(register_writes(Setting::NoiseGate(2500)), vec![w(0x2031, 2500)]);
    assert_eq!(register_writes(Setting::NoiseCancellation(true)), vec![w(0x203A, 1)]);
    assert_eq!(register_writes(Setting::NcStrength(20)), vec![w(0x203B, 1400)]);
    assert_eq!(
        register_writes(Setting::Compressor { enabled: true, threshold: 1800 }),
        vec![w(0x2026, 1), w(0x2027, 1800)]
    );
    assert_eq!(
        register_writes(Setting::Limiter { enabled: false, threshold: 1900 }),
        vec![w(0x202C, 0), w(0x202D, 1900)]
    );
    assert_eq!(register_writes(Setting::RgbEnabled(true)), vec![w(0x2036, 1)]);
    assert_eq!(register_writes(Setting::RgbBrightness(80)), vec![w(0x2037, 80)]);
    assert_eq!(register_writes(Setting::RgbColor(RgbColor::Cyan)), vec![w(0x2038, 5)]);
    assert_eq!(register_writes(Setting::LightingLinkage(false)), vec![w(0x2039, 0)]);
}

#[test]
fn only_mic_monitor_waits_between_writes() {
    assert_eq!(write_delay_ms(Setting::MicMonitor(true)), 100);
    assert_eq!(write_delay_ms(Setting::MicMonitor(false)), 100);
    assert_eq!(write_delay_ms(Setting::Mute(true)), 0);
    assert_eq!(write_delay_ms(Setting::Compressor { enabled: true, threshold: 1 }), 0);
}

#[test]
fn decoders() {
    assert!(decode_flag(1));
    assert!(decode_flag(0x100));
    assert!(!decode_flag(0));
    assert_eq!(decode_level(80), 80);
    assert_eq!(decode_level(0x0150), 0x50);
    assert!(decode_mic_monitor(0));
    assert!(!decode_mic_monitor(1));
    assert_eq!(decode_nc_strength(1400), 20);
    assert_eq!(decode_nc_strength(1409), 20);
    assert_eq!(decode_nc_strength(1200), 0);
    assert_eq!(decode_nc_strength(100), 0);
    assert_eq!(decode_nc_strength(0), 0);
    // (5000 / 10 - 120) = 380, truncated to a byte
    assert_eq!(decode_nc_strength(5000), 124);
}

#[test]
fn nc_strength_encoding() {
    assert_eq!(encode_nc_strength(0), 1200);
    assert_eq!(encode_nc_strength(40), 1600);
    assert_eq!(encode_nc_strength(255), 3750);
    for s in 0..=255u8 {
        assert_eq!(decode_nc_strength(encode_nc_strength(s)), s);
    }
}

fn apply(bank: &mut HashMap<u16, u16>, s: Setting) {
    for wr in register_writes(s) {
        bank.insert(wr.cmd, wr.value);
    }
}

fn read(bank: &HashMap<u16, u16>, kind: Setting) -> Setting {
    let r = |c: u16| *bank.get(&c).unwrap_or(&0xABCD);
    match kind {
        Setting::Mute(_) => Setting::Mute(decode_flag(r(cmd::MIC_MUTE))),
        Setting::MicGain(_) => Setting::MicGain(decode_level(r(cmd::MIC_GAIN))),
        Setting::MicMonitor(_) => Setting::MicMonitor(decode_mic_monitor(r(cmd::MIC_MONITOR))),
        Setting::HeadphoneVolume(_) => Setting::HeadphoneVolume(decode_level(r(cmd::HEADPHONE_VOL))),
        Setting::NoiseGate(_) => Setting::NoiseGate(r(cmd::NOISE_GATE)),
        Setting::NoiseCancellation(_) => Setting::NoiseCancellation(decode_flag(r(cmd::NC_ENABLE))),
        Setting::NcStrength(_) => Setting::NcStrength(decode_nc_strength(r(cmd::NC_STRENGTH))),
        other => other,
    }
}

#[test]
fn settings_read_back() {
    let mut bank = HashMap::new();
    for s in [
        Setting::Mute(true),
        Setting::Mute(false),
        Setting::MicGain(100),
        Setting::MicGain(0),
        Setting::MicMonitor(true),
        Setting::MicMonitor(false),
        Setting::HeadphoneVolume(70),
        Setting::NoiseGate(2600),
        Setting::NoiseCancellation(true),
        Setting::NcStrength(40),
        Setting::NcStrength(0),
    ] {
        apply(&mut bank, s);
        assert_eq!(read(&bank, s), s);
    }
}

#[test]
fn noise_gate_leaves_monitor_alone() {
    let mut bank = HashMap::new();
    apply(&mut bank, Setting::MicMonitor(true));
    apply(&mut bank, Setting::NoiseGate(1500));
    assert_eq!(read(&bank, Setting::MicMonitor(false)), Setting::MicMonitor(true));
    assert_eq!(read(&bank, Setting::NoiseGate(0)), Setting::NoiseGate(1500));
    apply(&mut bank, Setting::MicMonitor(false));
    assert_eq!(read(&bank, Setting::NoiseGate(0)), Setting::NoiseGate(3000));
}
