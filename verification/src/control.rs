//! What each high-level operation writes to and reads from the device.
//!
//! The device is a bank of 16-bit registers. Each setting the host can
//! change becomes a short, ordered list of register writes, and each getter
//! decodes the 16-bit value of one register. The register bank is modelled
//! as a total function from register address to value.

use vstd::prelude::*;

use crate::protocol::{cmd, color_code, nc_strength_code, RgbColor};

verus! {

/// A write of `value` to register `cmd`.
#[derive(Debug, Clone, Copy, PartialEq, Eq, Structural)]
pub struct RegisterWrite {
    pub cmd: u16,
    pub value: u16,
}

/// A setting that the host changes with SET commands.
#[derive(Debug, Clone, Copy, PartialEq, Eq, Structural)]
pub enum Setting {
    /// Microphone muted (silenced at firmware level regardless of gain).
    Mute(bool),
    /// Microphone input gain (0–100).
    MicGain(u8),
    /// Microphone monitoring: the mic input routed to the headphone output.
    MicMonitor(bool),
    /// Headphone output volume (0–100).
    HeadphoneVolume(u8),
    /// Noise gate threshold (1200–3000).
    NoiseGate(u16),
    /// AI noise cancellation on or off.
    NoiseCancellation(bool),
    /// Noise cancellation strength (0–40).
    NcStrength(u8),
    /// Compressor on or off, with its raw firmware threshold.
    Compressor { enabled: bool, threshold: u16 },
    /// Limiter on or off, with its raw firmware threshold.
    Limiter { enabled: bool, threshold: u16 },
    /// RGB LED strip on or off.
    RgbEnabled(bool),
    /// RGB LED strip brightness (0–100).
    RgbBrightness(u8),
    /// RGB LED strip colour.
    RgbColor(RgbColor),
    /// RGB lighting linked to the mic activity (voice/mute state).
    LightingLinkage(bool),
}

/// The firmware value of a flag.
pub open spec fn flag(b: bool) -> u16 {
    if b { 1 } else { 0 }
}

/// One register write.
pub open spec fn write(cmd: u16, value: u16) -> RegisterWrite {
    RegisterWrite { cmd, value }
}

/// The register writes that apply a setting, in the order they are sent.
pub open spec fn setting_writes(s: Setting) -> Seq<RegisterWrite> {
    match s {
        Setting::Mute(m) => seq![write(cmd::MIC_MUTE, flag(m))],
        Setting::MicGain(g) => seq![write(cmd::MIC_GAIN, g as u16)],
        Setting::MicMonitor(e) => seq![
            write(cmd::NOISE_GATE, if e { 2000 } else { 3000 }),
            write(cmd::MIC_MONITOR, flag(!e)),
        ],
        Setting::HeadphoneVolume(v) => seq![write(cmd::HEADPHONE_VOL, v as u16)],
        Setting::NoiseGate(t) => seq![write(cmd::NOISE_GATE, t)],
        Setting::NoiseCancellation(e) => seq![write(cmd::NC_ENABLE, flag(e))],
        Setting::NcStrength(st) => seq![write(cmd::NC_STRENGTH, nc_strength_code(st))],
        Setting::Compressor { enabled, threshold } => seq![
            write(cmd::COMPRESSOR_ENABLE, flag(enabled)),
            write(cmd::COMPRESSOR_THRESH, threshold),
        ],
        Setting::Limiter { enabled, threshold } => seq![
            write(cmd::LIMITER_ENABLE, flag(enabled)),
            write(cmd::LIMITER_THRESH, threshold),
        ],
        Setting::RgbEnabled(e) => seq![write(cmd::RGB_ENABLE, flag(e))],
        Setting::RgbBrightness(b) => seq![write(cmd::RGB_BRIGHTNESS, b as u16)],
        Setting::RgbColor(c) => seq![write(cmd::RGB_COLOR, color_code(c))],
        Setting::LightingLinkage(e) => seq![write(cmd::LIGHTING_LINKAGE, flag(e))],
    }
}

fn flag_value(b: bool) -> (v: u16)
    ensures
        v == flag(b),
{
    if b { 1 } else { 0 }
}

/// The register writes that apply `s`, in the order they must be sent.
pub fn register_writes(s: Setting) -> (w: Vec<RegisterWrite>)
    ensures
        w@ == setting_writes(s),
{
    let mut w: Vec<RegisterWrite> = Vec::new();
    match s {
        Setting::Mute(m) => {
            w.push(RegisterWrite { cmd: cmd::MIC_MUTE, value: flag_value(m) });
        },
        Setting::MicGain(g) => {
            w.push(RegisterWrite { cmd: cmd::MIC_GAIN, value: g as u16 });
        },
        Setting::MicMonitor(e) => {
            w.push(RegisterWrite { cmd: cmd::NOISE_GATE, value: if e { 2000 } else { 3000 } });
            w.push(RegisterWrite { cmd: cmd::MIC_MONITOR, value: flag_value(!e) });
        },
        Setting::HeadphoneVolume(v) => {
            w.push(RegisterWrite { cmd: cmd::HEADPHONE_VOL, value: v as u16 });
        },
        Setting::NoiseGate(t) => {
            w.push(RegisterWrite { cmd: cmd::NOISE_GATE, value: t });
        },
        Setting::NoiseCancellation(e) => {
            w.push(RegisterWrite { cmd: cmd::NC_ENABLE, value: flag_value(e) });
        },
        Setting::NcStrength(st) => {
            w.push(RegisterWrite { cmd: cmd::NC_STRENGTH, value: crate::protocol::encode_nc_strength(st) });
        },
        Setting::Compressor { enabled, threshold } => {
            w.push(RegisterWrite { cmd: cmd::COMPRESSOR_ENABLE, value: flag_value(enabled) });
            w.push(RegisterWrite { cmd: cmd::COMPRESSOR_THRESH, value: threshold });
        },
        Setting::Limiter { enabled, threshold } => {
            w.push(RegisterWrite { cmd: cmd::LIMITER_ENABLE, value: flag_value(enabled) });
            w.push(RegisterWrite { cmd: cmd::LIMITER_THRESH, value: threshold });
        },
        Setting::RgbEnabled(e) => {
            w.push(RegisterWrite { cmd: cmd::RGB_ENABLE, value: flag_value(e) });
        },
        Setting::RgbBrightness(b) => {
            w.push(RegisterWrite { cmd: cmd::RGB_BRIGHTNESS, value: b as u16 });
        },
        Setting::RgbColor(c) => {
            w.push(RegisterWrite { cmd: cmd::RGB_COLOR, value: c.code() });
        },
        Setting::LightingLinkage(e) => {
            w.push(RegisterWrite { cmd: cmd::LIGHTING_LINKAGE, value: flag_value(e) });
        },
    }
    assert(w@ =~= setting_writes(s));
    w
}

/// Milliseconds to wait after each write of a setting, so that the device
/// applies both registers of the mic-monitor switch.
pub open spec fn settle_delay(s: Setting) -> u64 {
    if s is MicMonitor { 100 } else { 0 }
}

/// Milliseconds to wait after each register write of `s`.
pub fn write_delay_ms(s: Setting) -> (ms: u64)
    ensures
        ms == settle_delay(s),
{
    match s {
        Setting::MicMonitor(_) => 100,
        _ => 0,
    }
}

// ---- Decoding register values read back from the device ----

/// A flag register is set when it is non-zero.
pub fn decode_flag(raw: u16) -> (b: bool)
    ensures
        b == (raw != 0),
{
    raw != 0
}

/// A 0–100 level register: its low byte.
pub fn decode_level(raw: u16) -> (v: u8)
    ensures
        v == raw % 256,
{
    (raw % 256) as u8
}

/// The monitor register holds 0 when monitoring is on.
pub fn decode_mic_monitor(raw: u16) -> (on: bool)
    ensures
        on == (raw == 0),
{
    raw == 0
}

/// The UI strength (0–40) a noise-cancellation register holds:
/// `raw / 10 - 120`, floored at 0, as a byte.
pub open spec fn nc_strength_of(raw: u16) -> u8 {
    ((if raw / 10 >= 120 { raw / 10 - 120 } else { 0 }) % 256) as u8
}

/// The UI strength (0–40) a noise-cancellation register holds.
pub fn decode_nc_strength(raw: u16) -> (st: u8)
    ensures
        st == nc_strength_of(raw),
{
    ((raw / 10).saturating_sub(120) % 256) as u8
}

// ---- The register bank ----

/// The register bank after the writes `ws`, applied in order, to `regs`.
pub open spec fn apply_writes(regs: spec_fn(u16) -> u16, ws: Seq<RegisterWrite>) -> spec_fn(u16) -> u16
    decreases ws.len(),
{
    if ws.len() == 0 {
        regs
    } else {
        let prev = apply_writes(regs, ws.drop_last());
        let last = ws.last();
        |r: u16| if r == last.cmd { last.value } else { prev(r) }
    }
}

/// Whether a getter exists for the setting.
pub open spec fn is_readable(s: Setting) -> bool {
    ||| s is Mute
    ||| s is MicGain
    ||| s is MicMonitor
    ||| s is HeadphoneVolume
    ||| s is NoiseGate
    ||| s is NoiseCancellation
    ||| s is NcStrength
}

/// The colour preset whose firmware code is `c` (`White` for a code no preset has).
pub open spec fn color_of_code(c: u16) -> RgbColor {
    if c == 1 {
        RgbColor::Red
    } else if c == 2 {
        RgbColor::Orange
    } else if c == 3 {
        RgbColor::Yellow
    } else if c == 4 {
        RgbColor::Green
    } else if c == 5 {
        RgbColor::Cyan
    } else if c == 6 {
        RgbColor::Blue
    } else if c == 7 {
        RgbColor::Purple
    } else if c == 8 {
        RgbColor::Rainbow
    } else {
        RgbColor::White
    }
}

/// The setting of `s`'s kind that the register bank `regs` holds: for the
/// kinds with a getter, what that getter reports; for the others, the flags,
/// levels and codes decoded from their registers in the same way.
pub open spec fn read_setting(s: Setting, regs: spec_fn(u16) -> u16) -> Setting {
    match s {
        Setting::Mute(_) => Setting::Mute(regs(cmd::MIC_MUTE) != 0),
        Setting::MicGain(_) => Setting::MicGain((regs(cmd::MIC_GAIN) % 256) as u8),
        Setting::MicMonitor(_) => Setting::MicMonitor(regs(cmd::MIC_MONITOR) == 0),
        Setting::HeadphoneVolume(_) => Setting::HeadphoneVolume((regs(cmd::HEADPHONE_VOL) % 256) as u8),
        Setting::NoiseGate(_) => Setting::NoiseGate(regs(cmd::NOISE_GATE)),
        Setting::NoiseCancellation(_) => Setting::NoiseCancellation(regs(cmd::NC_ENABLE) != 0),
        Setting::NcStrength(_) => Setting::NcStrength(nc_strength_of(regs(cmd::NC_STRENGTH))),
        Setting::Compressor { .. } => Setting::Compressor {
            enabled: regs(cmd::COMPRESSOR_ENABLE) != 0,
            threshold: regs(cmd::COMPRESSOR_THRESH),
        },
        Setting::Limiter { .. } => Setting::Limiter {
            enabled: regs(cmd::LIMITER_ENABLE) != 0,
            threshold: regs(cmd::LIMITER_THRESH),
        },
        Setting::RgbEnabled(_) => Setting::RgbEnabled(regs(cmd::RGB_ENABLE) != 0),
        Setting::RgbBrightness(_) => Setting::RgbBrightness((regs(cmd::RGB_BRIGHTNESS) % 256) as u8),
        Setting::RgbColor(_) => Setting::RgbColor(color_of_code(regs(cmd::RGB_COLOR))),
        Setting::LightingLinkage(_) => Setting::LightingLinkage(regs(cmd::LIGHTING_LINKAGE) != 0),
    }
}

/// Whether applying `s` writes register `r`.
pub open spec fn writes_register(s: Setting, r: u16) -> bool {
    exists|i: int| 0 <= i < setting_writes(s).len() && #[trigger] setting_writes(s)[i].cmd == r
}

proof fn lemma_apply_one(regs: spec_fn(u16) -> u16, a: RegisterWrite, r: u16)
    ensures
        apply_writes(regs, seq![a])(r) == if r == a.cmd { a.value } else { regs(r) },
{
    reveal_with_fuel(apply_writes, 2);
    assert(seq![a].drop_last() =~= Seq::<RegisterWrite>::empty());
    assert(seq![a].last() == a);
}

proof fn lemma_apply_two(regs: spec_fn(u16) -> u16, a: RegisterWrite, b: RegisterWrite, r: u16)
    ensures
        apply_writes(regs, seq![a, b])(r) == if r == b.cmd {
            b.value
        } else if r == a.cmd {
            a.value
        } else {
            regs(r)
        },
{
    assert(seq![a, b].drop_last() =~= seq![a]);
    lemma_apply_one(regs, a, r);
}

/// Every setting is stored as written: after the writes of any setting, the
/// register bank holds exactly that setting (each on/off flag in its enable
/// register, each level, threshold and colour in its own), whatever the
/// registers held before.
pub proof fn lemma_setting_stored(s: Setting, regs: spec_fn(u16) -> u16)
    ensures
        read_setting(s, apply_writes(regs, setting_writes(s))) == s,
{
    let ws = setting_writes(s);
    if ws.len() == 2 {
        assert(ws =~= seq![ws[0], ws[1]]);
        lemma_apply_two(regs, ws[0], ws[1], ws[0].cmd);
        lemma_apply_two(regs, ws[0], ws[1], ws[1].cmd);
    } else {
        assert(ws =~= seq![ws[0]]);
        lemma_apply_one(regs, ws[0], ws[0].cmd);
    }
}

/// Reading a setting back gives what was written: after the writes of a
/// readable setting, the getter of its kind reports that very setting,
/// whatever the registers held before.
pub proof fn lemma_setting_reads_back(s: Setting, regs: spec_fn(u16) -> u16)
    requires
        is_readable(s),
    ensures
        read_setting(s, apply_writes(regs, setting_writes(s))) == s,
{
    lemma_setting_stored(s, regs);
}

/// The registers each setting writes, in order: one register per setting,
/// except the mic-monitor switch (noise gate `0x2031`, then monitor `0x2070`)
/// and the compressor and limiter (enable, then threshold).
pub proof fn lemma_setting_registers(s: Setting)
    ensures
        ({
            let ws = setting_writes(s);
            match s {
                Setting::Mute(_) => ws.len() == 1 && ws[0].cmd == 0x2022,
                Setting::MicGain(_) => ws.len() == 1 && ws[0].cmd == 0x2023,
                Setting::MicMonitor(_) => ws.len() == 2 && ws[0].cmd == 0x2031 && ws[1].cmd == 0x2070,
                Setting::HeadphoneVolume(_) => ws.len() == 1 && ws[0].cmd == 0x2030,
                Setting::NoiseGate(_) => ws.len() == 1 && ws[0].cmd == 0x2031,
                Setting::NoiseCancellation(_) => ws.len() == 1 && ws[0].cmd == 0x203A,
                Setting::NcStrength(_) => ws.len() == 1 && ws[0].cmd == 0x203B,
                Setting::Compressor { .. } => ws.len() == 2 && ws[0].cmd == 0x2026 && ws[1].cmd == 0x2027,
                Setting::Limiter { .. } => ws.len() == 2 && ws[0].cmd == 0x202C && ws[1].cmd == 0x202D,
                Setting::RgbEnabled(_) => ws.len() == 1 && ws[0].cmd == 0x2036,
                Setting::RgbBrightness(_) => ws.len() == 1 && ws[0].cmd == 0x2037,
                Setting::RgbColor(_) => ws.len() == 1 && ws[0].cmd == 0x2038,
                Setting::LightingLinkage(_) => ws.len() == 1 && ws[0].cmd == 0x2039,
            }
        }),
{
}

/// An on/off switch writes 1 to its enable register when switched on and 0
/// when switched off; the threshold of the compressor and limiter follows as
/// given. Switching off and on differ only in that enable value.
pub proof fn lemma_switches_write_their_flag(enabled: bool, threshold: u16)
    ensures
        setting_writes(Setting::Compressor { enabled, threshold })[0].value == (if enabled { 1u16 } else { 0u16 }),
        setting_writes(Setting::Compressor { enabled, threshold })[1].value == threshold,
        setting_writes(Setting::Limiter { enabled, threshold })[0].value == (if enabled { 1u16 } else { 0u16 }),
        setting_writes(Setting::Limiter { enabled, threshold })[1].value == threshold,
        setting_writes(Setting::Mute(enabled))[0].value == (if enabled { 1u16 } else { 0u16 }),
        setting_writes(Setting::NoiseCancellation(enabled))[0].value == (if enabled { 1u16 } else { 0u16 }),
        setting_writes(Setting::RgbEnabled(enabled))[0].value == (if enabled { 1u16 } else { 0u16 }),
        setting_writes(Setting::LightingLinkage(enabled))[0].value == (if enabled { 1u16 } else { 0u16 }),
        setting_writes(Setting::MicMonitor(enabled))[0].value == (if enabled { 2000u16 } else { 3000u16 }),
        setting_writes(Setting::MicMonitor(enabled))[1].value == (if enabled { 0u16 } else { 1u16 }),
        setting_writes(Setting::Compressor { enabled: true, threshold })[0].value
            != setting_writes(Setting::Compressor { enabled: false, threshold })[0].value,
        setting_writes(Setting::Limiter { enabled: true, threshold })[0].value
            != setting_writes(Setting::Limiter { enabled: false, threshold })[0].value,
{
}

/// Levels and raw thresholds are written unchanged; the noise-cancellation
/// strength as `(strength + 120) * 10`.
pub proof fn lemma_levels_written_as_given(level: u8, raw: u16)
    ensures
        setting_writes(Setting::MicGain(level))[0].value == level,
        setting_writes(Setting::HeadphoneVolume(level))[0].value == level,
        setting_writes(Setting::RgbBrightness(level))[0].value == level,
        setting_writes(Setting::NoiseGate(raw))[0].value == raw,
        setting_writes(Setting::NcStrength(level))[0].value == (level + 120) * 10,
{
}

/// The noise-cancellation strength decoded from a register: 0 below 1200,
/// `raw / 10 - 120` for the values a strength 0–255 encodes to.
pub proof fn lemma_nc_strength_decoding(raw: u16)
    ensures
        raw < 1200 ==> nc_strength_of(raw) == 0,
        1200 <= raw < 3760 ==> nc_strength_of(raw) == raw / 10 - 120,
{
}

/// Only the mic-monitor switch waits after its writes, 100 ms each.
pub proof fn lemma_settle_delays(s: Setting)
    ensures
        settle_delay(s) == (if s is MicMonitor { 100u64 } else { 0u64 }),
        settle_delay(Setting::MicMonitor(true)) == 100,
        settle_delay(Setting::MicMonitor(false)) == 100,
{
}

/// Each colour preset is written with its fixed firmware code, and the code
/// identifies the colour: White 0, Red 1, Orange 2, Yellow 3, Green 4, Cyan 5,
/// Blue 6, Purple 7, Rainbow 8.
pub proof fn lemma_color_codes(c: RgbColor)
    ensures
        color_code(RgbColor::White) == 0,
        color_code(RgbColor::Red) == 1,
        color_code(RgbColor::Orange) == 2,
        color_code(RgbColor::Yellow) == 3,
        color_code(RgbColor::Green) == 4,
        color_code(RgbColor::Cyan) == 5,
        color_code(RgbColor::Blue) == 6,
        color_code(RgbColor::Purple) == 7,
        color_code(RgbColor::Rainbow) == 8,
        color_code(c) <= 8,
        color_of_code(color_code(c)) == c,
        setting_writes(Setting::RgbColor(c))[0].value == color_code(c),
{
}

/// A setting changes only its own registers: every register it does not
/// write keeps its value.
pub proof fn lemma_setting_keeps_other_registers(s: Setting, regs: spec_fn(u16) -> u16, r: u16)
    requires
        !writes_register(s, r),
    ensures
        apply_writes(regs, setting_writes(s))(r) == regs(r),
{
    let ws = setting_writes(s);
    assert(ws[0].cmd != r);
    if ws.len() == 2 {
        assert(ws[1].cmd != r);
        assert(ws =~= seq![ws[0], ws[1]]);
        lemma_apply_two(regs, ws[0], ws[1], r);
    } else {
        assert(ws =~= seq![ws[0]]);
        lemma_apply_one(regs, ws[0], r);
    }
}

/// Changing the noise gate threshold leaves mic monitoring as it was.
pub proof fn lemma_noise_gate_keeps_monitor(t: u16, regs: spec_fn(u16) -> u16)
    ensures
        read_setting(Setting::MicMonitor(true), apply_writes(regs, setting_writes(Setting::NoiseGate(t))))
            == read_setting(Setting::MicMonitor(true), regs),
{
    lemma_setting_keeps_other_registers(Setting::NoiseGate(t), regs, cmd::MIC_MONITOR);
}

} // verus!
