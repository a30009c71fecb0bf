//! Register addresses of the PD200X firmware.

use vstd::prelude::*;

verus! {

pub const MIC_MUTE: u16 = 0x2022;
pub const MIC_GAIN: u16 = 0x2023;

pub const COMPRESSOR_ENABLE: u16 = 0x2026;
pub const COMPRESSOR_THRESH: u16 = 0x2027;

pub const LIMITER_ENABLE: u16 = 0x202C;
pub const LIMITER_THRESH: u16 = 0x202D;

pub const HEADPHONE_VOL: u16 = 0x2030;
pub const NOISE_GATE: u16 = 0x2031;

pub const RGB_ENABLE: u16 = 0x2036;
pub const RGB_BRIGHTNESS: u16 = 0x2037;
pub const RGB_COLOR: u16 = 0x2038;
pub const LIGHTING_LINKAGE: u16 = 0x2039;

pub const NC_ENABLE: u16 = 0x203A;
pub const NC_STRENGTH: u16 = 0x203B;

// EQ band base addresses (stride 5: enable, type, freq, gain, q)
pub const BAND1_BASE: u16 = 0x204D;
pub const BAND2_BASE: u16 = 0x2052;
pub const BAND3_BASE: u16 = 0x2057;
pub const BAND4_BASE: u16 = 0x205C;
pub const BAND5_BASE: u16 = 0x2061;

// HPF: enable, type, freq, const(2000), const(100)
pub const HPF_BASE: u16 = 0x2066;
// LPF: enable, type, freq, const(2000), const(100)
pub const LPF_BASE: u16 = 0x206B;

pub const MIC_MONITOR: u16 = 0x2070;

} // verus!
