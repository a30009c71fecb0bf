//! Register map, enumerations and value encodings of the PD200X protocol.

use vstd::prelude::*;

pub mod cmd;

verus! {

/// EQ filter shape.
#[derive(Debug, Clone, Copy, PartialEq, Eq, Structural)]
pub enum FilterType {
    /// Bell/peaking EQ: boosts or cuts around a centre frequency.
    Peaking,
    /// Low-pass filter: attenuates frequencies above the cutoff.
    LowPass,
    /// High-pass filter: attenuates frequencies below the cutoff.
    HighPass,
    /// Low-shelf filter: boosts or cuts all frequencies below the shelf frequency.
    LowShelf,
    /// High-shelf filter: boosts or cuts all frequencies above the shelf frequency.
    HighShelf,
}

/// The firmware code of a filter shape.
pub open spec fn filter_code(f: FilterType) -> u16 {
    match f {
        FilterType::Peaking => 0,
        FilterType::LowPass => 1,
        FilterType::HighPass => 2,
        FilterType::LowShelf => 3,
        FilterType::HighShelf => 4,
    }
}

impl FilterType {
    /// The value the firmware stores for this filter shape.
    pub fn code(self) -> (c: u16)
        ensures
            c == filter_code(self),
    {
        match self {
            FilterType::Peaking => 0,
            FilterType::LowPass => 1,
            FilterType::HighPass => 2,
            FilterType::LowShelf => 3,
            FilterType::HighShelf => 4,
        }
    }
}

/// RGB LED colour preset.
#[derive(Debug, Clone, Copy, PartialEq, Eq, Structural)]
pub enum RgbColor {
    White,
    Red,
    Orange,
    Yellow,
    Green,
    Cyan,
    Blue,
    Purple,
    Rainbow,
}

/// The firmware code of a colour preset.
pub open spec fn color_code(c: RgbColor) -> u16 {
    match c {
        RgbColor::White => 0,
        RgbColor::Red => 1,
        RgbColor::Orange => 2,
        RgbColor::Yellow => 3,
        RgbColor::Green => 4,
        RgbColor::Cyan => 5,
        RgbColor::Blue => 6,
        RgbColor::Purple => 7,
        RgbColor::Rainbow => 8,
    }
}

impl RgbColor {
    /// The value the firmware stores for this colour.
    pub fn code(self) -> (c: u16)
        ensures
            c == color_code(self),
    {
        match self {
            RgbColor::White => 0,
            RgbColor::Red => 1,
            RgbColor::Orange => 2,
            RgbColor::Yellow => 3,
            RgbColor::Green => 4,
            RgbColor::Cyan => 5,
            RgbColor::Blue => 6,
            RgbColor::Purple => 7,
            RgbColor::Rainbow => 8,
        }
    }
}

/// Selects one of the seven parametric EQ bands.
///
/// `Band1`–`Band5` are fully parametric (peaking or shelf). `Hpf` and `Lpf`
/// are fixed high-pass and low-pass filters whose gain and Q are sent as
/// firmware constants.
#[derive(Debug, Clone, Copy, PartialEq, Eq, Structural)]
pub enum EqBand {
    Band1,
    Band2,
    Band3,
    Band4,
    Band5,
    /// High-pass filter.
    Hpf,
    /// Low-pass filter.
    Lpf,
}

/// The first of the five consecutive registers of a band.
pub open spec fn band_base(band: EqBand) -> u16 {
    match band {
        EqBand::Band1 => cmd::BAND1_BASE,
        EqBand::Band2 => cmd::BAND2_BASE,
        EqBand::Band3 => cmd::BAND3_BASE,
        EqBand::Band4 => cmd::BAND4_BASE,
        EqBand::Band5 => cmd::BAND5_BASE,
        EqBand::Hpf => cmd::HPF_BASE,
        EqBand::Lpf => cmd::LPF_BASE,
    }
}

impl EqBand {
    /// The first of the five registers (enable, type, freq, gain, q) of this band.
    pub fn base_cmd(self) -> (base: u16)
        ensures
            base == band_base(self),
            base + 4 <= u16::MAX,
    {
        match self {
            EqBand::Band1 => cmd::BAND1_BASE,
            EqBand::Band2 => cmd::BAND2_BASE,
            EqBand::Band3 => cmd::BAND3_BASE,
            EqBand::Band4 => cmd::BAND4_BASE,
            EqBand::Band5 => cmd::BAND5_BASE,
            EqBand::Hpf => cmd::HPF_BASE,
            EqBand::Lpf => cmd::LPF_BASE,
        }
    }
}

/// Firmware encoding of a noise-cancellation strength: `(ui + 120) * 10`.
pub open spec fn nc_strength_code(ui: u8) -> u16 {
    ((ui + 120) * 10) as u16
}

/// Converts UI noise-cancellation strength (0–40) to firmware value.
pub fn encode_nc_strength(ui: u8) -> (v: u16)
    ensures
        v == nc_strength_code(ui),
{
    (ui as u16 + 120) * 10
}

} // verus!
