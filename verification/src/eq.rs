//! Parametric EQ: the five registers of a band and the report that sets them.

use vstd::prelude::*;

use crate::control::flag;
use crate::packet::{build_eq_packet, eq_header, pair_words, report};
use crate::protocol::{band_base, filter_code, EqBand, FilterType};

verus! {

/// The settings of one EQ band, with gain and Q already in firmware units
/// (gain: `2000 + 10 * dB`; Q: `100 * q`, both truncated toward zero).
#[derive(Debug, Clone, Copy, PartialEq, Eq, Structural)]
pub struct EqBandValues {
    /// Whether this band is active.
    pub enabled: bool,
    /// Filter shape (`Hpf` and `Lpf` always send high-pass and low-pass).
    pub filter_type: FilterType,
    /// Cutoff or centre frequency in Hz.
    pub frequency: u16,
    /// Encoded gain.
    pub gain: u16,
    /// Encoded Q.
    pub q: u16,
}

/// Encoded gain of 0 dB.
pub const GAIN_0_DB: u16 = 2000;

/// Encoded Q of 1.0.
pub const Q_ONE: u16 = 100;

/// The `(register, value)` pairs that configure `band`: enable, filter type,
/// frequency, gain and Q at five consecutive registers from the band's base.
/// `Hpf` and `Lpf` always carry their own filter type; gain and Q are sent as
/// given, which leaves the caller full control over those constants.
pub open spec fn band_pairs(band: EqBand, v: EqBandValues) -> Seq<(u16, u16)> {
    let base = band_base(band);
    let (ft, gain, q) = match band {
        EqBand::Hpf => (filter_code(FilterType::HighPass), v.gain, v.q),
        EqBand::Lpf => (filter_code(FilterType::LowPass), v.gain, v.q),
        _ => (filter_code(v.filter_type), v.gain, v.q),
    };
    seq![
        (base, flag(v.enabled)),
        ((base + 1) as u16, ft),
        ((base + 2) as u16, v.frequency),
        ((base + 3) as u16, gain),
        ((base + 4) as u16, q),
    ]
}

/// The five `(register, value)` pairs that configure `band` with `params`.
pub fn eq_pairs(band: EqBand, params: &EqBandValues) -> (pairs: [(u16, u16); 5])
    ensures
        pairs@ == band_pairs(band, *params),
{
    let base = band.base_cmd();
    let enabled: u16 = if params.enabled { 1 } else { 0 };
    let freq = params.frequency;
    let pairs = match band {
        EqBand::Hpf => [
            (base, enabled),
            (base + 1, FilterType::HighPass.code()),
            (base + 2, freq),
            (base + 3, params.gain),
            (base + 4, params.q),
        ],
        EqBand::Lpf => [
            (base, enabled),
            (base + 1, FilterType::LowPass.code()),
            (base + 2, freq),
            (base + 3, params.gain),
            (base + 4, params.q),
        ],
        _ => [
            (base, enabled),
            (base + 1, params.filter_type.code()),
            (base + 2, freq),
            (base + 3, params.gain),
            (base + 4, params.q),
        ],
    };
    assert(pairs@ =~= band_pairs(band, *params));
    pairs
}

/// The EQ report that configures `band` with `params` in one USB packet.
pub fn eq_band_packet(band: EqBand, params: &EqBandValues) -> (p: [u8; 65])
    ensures
        p@ == report(eq_header(), pair_words(band_pairs(band, *params))),
{
    build_eq_packet(eq_pairs(band, params))
}

/// High-pass filter at `frequency` Hz with gain 0 dB and Q 1.0.
pub open spec fn hpf_spec(enabled: bool, frequency: u16) -> EqBandValues {
    EqBandValues { enabled, filter_type: FilterType::HighPass, frequency, gain: GAIN_0_DB, q: Q_ONE }
}

/// Low-pass filter at `frequency` Hz with gain 0 dB and Q 1.0.
pub open spec fn lpf_spec(enabled: bool, frequency: u16) -> EqBandValues {
    EqBandValues { enabled, filter_type: FilterType::LowPass, frequency, gain: GAIN_0_DB, q: Q_ONE }
}

/// Settings of the high-pass filter band: on or off at `frequency` Hz, Q 1.0.
pub fn hpf_values(enabled: bool, frequency: u16) -> (v: EqBandValues)
    ensures
        v == hpf_spec(enabled, frequency),
{
    EqBandValues { enabled, filter_type: FilterType::HighPass, frequency, gain: GAIN_0_DB, q: Q_ONE }
}

/// Settings of the low-pass filter band: on or off at `frequency` Hz, Q 1.0.
pub fn lpf_values(enabled: bool, frequency: u16) -> (v: EqBandValues)
    ensures
        v == lpf_spec(enabled, frequency),
{
    EqBandValues { enabled, filter_type: FilterType::LowPass, frequency, gain: GAIN_0_DB, q: Q_ONE }
}

/// One EQ report per `(band, settings)` entry, in order.
pub fn eq_preset_packets(bands: &[(EqBand, EqBandValues)]) -> (ps: Vec<[u8; 65]>)
    ensures
        ps@.len() == bands@.len(),
        forall|i: int|
            0 <= i < bands@.len() ==> #[trigger] ps@[i]@ == report(
                eq_header(),
                pair_words(band_pairs(bands@[i].0, bands@[i].1)),
            ),
{
    let mut ps: Vec<[u8; 65]> = Vec::new();
    let mut i: usize = 0;
    while i < bands.len()
        invariant
            i <= bands@.len(),
            ps@.len() == i,
            forall|j: int|
                0 <= j < i ==> #[trigger] ps@[j]@ == report(
                    eq_header(),
                    pair_words(band_pairs(bands@[j].0, bands@[j].1)),
                ),
        decreases bands@.len() - i,
    {
        let (band, values) = bands[i];
        ps.push(eq_band_packet(band, &values));
        i = i + 1;
    }
    ps
}

/// Distinct bands use disjoint registers: configuring one band never
/// touches a register of another.
pub proof fn lemma_band_registers_disjoint(
    b1: EqBand,
    v1: EqBandValues,
    b2: EqBand,
    v2: EqBandValues,
    i: int,
    j: int,
)
    requires
        b1 != b2,
        0 <= i < 5,
        0 <= j < 5,
    ensures
        band_pairs(b1, v1)[i].0 != band_pairs(b2, v2)[j].0,
{
}


/// The bands' register blocks, five registers apart: Band1 at `0x204D`, then
/// Band2 `0x2052`, Band3 `0x2057`, Band4 `0x205C`, Band5 `0x2061`, the
/// high-pass filter `0x2066` and the low-pass filter `0x206B`. Filter shapes
/// are coded Peaking 0, LowPass 1, HighPass 2, LowShelf 3, HighShelf 4.
pub proof fn lemma_band_and_filter_codes()
    ensures
        band_base(EqBand::Band1) == 0x204D,
        band_base(EqBand::Band2) == 0x2052,
        band_base(EqBand::Band3) == 0x2057,
        band_base(EqBand::Band4) == 0x205C,
        band_base(EqBand::Band5) == 0x2061,
        band_base(EqBand::Hpf) == 0x2066,
        band_base(EqBand::Lpf) == 0x206B,
        filter_code(FilterType::Peaking) == 0,
        filter_code(FilterType::LowPass) == 1,
        filter_code(FilterType::HighPass) == 2,
        filter_code(FilterType::LowShelf) == 3,
        filter_code(FilterType::HighShelf) == 4,
{
}

/// Slot by slot, the pairs of a band are: its base register with 1 when the
/// band is enabled and 0 when not; the next register with the filter code
/// (the given shape for Band1–Band5, high-pass for `Hpf`, low-pass for `Lpf`);
/// then the frequency, the gain and the Q exactly as given, at the following
/// three registers.
pub proof fn lemma_band_pair_slots(band: EqBand, v: EqBandValues)
    ensures
        ({
            let p = band_pairs(band, v);
            let b = band_base(band);
            &&& p.len() == 5
            &&& p[0] == (b, if v.enabled { 1u16 } else { 0u16 })
            &&& p[1].0 == b + 1
            &&& p[1].1 == (match band {
                EqBand::Hpf => 2u16,
                EqBand::Lpf => 1u16,
                _ => filter_code(v.filter_type),
            })
            &&& p[2] == ((b + 2) as u16, v.frequency)
            &&& p[3] == ((b + 3) as u16, v.gain)
            &&& p[4] == ((b + 4) as u16, v.q)
            &&& p[2].0 == b + 2
            &&& p[3].0 == b + 3
            &&& p[4].0 == b + 4
        }),
{
    lemma_band_and_filter_codes();
}

/// Changing one field of a band's settings changes exactly its own slot:
/// gain only at `base + 3`, Q only at `base + 4`.
pub proof fn lemma_gain_and_q_slots_independent(band: EqBand, v: EqBandValues, gain: u16, q: u16)
    ensures
        ({
            let p = band_pairs(band, v);
            let pg = band_pairs(band, EqBandValues { gain, ..v });
            let pq = band_pairs(band, EqBandValues { q, ..v });
            &&& pg[3].1 == gain && pq[4].1 == q
            &&& pg[0] == p[0] && pg[1] == p[1] && pg[2] == p[2] && pg[4] == p[4]
            &&& pq[0] == p[0] && pq[1] == p[1] && pq[2] == p[2] && pq[3] == p[3]
        }),
{
}

/// The high-pass and low-pass settings keep the requested on/off state and
/// cutoff, with gain 0 dB (2000) and Q 1.0 (100); their pairs switch the
/// enable register to 1 exactly when enabled.
pub proof fn lemma_cutoff_filters(enabled: bool, frequency: u16)
    ensures
        hpf_spec(enabled, frequency).enabled == enabled,
        hpf_spec(enabled, frequency).filter_type == FilterType::HighPass,
        hpf_spec(enabled, frequency).frequency == frequency,
        hpf_spec(enabled, frequency).gain == 2000,
        hpf_spec(enabled, frequency).q == 100,
        lpf_spec(enabled, frequency).enabled == enabled,
        lpf_spec(enabled, frequency).filter_type == FilterType::LowPass,
        lpf_spec(enabled, frequency).frequency == frequency,
        lpf_spec(enabled, frequency).gain == 2000,
        lpf_spec(enabled, frequency).q == 100,
        band_pairs(EqBand::Hpf, hpf_spec(enabled, frequency)) == seq![
            (0x2066u16, if enabled { 1u16 } else { 0u16 }),
            (0x2067u16, 2u16),
            (0x2068u16, frequency),
            (0x2069u16, 2000u16),
            (0x206Au16, 100u16),
        ],
        band_pairs(EqBand::Lpf, lpf_spec(enabled, frequency)) == seq![
            (0x206Bu16, if enabled { 1u16 } else { 0u16 }),
            (0x206Cu16, 1u16),
            (0x206Du16, frequency),
            (0x206Eu16, 2000u16),
            (0x206Fu16, 100u16),
        ],
{
    assert(band_pairs(EqBand::Hpf, hpf_spec(enabled, frequency)) =~= seq![
        (0x2066u16, if enabled { 1u16 } else { 0u16 }),
        (0x2067u16, 2u16),
        (0x2068u16, frequency),
        (0x2069u16, 2000u16),
        (0x206Au16, 100u16),
    ]);
    assert(band_pairs(EqBand::Lpf, lpf_spec(enabled, frequency)) =~= seq![
        (0x206Bu16, if enabled { 1u16 } else { 0u16 }),
        (0x206Cu16, 1u16),
        (0x206Du16, frequency),
        (0x206Eu16, 2000u16),
        (0x206Fu16, 100u16),
    ]);
}

} // verus!
