//! Driver logic for the PD200X USB microphone (VID `0x352F`, PID `0x0104`).
//!
//! This crate holds everything the driver computes: the register map, the
//! HID report layouts with their checksums, the decoding of device replies,
//! the mapping of each high-level setting to register writes, and the
//! decision logic of the query loop. Opening the device and moving reports
//! over USB is left to the caller.

pub mod control;
pub mod eq;
pub mod error;
pub mod packet;
pub mod protocol;
pub mod query;

pub use error::{Error, Result};
pub use packet::{
    build_command_packet, build_eq_packet, build_query_packet, checksum, parse_response, Response,
};
pub use protocol::{cmd, encode_nc_strength, EqBand, FilterType, RgbColor};
pub use control::{
    decode_flag, decode_level, decode_mic_monitor, decode_nc_strength, register_writes,
    write_delay_ms, RegisterWrite, Setting,
};
pub use eq::{eq_band_packet, eq_pairs, eq_preset_packets, hpf_values, lpf_values, EqBandValues};
pub use query::{next_query_step, QueryStep, ReadOutcome};
