//! Fixed properties of the RFOne board.

use crate::config::RfPort;
use crate::types::RfPortInfo;
use vstd::prelude::*;

verus! {

/// Number of queued streaming transfers.
pub const RFONE_TRANSFER_COUNT: u32 = 16;

/// Bulk-IN endpoint of the receive samples.
pub const RFONE_RX_ENDPOINT: u8 = 0x81;

/// Largest LNA gain.
pub const RFONE_LNA_MAX_GAIN: u8 = 14;

/// Largest mixer gain.
pub const RFONE_MIXER_MAX_GAIN: u8 = 15;

/// Largest VGA gain.
pub const RFONE_VGA_MAX_GAIN: u8 = 15;

/// Lowest tunable frequency in Hz.
pub const RFONE_MIN_FREQ_HZ: u64 = 24_000_000;

/// Highest tunable frequency in Hz.
pub const RFONE_MAX_FREQ_HZ: u64 = 1_800_000_000;

/// Entries of a preset gain table.
pub const RFONE_GAIN_TABLE_SIZE: usize = 22;

/// Complex sample rates of the firmware in Hz, by request index.
pub const RFONE_FIRMWARE_IQ_SAMPLE_RATES: [u32; 3] = [10_000_000, 5_000_000, 2_500_000];

/// Real ADC sample rates in Hz, by request index.
pub const RFONE_RAW_ADC_SAMPLE_RATES: [u32; 3] = [20_000_000, 10_000_000, 5_000_000];

/// Complex sample rates that the firmware and the host decimator produce, in Hz.
pub const RFONE_F32_IQ_SAMPLE_RATES: [u32; 8] = [
    10_000_000,
    5_000_000,
    2_500_000,
    1_250_000,
    625_000,
    312_500,
    156_250,
    78_125,
];

/// Host-side decimation factors, largest first.
pub const DECIMATION_FACTORS_DESC: [u32; 7] = [64, 32, 16, 8, 4, 2, 1];

/// VGA gains of the linearity presets, strongest preset first.
pub const RFONE_LINEARITY_VGA_GAINS: [u8; RFONE_GAIN_TABLE_SIZE] = [
    13, 12, 11, 11, 11, 11, 11, 10, 10, 10, 10, 10, 10, 10, 10, 10, 9, 8, 7, 6, 5, 4,
];

/// Mixer gains of the linearity presets, strongest preset first.
pub const RFONE_LINEARITY_MIXER_GAINS: [u8; RFONE_GAIN_TABLE_SIZE] = [
    12, 12, 11, 9, 8, 7, 6, 6, 5, 0, 0, 1, 0, 0, 2, 2, 1, 1, 1, 1, 0, 0,
];

/// LNA gains of the linearity presets, strongest preset first.
pub const RFONE_LINEARITY_LNA_GAINS: [u8; RFONE_GAIN_TABLE_SIZE] = [
    14, 14, 14, 13, 12, 10, 9, 9, 8, 9, 8, 6, 5, 3, 1, 0, 0, 0, 0, 0, 0, 0,
];

/// VGA gains of the sensitivity presets, strongest preset first.
pub const RFONE_SENSITIVITY_VGA_GAINS: [u8; RFONE_GAIN_TABLE_SIZE] = [
    13, 12, 11, 10, 9, 8, 7, 6, 5, 5, 5, 5, 5, 4, 4, 4, 4, 4, 4, 4, 4, 4,
];

/// Mixer gains of the sensitivity presets, strongest preset first.
pub const RFONE_SENSITIVITY_MIXER_GAINS: [u8; RFONE_GAIN_TABLE_SIZE] = [
    12, 12, 12, 12, 11, 10, 10, 9, 9, 8, 7, 4, 4, 4, 3, 2, 2, 1, 0, 0, 0, 0,
];

/// LNA gains of the sensitivity presets, strongest preset first.
pub const RFONE_SENSITIVITY_LNA_GAINS: [u8; RFONE_GAIN_TABLE_SIZE] = [
    14, 14, 14, 14, 14, 14, 14, 14, 14, 13, 12, 12, 9, 9, 8, 7, 6, 5, 3, 2, 1, 0,
];

/// Contents of the RF port list.
pub open spec fn spec_rf_port_infos() -> Seq<RfPortInfo> {
    seq![
        RfPortInfo {
            port: RfPort::Rx0,
            name: "ANT",
            min_frequency: RFONE_MIN_FREQ_HZ,
            max_frequency: RFONE_MAX_FREQ_HZ,
            has_bias_tee: true,
        },
        RfPortInfo {
            port: RfPort::Rx1,
            name: "CABLE1",
            min_frequency: RFONE_MIN_FREQ_HZ,
            max_frequency: RFONE_MAX_FREQ_HZ,
            has_bias_tee: false,
        },
        RfPortInfo {
            port: RfPort::Rx2,
            name: "CABLE2",
            min_frequency: RFONE_MIN_FREQ_HZ,
            max_frequency: RFONE_MAX_FREQ_HZ,
            has_bias_tee: false,
        },
    ]
}

/// RF port metadata of the RFOne.
pub fn rf_port_infos() -> (ports: Vec<RfPortInfo>)
    ensures
        ports@ == spec_rf_port_infos(),
{
    let mut ports: Vec<RfPortInfo> = Vec::new();
    ports.push(
        RfPortInfo {
            port: RfPort::Rx0,
            name: "ANT",
            min_frequency: RFONE_MIN_FREQ_HZ,
            max_frequency: RFONE_MAX_FREQ_HZ,
            has_bias_tee: true,
        },
    );
    ports.push(
        RfPortInfo {
            port: RfPort::Rx1,
            name: "CABLE1",
            min_frequency: RFONE_MIN_FREQ_HZ,
            max_frequency: RFONE_MAX_FREQ_HZ,
            has_bias_tee: false,
        },
    );
    ports.push(
        RfPortInfo {
            port: RfPort::Rx2,
            name: "CABLE2",
            min_frequency: RFONE_MIN_FREQ_HZ,
            max_frequency: RFONE_MAX_FREQ_HZ,
            has_bias_tee: false,
        },
    );
    assert(ports@ =~= spec_rf_port_infos());
    ports
}

} // verus!
