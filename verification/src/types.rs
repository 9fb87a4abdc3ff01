//! Plain values exchanged with the device.

use crate::active_state::ActiveState;
use crate::config::RfPort;
use vstd::prelude::*;

verus! {

/// Host-side IQ decimation mode.
#[derive(Clone, Copy, Debug, Eq, PartialEq, Structural)]
pub enum DecimationMode {
    /// Prefer the lowest firmware rate that can produce the requested effective
    /// IQ rate, reducing USB and host processing bandwidth.
    LowBandwidth,
    /// Prefer the highest firmware rate that can produce the requested
    /// effective IQ rate, then decimate on the host for greater oversampling.
    HighDefinition,
}

/// Sample type of the direct layer.
#[derive(Clone, Copy, Debug, Eq, PartialEq, Structural)]
pub enum SampleType {
    /// Converted complex samples.
    Float32Iq,
    /// Raw ADC samples.
    Raw,
}

/// HydraSDR board identifier.
#[derive(Clone, Copy, Debug, Eq, PartialEq, Structural)]
pub enum BoardId {
    /// Prototype board.
    ProtoHydraSdr,
    /// Official RFOne board.
    HydraSdrRfOneOfficial,
    /// Board without a valid identifier.
    Invalid,
}

/// Board identifier value that is not known.
#[derive(Clone, Copy, Debug, Eq, PartialEq, Structural)]
pub struct UnknownBoardId(pub u8);

/// Board with the identifier `value`.
pub open spec fn board_with_id(value: u8) -> core::result::Result<BoardId, UnknownBoardId> {
    if value == 0 {
        Ok(BoardId::ProtoHydraSdr)
    } else if value == 1 {
        Ok(BoardId::HydraSdrRfOneOfficial)
    } else if value == 0xff {
        Ok(BoardId::Invalid)
    } else {
        Err(UnknownBoardId(value))
    }
}

impl TryFrom<u8> for BoardId {
    type Error = UnknownBoardId;

    fn try_from(value: u8) -> (result: core::result::Result<Self, UnknownBoardId>) {
        match value {
            0 => Ok(BoardId::ProtoHydraSdr),
            1 => Ok(BoardId::HydraSdrRfOneOfficial),
            0xff => Ok(BoardId::Invalid),
            other => Err(UnknownBoardId(other)),
        }
    }
}

impl vstd::std_specs::convert::TryFromSpecImpl<u8> for BoardId {
    open spec fn obeys_try_from_spec() -> bool {
        true
    }

    open spec fn try_from_spec(value: u8) -> core::result::Result<Self, UnknownBoardId> {
        board_with_id(value)
    }
}

/// Part ID and serial-number words returned by the firmware.
#[derive(Clone, Copy, Debug, Eq, PartialEq)]
pub struct PartIdSerialNo {
    /// Part ID words.
    pub part_id: [u32; 2],
    /// Serial-number words.
    pub serial_no: [u32; 4],
}

/// RF port metadata returned in [`DeviceInfo`].
#[derive(Clone, Copy, Debug, Eq, PartialEq)]
pub struct RfPortInfo {
    /// Protocol selector used to activate this port.
    pub port: RfPort,
    /// RF port name.
    pub name: &'static str,
    /// Minimum tunable frequency for this port, in Hz.
    pub min_frequency: u64,
    /// Maximum tunable frequency for this port, in Hz.
    pub max_frequency: u64,
    /// Whether this port exposes a bias tee.
    pub has_bias_tee: bool,
}

/// Device metadata reported while opening the device.
#[derive(Clone, PartialEq)]
pub struct DeviceInfo {
    /// Board name.
    pub board_name: &'static str,
    /// Firmware version string.
    pub firmware_version: String,
    /// Parsed 64-bit serial number, if available.
    pub serial: Option<u64>,
    /// Lowest tunable frequency in Hz.
    pub min_frequency: u64,
    /// Highest tunable frequency in Hz.
    pub max_frequency: u64,
    /// RF ports reported for this device.
    pub rf_ports: Vec<RfPortInfo>,
    /// Shared handle to the active receiver state.
    pub active_state: ActiveState,
}

} // verus!
