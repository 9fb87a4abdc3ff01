//! Receiver configuration.

use crate::errors::{Error, Result};
use crate::private::Sealed;
use crate::rfone::{
    RFONE_LNA_MAX_GAIN, RFONE_MAX_FREQ_HZ, RFONE_MIN_FREQ_HZ, RFONE_MIXER_MAX_GAIN,
    RFONE_VGA_MAX_GAIN,
};
use crate::types::{DecimationMode, SampleType};
use core::marker::PhantomData;
use vstd::prelude::*;

verus! {

/// Center frequency of the standard configuration in Hz.
pub const DEFAULT_FREQUENCY_HZ: u64 = 100_000_000;

/// Sample rate of the standard configuration in Hz.
pub const DEFAULT_SAMPLE_RATE_HZ: u32 = 10_000_000;

/// Lowest sample rate that a configuration may request in Hz.
pub const MIN_SAMPLE_RATE_HZ: u32 = 10_000;

/// Lowest manual bandwidth that a configuration may request in Hz.
pub const MIN_BANDWIDTH_HZ: u32 = 1_000;

/// Largest preset gain index.
pub const MAX_PRESET_GAIN: u8 = 21;

/// Largest parameter of a vendor request.
pub const MAX_VENDOR_INDEX_OR_KHZ: u32 = 65_535;

/// Largest raw sample rate whose kHz value fits a vendor request.
pub const MAX_RAW_SAMPLE_RATE_HZ: u32 = MAX_VENDOR_INDEX_OR_KHZ * 1_000 + 999;

/// Largest IQ sample rate whose doubled kHz value fits a vendor request.
pub const MAX_F32_IQ_SAMPLE_RATE_HZ: u32 = (((MAX_VENDOR_INDEX_OR_KHZ + 1) * 1_000) - 1) / 2;

/// Largest manual bandwidth whose kHz value fits a vendor request.
pub const MAX_BANDWIDTH_HZ: u32 = MAX_VENDOR_INDEX_OR_KHZ * 1_000 + 999;

/// Device selection used by [`crate::DeviceBuilder`].
#[derive(Clone, Copy, Debug, Eq, PartialEq, Structural)]
pub enum DeviceSelector {
    /// Open the first visible HydraSDR RFOne.
    First,
    /// Open the HydraSDR RFOne with a parsed 64-bit serial number.
    Serial(u64),
}

impl DeviceSelector {
    /// Serial number that a device must have, if one was selected.
    pub open spec fn spec_serial(self) -> Option<u64> {
        match self {
            DeviceSelector::First => None,
            DeviceSelector::Serial(serial) => Some(serial),
        }
    }

    /// Serial number that a device must have, if one was selected.
    pub fn serial(self) -> (serial: Option<u64>)
        ensures
            serial == self.spec_serial(),
    {
        match self {
            DeviceSelector::First => None,
            DeviceSelector::Serial(serial) => Some(serial),
        }
    }
}

/// RF input port selector.
#[derive(Clone, Copy, Debug, Eq, PartialEq, Structural)]
pub enum RfPort {
    /// First RF input port.
    Rx0,
    /// Second RF input port.
    Rx1,
    /// Third RF input port.
    Rx2,
}

impl RfPort {
    /// Protocol number of this port.
    pub open spec fn spec_code(self) -> u16 {
        match self {
            RfPort::Rx0 => 0,
            RfPort::Rx1 => 1,
            RfPort::Rx2 => 2,
        }
    }

    /// Protocol number of this port.
    pub fn code(self) -> (code: u16)
        ensures
            code == self.spec_code(),
    {
        match self {
            RfPort::Rx0 => 0,
            RfPort::Rx1 => 1,
            RfPort::Rx2 => 2,
        }
    }
}

/// Analog bandwidth policy.
#[derive(Clone, Copy, Debug, Eq, PartialEq, Structural)]
pub enum Bandwidth {
    /// Leave the bandwidth to the firmware.
    Auto,
    /// Request an explicit bandwidth in Hz.
    ManualHz(u32),
}

/// Runtime view of the high-level sample format.
///
/// Configuration uses the [`RawAdc`] and [`F32Iq`] marker types instead. This
/// enum is derived from that marker and is exposed for runtime state reporting.
#[derive(Clone, Copy, Debug, Eq, PartialEq, Structural)]
pub enum SampleFormat {
    /// Raw ADC USB blocks measured in real ADC samples per second.
    RawAdc,
    /// Converted 32-bit float IQ samples measured in complex samples per second.
    ///
    /// The driver may select a higher firmware rate and apply host-side
    /// decimation to produce the requested effective rate.
    F32Iq,
}

impl SampleFormat {
    /// Direct-layer sample type that delivers this format.
    pub open spec fn spec_sample_type(self) -> SampleType {
        match self {
            SampleFormat::RawAdc => SampleType::Raw,
            SampleFormat::F32Iq => SampleType::Float32Iq,
        }
    }

    /// Direct-layer sample type that delivers this format.
    pub fn sample_type(self) -> (sample_type: SampleType)
        ensures
            sample_type == self.spec_sample_type(),
    {
        match self {
            SampleFormat::RawAdc => SampleType::Raw,
            SampleFormat::F32Iq => SampleType::Float32Iq,
        }
    }
}

/// Compile-time receiver sample mode.
///
/// This trait is sealed because the RFOne high-level API supports only
/// [`RawAdc`] and [`F32Iq`].
pub trait SampleMode: Sealed + Copy + core::fmt::Debug + Eq {
    /// Runtime format corresponding to this compile-time mode.
    const FORMAT: SampleFormat;
}

/// Raw ADC sample mode.
#[derive(Clone, Copy, Debug, Eq, PartialEq, Structural)]
pub struct RawAdc;

/// Converted complex `f32` IQ sample mode.
#[derive(Clone, Copy, Debug, Eq, PartialEq, Structural)]
pub struct F32Iq;

impl Default for RawAdc {
    fn default() -> (mode: Self)
        ensures
            mode == RawAdc,
    {
        RawAdc
    }
}

impl Default for F32Iq {
    fn default() -> (mode: Self)
        ensures
            mode == F32Iq,
    {
        F32Iq
    }
}

impl Sealed for RawAdc {

}

impl Sealed for F32Iq {

}

impl SampleMode for RawAdc {
    const FORMAT: SampleFormat = SampleFormat::RawAdc;
}

impl SampleMode for F32Iq {
    const FORMAT: SampleFormat = SampleFormat::F32Iq;
}

/// Preset gain plans for common RFOne operation.
#[derive(Clone, Copy, Debug, Eq, PartialEq, Structural)]
pub enum GainPreset {
    /// Apply the RFOne linearity preset table.
    Linearity(u8),
    /// Apply the RFOne sensitivity preset table.
    Sensitivity(u8),
}

/// Gain of one amplifier stage that has an automatic control.
#[derive(Clone, Copy, Debug, Eq, PartialEq, Structural)]
pub enum StageGain {
    /// Switch the automatic control off and set this gain.
    Manual(u8),
    /// Leave the gain to the automatic control.
    Agc,
}

impl StageGain {
    /// Gain that is set, if it is not left to the automatic control.
    pub open spec fn spec_manual(self) -> Option<u8> {
        match self {
            StageGain::Manual(value) => Some(value),
            StageGain::Agc => None,
        }
    }

    /// Gain that is set, if it is not left to the automatic control.
    pub fn manual(self) -> (gain: Option<u8>)
        ensures
            gain == self.spec_manual(),
    {
        match self {
            StageGain::Manual(value) => Some(value),
            StageGain::Agc => None,
        }
    }
}

/// Gain configuration applied after sample/rate/RF-port setup.
#[derive(Clone, Copy, Debug, Eq, PartialEq, Structural)]
pub enum GainConfig {
    /// Leave direct gain state unchanged.
    ///
    /// This is opt-in. The standard [`Config`] default explicitly sets 35 dB
    /// total gain and disables both AGCs.
    Unchanged,
    /// Apply one RFOne preset.
    Preset(GainPreset),
    /// Apply explicit component gains/AGC bits where present.
    Manual {
        /// LNA gain value in `0..=14`, if explicitly configured.
        lna: Option<u8>,
        /// Mixer gain value in `0..=15`, if explicitly configured.
        mixer: Option<u8>,
        /// VGA gain value in `0..=15`, if explicitly configured.
        vga: Option<u8>,
        /// LNA AGC enable state, if explicitly configured.
        lna_agc: Option<bool>,
        /// Mixer AGC enable state, if explicitly configured.
        mixer_agc: Option<bool>,
    },
    /// Set every stage, each by hand or by its automatic control.
    Stages {
        /// LNA stage.
        lna: StageGain,
        /// Mixer stage.
        mixer: StageGain,
        /// VGA gain value in `0..=15`.
        vga: u8,
    },
}

/// Gain of the standard configuration: 35 dB, both AGCs off.
pub open spec fn standard_gain() -> GainConfig {
    GainConfig::Manual {
        lna: Some(14),
        mixer: Some(15),
        vga: Some(6),
        lna_agc: Some(false),
        mixer_agc: Some(false),
    }
}

impl Default for GainConfig {
    /// Return the complete standard manual-gain configuration.
    fn default() -> (gain: Self)
        ensures
            gain == standard_gain(),
    {
        GainConfig::Manual {
            lna: Some(14),
            mixer: Some(15),
            vga: Some(6),
            lna_agc: Some(false),
            mixer_agc: Some(false),
        }
    }
}

impl From<GainPreset> for GainConfig {
    fn from(value: GainPreset) -> (gain: Self) {
        GainConfig::Preset(value)
    }
}

impl vstd::std_specs::convert::FromSpecImpl<GainPreset> for GainConfig {
    open spec fn obeys_from_spec() -> bool {
        true
    }

    open spec fn from_spec(value: GainPreset) -> Self {
        GainConfig::Preset(value)
    }
}

/// Values that name a gain configuration.
pub trait IntoGain: Sized {
    /// Gain configuration that this value names.
    spec fn spec_gain(self) -> GainConfig;

    /// Gain configuration that this value names.
    fn into_gain(self) -> (gain: GainConfig)
        ensures
            gain == self.spec_gain(),
    ;
}

impl IntoGain for GainConfig {
    open spec fn spec_gain(self) -> GainConfig {
        self
    }

    fn into_gain(self) -> (gain: GainConfig) {
        self
    }
}

impl IntoGain for GainPreset {
    open spec fn spec_gain(self) -> GainConfig {
        GainConfig::Preset(self)
    }

    fn into_gain(self) -> (gain: GainConfig) {
        GainConfig::from(self)
    }
}

/// Whether the receiver can be tuned to `value` Hz.
pub open spec fn valid_frequency(value: u64) -> bool {
    RFONE_MIN_FREQ_HZ <= value <= RFONE_MAX_FREQ_HZ
}

/// Largest sample rate of `format` that a vendor request can carry.
pub open spec fn max_sample_rate(format: SampleFormat) -> u32 {
    match format {
        SampleFormat::RawAdc => 65_535_999,
        SampleFormat::F32Iq => 32_767_999,
    }
}

/// Whether a configuration of `format` may request `value` Hz.
pub open spec fn valid_sample_rate(value: u32, format: SampleFormat) -> bool {
    MIN_SAMPLE_RATE_HZ <= value <= max_sample_rate(format)
}

/// Whether a configuration may ask for `bandwidth`.
pub open spec fn valid_bandwidth(bandwidth: Bandwidth) -> bool {
    match bandwidth {
        Bandwidth::Auto => true,
        Bandwidth::ManualHz(value) => MIN_BANDWIDTH_HZ <= value <= 65_535_999,
    }
}

/// First rule that the component gains break, if any.
pub open spec fn stage_problem(
    lna: Option<u8>,
    mixer: Option<u8>,
    vga: Option<u8>,
) -> Option<&'static str> {
    if lna matches Some(value) && value > RFONE_LNA_MAX_GAIN {
        Some("manual LNA gain must be in 0..=14")
    } else if mixer matches Some(value) && value > RFONE_MIXER_MAX_GAIN {
        Some("manual mixer gain must be in 0..=15")
    } else if vga matches Some(value) && value > RFONE_VGA_MAX_GAIN {
        Some("manual VGA gain must be in 0..=15")
    } else {
        None
    }
}

/// Index of a preset.
pub open spec fn preset_value(preset: GainPreset) -> u8 {
    match preset {
        GainPreset::Linearity(value) => value,
        GainPreset::Sensitivity(value) => value,
    }
}

/// First rule that `gain` breaks, if any.
pub open spec fn gain_problem(gain: GainConfig) -> Option<&'static str> {
    match gain {
        GainConfig::Unchanged => None,
        GainConfig::Preset(preset) => if preset_value(preset) > MAX_PRESET_GAIN {
            Some("RFOne preset gain must be in 0..=21")
        } else {
            None
        },
        GainConfig::Manual { lna, mixer, vga, .. } => stage_problem(lna, mixer, vga),
        GainConfig::Stages { lna, mixer, vga } => stage_problem(
            lna.spec_manual(),
            mixer.spec_manual(),
            Some(vga),
        ),
    }
}

/// Whether `gain` is within the ranges of the board.
pub open spec fn valid_gain(gain: GainConfig) -> bool {
    gain_problem(gain) is None
}

/// Outcome of validating a center frequency.
pub open spec fn checked_frequency(value: u64) -> Result<()> {
    if valid_frequency(value) {
        Ok(())
    } else {
        Err(
            Error::InvalidConfig {
                field: "frequency_hz",
                reason: "must be in 24_000_000..=1_800_000_000 Hz",
            },
        )
    }
}

/// Outcome of validating a sample rate of `format`.
pub open spec fn checked_sample_rate(value: u32, format: SampleFormat) -> Result<()> {
    if valid_sample_rate(value, format) {
        Ok(())
    } else if value < MIN_SAMPLE_RATE_HZ {
        Err(
            Error::InvalidConfig {
                field: "sample_rate_hz",
                reason: "must be at least 10_000 Hz",
            },
        )
    } else {
        Err(
            Error::InvalidConfig {
                field: "sample_rate_hz",
                reason: "must fit the HydraSDR vendor request parameter",
            },
        )
    }
}

/// Outcome of validating a bandwidth policy.
pub open spec fn checked_bandwidth(bandwidth: Bandwidth) -> Result<()> {
    if valid_bandwidth(bandwidth) {
        Ok(())
    } else {
        Err(
            Error::InvalidConfig {
                field: "bandwidth_hz",
                reason: "must fit the HydraSDR vendor request parameter",
            },
        )
    }
}

/// Outcome of validating a gain configuration.
pub open spec fn checked_gain(gain: GainConfig) -> Result<()> {
    match gain_problem(gain) {
        None => Ok(()),
        Some(reason) => Err(Error::InvalidConfig { field: "gain", reason }),
    }
}

/// Accept the center frequencies that the receiver can be tuned to.
pub fn validate_frequency(value: u64) -> (result: Result<()>)
    ensures
        result == checked_frequency(value),
{
    if value < RFONE_MIN_FREQ_HZ || value > RFONE_MAX_FREQ_HZ {
        return Err(
            Error::InvalidConfig {
                field: "frequency_hz",
                reason: "must be in 24_000_000..=1_800_000_000 Hz",
            },
        );
    }
    Ok(())
}

/// Accept the sample rates that a vendor request can carry.
pub fn validate_sample_rate(value: u32, sample_format: SampleFormat) -> (result: Result<()>)
    ensures
        result == checked_sample_rate(value, sample_format),
{
    if value < MIN_SAMPLE_RATE_HZ {
        return Err(
            Error::InvalidConfig {
                field: "sample_rate_hz",
                reason: "must be at least 10_000 Hz",
            },
        );
    }
    let max_hz: u32 = match sample_format {
        SampleFormat::RawAdc => MAX_RAW_SAMPLE_RATE_HZ,
        SampleFormat::F32Iq => MAX_F32_IQ_SAMPLE_RATE_HZ,
    };
    if value > max_hz {
        return Err(
            Error::InvalidConfig {
                field: "sample_rate_hz",
                reason: "must fit the HydraSDR vendor request parameter",
            },
        );
    }
    Ok(())
}

/// Accept the bandwidths that a vendor request can carry.
pub fn validate_bandwidth(bandwidth: Bandwidth) -> (result: Result<()>)
    ensures
        result == checked_bandwidth(bandwidth),
{
    match bandwidth {
        Bandwidth::ManualHz(value) if value < MIN_BANDWIDTH_HZ || value > MAX_BANDWIDTH_HZ => Err(
            Error::InvalidConfig {
                field: "bandwidth_hz",
                reason: "must fit the HydraSDR vendor request parameter",
            },
        ),
        _ => Ok(()),
    }
}

/// Accept component gains within the ranges of the board.
fn validate_stages(lna: Option<u8>, mixer: Option<u8>, vga: Option<u8>) -> (result: Result<()>)
    ensures
        result == match stage_problem(lna, mixer, vga) {
            None => Ok(()),
            Some(reason) => Err(Error::InvalidConfig { field: "gain", reason }),
        },
{
    match lna {
        Some(value) if value > RFONE_LNA_MAX_GAIN => {
            return Err(
                Error::InvalidConfig { field: "gain", reason: "manual LNA gain must be in 0..=14" },
            );
        },
        _ => {},
    }
    match mixer {
        Some(value) if value > RFONE_MIXER_MAX_GAIN => {
            return Err(
                Error::InvalidConfig {
                    field: "gain",
                    reason: "manual mixer gain must be in 0..=15",
                },
            );
        },
        _ => {},
    }
    match vga {
        Some(value) if value > RFONE_VGA_MAX_GAIN => Err(
            Error::InvalidConfig { field: "gain", reason: "manual VGA gain must be in 0..=15" },
        ),
        _ => Ok(()),
    }
}

/// Accept gain configurations within the ranges of the board.
pub fn validate_gain(gain: GainConfig) -> (result: Result<()>)
    ensures
        result == checked_gain(gain),
{
    match gain {
        GainConfig::Unchanged => Ok(()),
        GainConfig::Preset(GainPreset::Linearity(value) | GainPreset::Sensitivity(value)) => {
            if value > MAX_PRESET_GAIN {
                Err(
                    Error::InvalidConfig {
                        field: "gain",
                        reason: "RFOne preset gain must be in 0..=21",
                    },
                )
            } else {
                Ok(())
            }
        },
        GainConfig::Manual { lna, mixer, vga, .. } => validate_stages(lna, mixer, vga),
        GainConfig::Stages { lna, mixer, vga } => validate_stages(
            lna.manual(),
            mixer.manual(),
            Some(vga),
        ),
    }
}

/// Receiver settings of a configuration, whatever its sample mode.
#[derive(Clone, Copy, Debug, Eq, PartialEq, Structural)]
pub struct ConfigData {
    /// Center frequency in Hz.
    pub frequency_hz: u64,
    /// Sample rate in Hz.
    pub sample_rate_hz: u32,
    /// Analog bandwidth policy.
    pub bandwidth: Bandwidth,
    /// Sample format.
    pub sample_format: SampleFormat,
    /// Host-side decimation policy.
    pub decimation_mode: DecimationMode,
    /// RF port, if one is selected.
    pub rf_port: Option<RfPort>,
    /// Gain configuration.
    pub gain: GainConfig,
    /// Bias tee state, if one is selected.
    pub bias_tee: Option<bool>,
    /// Whether packed samples are requested.
    pub packing: bool,
}

/// Settings of the standard configuration of `format`.
pub open spec fn standard_config(format: SampleFormat) -> ConfigData {
    ConfigData {
        frequency_hz: 100_000_000,
        sample_rate_hz: 10_000_000,
        bandwidth: Bandwidth::Auto,
        sample_format: format,
        decimation_mode: DecimationMode::LowBandwidth,
        rf_port: Some(RfPort::Rx0),
        gain: standard_gain(),
        bias_tee: Some(false),
        packing: false,
    }
}

/// Gain in force after `applied` was applied on top of `current`.
pub open spec fn merged_gain(current: GainConfig, applied: GainConfig) -> GainConfig {
    match (current, applied) {
        (_, GainConfig::Unchanged) => current,
        (
            GainConfig::Manual {
                lna: current_lna,
                mixer: current_mixer,
                vga: current_vga,
                lna_agc: current_lna_agc,
                mixer_agc: current_mixer_agc,
            },
            GainConfig::Manual { lna, mixer, vga, lna_agc, mixer_agc },
        ) => GainConfig::Manual {
            lna: if lna is Some { lna } else { current_lna },
            mixer: if mixer is Some { mixer } else { current_mixer },
            vga: if vga is Some { vga } else { current_vga },
            lna_agc: if lna_agc is Some { lna_agc } else { current_lna_agc },
            mixer_agc: if mixer_agc is Some { mixer_agc } else { current_mixer_agc },
        },
        (_, _) => applied,
    }
}

impl ConfigData {
    /// Whether every setting is one that the board or the protocol allows.
    pub open spec fn valid(self) -> bool {
        &&& valid_frequency(self.frequency_hz)
        &&& valid_sample_rate(self.sample_rate_hz, self.sample_format)
        &&& valid_bandwidth(self.bandwidth)
        &&& valid_gain(self.gain)
    }

    /// Outcome of validating the settings: the first rule broken decides.
    pub open spec fn checked(self) -> Result<()> {
        if !valid_frequency(self.frequency_hz) {
            checked_frequency(self.frequency_hz)
        } else if !valid_sample_rate(self.sample_rate_hz, self.sample_format) {
            checked_sample_rate(self.sample_rate_hz, self.sample_format)
        } else if !valid_bandwidth(self.bandwidth) {
            checked_bandwidth(self.bandwidth)
        } else {
            checked_gain(self.gain)
        }
    }

    /// Settings in force after `applied` was applied on top of these.
    pub open spec fn merged(self, applied: ConfigData) -> ConfigData {
        ConfigData {
            frequency_hz: applied.frequency_hz,
            sample_rate_hz: applied.sample_rate_hz,
            bandwidth: applied.bandwidth,
            sample_format: applied.sample_format,
            decimation_mode: applied.decimation_mode,
            rf_port: if applied.rf_port is Some { applied.rf_port } else { self.rf_port },
            gain: merged_gain(self.gain, applied.gain),
            bias_tee: if applied.bias_tee is Some { applied.bias_tee } else { self.bias_tee },
            packing: applied.packing,
        }
    }

    /// Standard settings of `format`.
    pub fn standard(format: SampleFormat) -> (data: ConfigData)
        ensures
            data == standard_config(format),
    {
        ConfigData {
            frequency_hz: DEFAULT_FREQUENCY_HZ,
            sample_rate_hz: DEFAULT_SAMPLE_RATE_HZ,
            bandwidth: Bandwidth::Auto,
            sample_format: format,
            decimation_mode: DecimationMode::LowBandwidth,
            rf_port: Some(RfPort::Rx0),
            gain: GainConfig::default(),
            bias_tee: Some(false),
            packing: false,
        }
    }

    /// Check every setting against the board and the protocol.
    pub fn validate(&self) -> (result: Result<()>)
        ensures
            result == self.checked(),
            result is Ok <==> self.valid(),
    {
        match validate_frequency(self.frequency_hz) {
            Err(error) => return Err(error),
            Ok(()) => {},
        }
        match validate_sample_rate(self.sample_rate_hz, self.sample_format) {
            Err(error) => return Err(error),
            Ok(()) => {},
        }
        match validate_bandwidth(self.bandwidth) {
            Err(error) => return Err(error),
            Ok(()) => {},
        }
        validate_gain(self.gain)
    }

    /// Record an applied gain: unset parts of a manual gain keep their value.
    pub fn set_gain(&mut self, value: GainConfig)
        ensures
            *final(self) == (ConfigData { gain: merged_gain(old(self).gain, value), ..*old(self) }),
    {
        self.gain = match (self.gain, value) {
            (current, GainConfig::Unchanged) => current,
            (
                GainConfig::Manual {
                    lna: current_lna,
                    mixer: current_mixer,
                    vga: current_vga,
                    lna_agc: current_lna_agc,
                    mixer_agc: current_mixer_agc,
                },
                GainConfig::Manual { lna, mixer, vga, lna_agc, mixer_agc },
            ) => GainConfig::Manual {
                lna: if lna.is_some() { lna } else { current_lna },
                mixer: if mixer.is_some() { mixer } else { current_mixer },
                vga: if vga.is_some() { vga } else { current_vga },
                lna_agc: if lna_agc.is_some() { lna_agc } else { current_lna_agc },
                mixer_agc: if mixer_agc.is_some() { mixer_agc } else { current_mixer_agc },
            },
            (_, applied) => applied,
        };
    }

    /// Record applied settings: unset ones keep their value.
    pub fn apply(&mut self, applied: &ConfigData)
        ensures
            *final(self) == old(self).merged(*applied),
    {
        self.frequency_hz = applied.frequency_hz;
        self.sample_rate_hz = applied.sample_rate_hz;
        self.bandwidth = applied.bandwidth;
        self.sample_format = applied.sample_format;
        self.decimation_mode = applied.decimation_mode;
        if let Some(port) = applied.rf_port {
            self.rf_port = Some(port);
        }
        self.set_gain(applied.gain);
        if let Some(enabled) = applied.bias_tee {
            self.bias_tee = Some(enabled);
        }
        self.packing = applied.packing;
    }
}

/// Reusable high-level receiver configuration for sample mode `M`.
///
/// The generic mode defaults to [`F32Iq`]. Select [`RawAdc`] with
/// [`ConfigBuilder::raw_adc`].
///
/// The default is complete: it selects RX0, disables the bias tee and both
/// AGCs, and sets 35 dB total gain as LNA 14 dB, mixer 15 dB, and VGA 6 dB.
/// Callers can opt out of gain writes with [`GainConfig::Unchanged`] or
/// construct partial manual gain updates explicitly.
///
/// Building a config validates static RFOne and USB protocol constraints
/// without opening hardware. Every `Config` has passed this validation.
#[derive(Debug, Eq, PartialEq)]
pub struct Config<M: SampleMode = F32Iq> {
    data: ConfigData,
    mode: PhantomData<M>,
}

impl<M: SampleMode> Config<M> {
    /// Settings of this configuration.
    pub closed spec fn spec_data(self) -> ConfigData {
        self.data
    }

    #[verifier::type_invariant]
    spec fn well_formed(self) -> bool {
        self.data.valid() && self.data.sample_format == M::FORMAT
    }

    /// Settings of this configuration.
    pub fn data(&self) -> (data: ConfigData)
        ensures
            data == self.spec_data(),
            data.valid(),
            data.sample_format == M::FORMAT,
    {
        proof {
            use_type_invariant(self);
        }
        self.data
    }

    /// Tuned center frequency in Hz.
    pub fn frequency_hz(&self) -> (value: u64)
        ensures
            value == self.spec_data().frequency_hz,
            valid_frequency(value),
    {
        proof {
            use_type_invariant(self);
        }
        self.data.frequency_hz
    }

    /// Requested sample rate in Hz.
    ///
    /// For [`SampleFormat::RawAdc`] this is a real ADC rate; for
    /// [`SampleFormat::F32Iq`] it is the effective complex output rate after any
    /// host-side decimation.
    pub fn sample_rate_hz(&self) -> (value: u32)
        ensures
            value == self.spec_data().sample_rate_hz,
            valid_sample_rate(value, M::FORMAT),
    {
        proof {
            use_type_invariant(self);
        }
        self.data.sample_rate_hz
    }

    /// Analog bandwidth policy.
    pub fn bandwidth(&self) -> (value: Bandwidth)
        ensures
            value == self.spec_data().bandwidth,
            valid_bandwidth(value),
    {
        proof {
            use_type_invariant(self);
        }
        self.data.bandwidth
    }

    /// Runtime view of the compile-time sample mode `M`.
    pub fn sample_format(&self) -> (value: SampleFormat)
        ensures
            value == M::FORMAT,
            value == self.spec_data().sample_format,
    {
        proof {
            use_type_invariant(self);
        }
        M::FORMAT
    }

    /// Configured RF port, if explicitly selected.
    pub fn rf_port(&self) -> (value: Option<RfPort>)
        ensures
            value == self.spec_data().rf_port,
    {
        self.data.rf_port
    }

    /// Configured gain plan.
    pub fn gain(&self) -> (value: GainConfig)
        ensures
            value == self.spec_data().gain,
            valid_gain(value),
    {
        proof {
            use_type_invariant(self);
        }
        self.data.gain
    }

    /// Configured bias tee state, if explicitly selected.
    pub fn bias_tee(&self) -> (value: Option<bool>)
        ensures
            value == self.spec_data().bias_tee,
    {
        self.data.bias_tee
    }

    /// Record a frequency that was applied on its own.
    pub fn set_frequency_hz_internal(&mut self, value: u64)
        requires
            valid_frequency(value),
        ensures
            final(self).spec_data() == (ConfigData {
                frequency_hz: value,
                ..old(self).spec_data()
            }),
    {
        proof {
            use_type_invariant(&*self);
        }
        self.data = ConfigData { frequency_hz: value, ..self.data };
    }

    /// Record a sample rate that was applied on its own.
    pub fn set_sample_rate_hz_internal(&mut self, value: u32)
        requires
            valid_sample_rate(value, M::FORMAT),
        ensures
            final(self).spec_data() == (ConfigData {
                sample_rate_hz: value,
                ..old(self).spec_data()
            }),
    {
        proof {
            use_type_invariant(&*self);
        }
        self.data = ConfigData { sample_rate_hz: value, ..self.data };
    }

    /// Record an RF port that was selected on its own.
    pub fn set_rf_port_internal(&mut self, value: RfPort)
        ensures
            final(self).spec_data() == (ConfigData {
                rf_port: Some(value),
                ..old(self).spec_data()
            }),
    {
        proof {
            use_type_invariant(&*self);
        }
        self.data = ConfigData { rf_port: Some(value), ..self.data };
    }

    /// Record a gain that was applied on its own.
    pub fn set_gain_internal(&mut self, value: GainConfig)
        requires
            valid_gain(value),
        ensures
            final(self).spec_data() == (ConfigData {
                gain: merged_gain(old(self).spec_data().gain, value),
                ..old(self).spec_data()
            }),
    {
        proof {
            use_type_invariant(&*self);
            law_merged_gain_is_valid(self.data.gain, value);
        }
        let mut data: ConfigData = self.data;
        data.set_gain(value);
        self.data = data;
    }

    /// Record an applied configuration: unset parts keep their value.
    pub fn apply_internal(&mut self, applied: &Self)
        ensures
            final(self).spec_data() == old(self).spec_data().merged(applied.spec_data()),
    {
        proof {
            use_type_invariant(&*self);
            use_type_invariant(applied);
            law_merged_gain_is_valid(self.data.gain, applied.data.gain);
        }
        let mut data: ConfigData = self.data;
        data.apply(&applied.data);
        self.data = data;
    }
}

impl<M: SampleMode> Clone for Config<M> {
    fn clone(&self) -> (copy: Self)
        ensures
            copy == *self,
    {
        proof {
            use_type_invariant(self);
        }
        Config { data: self.data, mode: PhantomData }
    }
}

impl Default for Config<F32Iq> {
    fn default() -> (config: Self)
        ensures
            config.spec_data() == standard_config(SampleFormat::F32Iq),
    {
        Config { data: ConfigData::standard(SampleFormat::F32Iq), mode: PhantomData }
    }
}

impl Config<F32Iq> {
    /// Start building a high-level receiver configuration.
    pub fn builder() -> (builder: ConfigBuilder<F32Iq>)
        ensures
            builder.spec_data() == standard_config(SampleFormat::F32Iq),
    {
        ConfigBuilder::default()
    }

    /// Virtual IQ-rate hardware/host decimation policy.
    pub fn decimation_mode(&self) -> (value: DecimationMode)
        ensures
            value == self.spec_data().decimation_mode,
    {
        self.data.decimation_mode
    }
}

impl Config<RawAdc> {
    /// Whether packed samples should be requested.
    pub fn packing(&self) -> (value: bool)
        ensures
            value == self.spec_data().packing,
    {
        self.data.packing
    }
}

/// Builder for [`Config`], defaulting to the [`F32Iq`] sample mode.
#[derive(Debug)]
pub struct ConfigBuilder<M: SampleMode = F32Iq> {
    data: ConfigData,
    mode: PhantomData<M>,
}

impl Default for ConfigBuilder<F32Iq> {
    fn default() -> (builder: Self)
        ensures
            builder.spec_data() == standard_config(SampleFormat::F32Iq),
    {
        ConfigBuilder { data: ConfigData::standard(SampleFormat::F32Iq), mode: PhantomData }
    }
}

impl<M: SampleMode> Clone for ConfigBuilder<M> {
    fn clone(&self) -> (copy: Self)
        ensures
            copy == *self,
    {
        proof {
            use_type_invariant(self);
        }
        ConfigBuilder { data: self.data, mode: PhantomData }
    }
}

impl<M: SampleMode> ConfigBuilder<M> {
    /// Settings collected so far.
    pub closed spec fn spec_data(self) -> ConfigData {
        self.data
    }

    #[verifier::type_invariant]
    spec fn well_formed(self) -> bool {
        self.data.sample_format == M::FORMAT
    }

    /// Set the tuned center frequency in Hz.
    ///
    /// RFOne accepts center frequencies in the inclusive range
    /// `24_000_000..=1_800_000_000` Hz.
    pub fn frequency_hz(self, value: u64) -> (builder: Self)
        ensures
            builder.spec_data() == (ConfigData { frequency_hz: value, ..self.spec_data() }),
    {
        proof {
            use_type_invariant(&self);
        }
        ConfigBuilder { data: ConfigData { frequency_hz: value, ..self.data }, mode: PhantomData }
    }

    /// Set the requested sample rate in Hz.
    ///
    /// For [`SampleFormat::RawAdc`] this is a real ADC rate; for
    /// [`SampleFormat::F32Iq`] it is the effective complex output rate after any
    /// host-side decimation. The builder accepts what the USB protocol can
    /// carry: `10_000..=65_535_999` Hz for raw ADC and `10_000..=32_767_999` Hz
    /// for F32 IQ.
    pub fn sample_rate_hz(self, value: u32) -> (builder: Self)
        ensures
            builder.spec_data() == (ConfigData { sample_rate_hz: value, ..self.spec_data() }),
    {
        proof {
            use_type_invariant(&self);
        }
        ConfigBuilder { data: ConfigData { sample_rate_hz: value, ..self.data }, mode: PhantomData }
    }

    /// Set the analog bandwidth policy.
    pub fn bandwidth(self, value: Bandwidth) -> (builder: Self)
        ensures
            builder.spec_data() == (ConfigData { bandwidth: value, ..self.spec_data() }),
    {
        proof {
            use_type_invariant(&self);
        }
        ConfigBuilder { data: ConfigData { bandwidth: value, ..self.data }, mode: PhantomData }
    }

    /// Set an explicit analog bandwidth in Hz.
    pub fn bandwidth_hz(self, value: u32) -> (builder: Self)
        ensures
            builder.spec_data() == (ConfigData {
                bandwidth: Bandwidth::ManualHz(value),
                ..self.spec_data()
            }),
    {
        self.bandwidth(Bandwidth::ManualHz(value))
    }

    /// Select the RF input port.
    pub fn rf_port(self, value: RfPort) -> (builder: Self)
        ensures
            builder.spec_data() == (ConfigData { rf_port: Some(value), ..self.spec_data() }),
    {
        proof {
            use_type_invariant(&self);
        }
        ConfigBuilder { data: ConfigData { rf_port: Some(value), ..self.data }, mode: PhantomData }
    }

    /// Set the gain configuration.
    ///
    /// Preset gain indexes must be in the inclusive range `0..=21`.
    /// Manual component gains use the ranges documented on [`GainConfig::Manual`].
    pub fn gain<G: IntoGain>(self, value: G) -> (builder: Self)
        ensures
            builder.spec_data() == (ConfigData { gain: value.spec_gain(), ..self.spec_data() }),
    {
        proof {
            use_type_invariant(&self);
        }
        ConfigBuilder {
            data: ConfigData { gain: value.into_gain(), ..self.data },
            mode: PhantomData,
        }
    }

    /// Enable or disable the RF port bias tee.
    pub fn bias_tee(self, enabled: bool) -> (builder: Self)
        ensures
            builder.spec_data() == (ConfigData { bias_tee: Some(enabled), ..self.spec_data() }),
    {
        proof {
            use_type_invariant(&self);
        }
        ConfigBuilder {
            data: ConfigData { bias_tee: Some(enabled), ..self.data },
            mode: PhantomData,
        }
    }

    /// Validate and build a reusable configuration.
    ///
    /// A successfully built [`Config`] remains valid for its lifetime.
    pub fn build(self) -> (result: Result<Config<M>>)
        ensures
            result is Ok <==> self.spec_data().valid(),
            result matches Ok(config) ==> config.spec_data() == self.spec_data(),
            result matches Err(error) ==> self.spec_data().checked() == Err::<(), Error>(error),
    {
        proof {
            use_type_invariant(&self);
        }
        match self.data.validate() {
            Err(error) => Err(error),
            Ok(()) => Ok(Config { data: self.data, mode: PhantomData }),
        }
    }
}

impl ConfigBuilder<RawAdc> {
    /// Enable or disable packed raw-sample transfers.
    pub fn packing(self, enabled: bool) -> (builder: Self)
        ensures
            builder.spec_data() == (ConfigData { packing: enabled, ..self.spec_data() }),
    {
        proof {
            use_type_invariant(&self);
        }
        ConfigBuilder { data: ConfigData { packing: enabled, ..self.data }, mode: PhantomData }
    }
}

impl ConfigBuilder<F32Iq> {
    /// Select raw ADC samples instead of the default converted IQ mode.
    pub fn raw_adc(self) -> (builder: ConfigBuilder<RawAdc>)
        ensures
            builder.spec_data() == (ConfigData {
                sample_format: SampleFormat::RawAdc,
                decimation_mode: DecimationMode::LowBandwidth,
                ..self.spec_data()
            }),
    {
        ConfigBuilder {
            data: ConfigData {
                sample_format: SampleFormat::RawAdc,
                decimation_mode: DecimationMode::LowBandwidth,
                ..self.data
            },
            mode: PhantomData,
        }
    }

    /// Set the firmware/host decimation policy for float IQ samples.
    pub fn decimation_mode(self, value: DecimationMode) -> (builder: Self)
        ensures
            builder.spec_data() == (ConfigData { decimation_mode: value, ..self.spec_data() }),
    {
        proof {
            use_type_invariant(&self);
        }
        ConfigBuilder {
            data: ConfigData { decimation_mode: value, ..self.data },
            mode: PhantomData,
        }
    }
}

/// Law: a valid gain applied on top of a valid gain leaves a valid gain.
pub proof fn law_merged_gain_is_valid(current: GainConfig, applied: GainConfig)
    requires
        valid_gain(current),
        valid_gain(applied),
    ensures
        valid_gain(merged_gain(current, applied)),
{
}

/// Law: valid settings applied on top of valid settings leave valid settings.
pub proof fn law_merged_config_is_valid(active: ConfigData, applied: ConfigData)
    requires
        active.valid(),
        applied.valid(),
    ensures
        active.merged(applied).valid(),
{
}

/// Law: an unchanged gain keeps the active gain, and applying the same gain
/// twice is the same as applying it once.
pub proof fn law_merging_gain_is_idempotent(current: GainConfig, applied: GainConfig)
    ensures
        merged_gain(current, GainConfig::Unchanged) == current,
        merged_gain(merged_gain(current, applied), applied) == merged_gain(current, applied),
{
}

/// Law: the standard configuration is valid in both formats.
pub proof fn law_standard_config_is_valid(format: SampleFormat)
    ensures
        standard_config(format).valid(),
{
}

/// Law: a frequency is valid exactly where the board can be tuned to it.
pub proof fn law_valid_frequencies_are_tunable(value: u64)
    ensures
        checked_frequency(value) is Ok <==> 24_000_000 <= value <= 1_800_000_000,
        checked_frequency(value) matches Err(error) ==> error matches Error::InvalidConfig {
            field,
            reason,
        } && field == "frequency_hz" && reason == "must be in 24_000_000..=1_800_000_000 Hz",
        valid_frequency(value) <==> checked_frequency(value) is Ok,
{
}

/// Law: a sample rate is valid exactly where it is at least 10 kHz and its whole
/// kHz, which for converted samples are twice as many, fit 16 bits.
pub proof fn law_valid_rates_fit_a_request(value: u32, format: SampleFormat)
    ensures
        checked_sample_rate(value, format) is Ok <==> value >= 10_000 && match format {
            SampleFormat::RawAdc => value as int / 1_000 <= 65_535,
            SampleFormat::F32Iq => 2 * value as int / 1_000 <= 65_535,
        },
        valid_sample_rate(value, format) <==> checked_sample_rate(value, format) is Ok,
        checked_sample_rate(value, format) matches Err(error) ==> error matches Error::InvalidConfig {
            field,
            reason,
        } && field == "sample_rate_hz" && reason == if value < 10_000 {
            "must be at least 10_000 Hz"
        } else {
            "must fit the HydraSDR vendor request parameter"
        },
{
}

/// Law: a bandwidth is valid where the board chooses it, and where its whole kHz
/// are at least one and fit 16 bits.
pub proof fn law_valid_bandwidths_fit_a_request(value: u32)
    ensures
        checked_bandwidth(Bandwidth::Auto) is Ok,
        checked_bandwidth(Bandwidth::ManualHz(value)) is Ok <==> 1 <= value as int / 1_000 <= 65_535,
        valid_bandwidth(Bandwidth::Auto),
        valid_bandwidth(Bandwidth::ManualHz(value)) <==> checked_bandwidth(
            Bandwidth::ManualHz(value),
        ) is Ok,
        checked_bandwidth(Bandwidth::ManualHz(value)) matches Err(error)
            ==> error matches Error::InvalidConfig { field, .. } && field == "bandwidth_hz",
{
}

/// Law: a gain is valid exactly where each part that it sets by hand is within the
/// range of its stage, and a preset is one of the 22.
pub proof fn law_valid_gains_are_in_range(
    preset: u8,
    lna: Option<u8>,
    mixer: Option<u8>,
    vga: Option<u8>,
    lna_agc: Option<bool>,
    mixer_agc: Option<bool>,
)
    ensures
        valid_gain(GainConfig::Unchanged),
        valid_gain(GainConfig::Preset(GainPreset::Linearity(preset))) <==> preset <= 21,
        valid_gain(GainConfig::Preset(GainPreset::Sensitivity(preset))) <==> preset <= 21,
        valid_gain(GainConfig::Manual { lna, mixer, vga, lna_agc, mixer_agc }) <==> {
            &&& lna matches Some(value) ==> value <= 14
            &&& mixer matches Some(value) ==> value <= 15
            &&& vga matches Some(value) ==> value <= 15
        },
{
}

/// Law: a gain that is set stage by stage is valid exactly where every gain that
/// it sets by hand is within the range of its stage.
pub proof fn law_valid_staged_gains_are_in_range(lna: StageGain, mixer: StageGain, vga: u8)
    ensures
        valid_gain(GainConfig::Stages { lna, mixer, vga }) <==> {
            &&& lna matches StageGain::Manual(value) ==> value <= 14
            &&& mixer matches StageGain::Manual(value) ==> value <= 15
            &&& vga <= 15
        },
        lna.spec_manual() == match lna {
            StageGain::Manual(value) => Some(value),
            StageGain::Agc => None,
        },
{
}

/// Law: a gain is refused exactly where it is not valid, under its field.
pub proof fn law_invalid_gains_are_refused(gain: GainConfig)
    ensures
        checked_gain(gain) is Ok <==> valid_gain(gain),
        checked_gain(gain) matches Err(error) ==> error matches Error::InvalidConfig { field, .. }
            && field == "gain",
{
}

/// Law: settings are valid exactly where each of them is, and the first one that
/// is not decides the error: frequency, sample rate, bandwidth, gain.
pub proof fn law_settings_are_valid_one_by_one(config: ConfigData)
    ensures
        config.valid() <==> config.checked() is Ok,
        config.checked() is Ok <==> {
            &&& checked_frequency(config.frequency_hz) is Ok
            &&& checked_sample_rate(config.sample_rate_hz, config.sample_format) is Ok
            &&& checked_bandwidth(config.bandwidth) is Ok
            &&& checked_gain(config.gain) is Ok
        },
        checked_frequency(config.frequency_hz) is Err ==> config.checked() == checked_frequency(
            config.frequency_hz,
        ),
        checked_frequency(config.frequency_hz) is Ok && checked_sample_rate(
            config.sample_rate_hz,
            config.sample_format,
        ) is Err ==> config.checked() == checked_sample_rate(
            config.sample_rate_hz,
            config.sample_format,
        ),
        checked_frequency(config.frequency_hz) is Ok && checked_sample_rate(
            config.sample_rate_hz,
            config.sample_format,
        ) is Ok && checked_bandwidth(config.bandwidth) is Err ==> config.checked()
            == checked_bandwidth(config.bandwidth),
        checked_frequency(config.frequency_hz) is Ok && checked_sample_rate(
            config.sample_rate_hz,
            config.sample_format,
        ) is Ok && checked_bandwidth(config.bandwidth) is Ok ==> config.checked() == checked_gain(
            config.gain,
        ),
{
}

/// Law: the standard configuration is complete: 100 MHz at 10 MHz, RX0, bias power
/// and both automatic controls off, and 35 dB of gain in all.
pub proof fn law_the_standard_configuration_is_complete(format: SampleFormat)
    ensures
        ({
            let config = standard_config(format);
            &&& config.sample_format == format
            &&& config.frequency_hz == 100_000_000
            &&& config.sample_rate_hz == 10_000_000
            &&& config.bandwidth == Bandwidth::Auto
            &&& config.decimation_mode == DecimationMode::LowBandwidth
            &&& config.rf_port == Some(RfPort::Rx0)
            &&& config.bias_tee == Some(false)
            &&& !config.packing
            &&& config.gain == standard_gain()
            &&& config.gain matches GainConfig::Manual {
                lna: Some(lna),
                mixer: Some(mixer),
                vga: Some(vga),
                lna_agc,
                mixer_agc,
            } && lna + mixer + vga == 35 && lna == 14 && mixer == 15 && lna_agc == Some(false)
                && mixer_agc == Some(false)
        }),
{
}

/// Law: settings that a configuration names replace the active ones, and those that
/// it leaves open stay; a part of a manual gain is left open on top of another
/// manual gain only.
pub proof fn law_merging_replaces_what_is_named(active: ConfigData, applied: ConfigData)
    ensures
        ({
            let merged = active.merged(applied);
            &&& merged.frequency_hz == applied.frequency_hz
            &&& merged.sample_rate_hz == applied.sample_rate_hz
            &&& merged.bandwidth == applied.bandwidth
            &&& merged.sample_format == applied.sample_format
            &&& merged.decimation_mode == applied.decimation_mode
            &&& merged.packing == applied.packing
            &&& merged.rf_port == match applied.rf_port {
                Some(port) => Some(port),
                None => active.rf_port,
            }
            &&& merged.bias_tee == match applied.bias_tee {
                Some(enabled) => Some(enabled),
                None => active.bias_tee,
            }
            &&& merged.gain == merged_gain(active.gain, applied.gain)
        }),
        applied.gain == GainConfig::Unchanged ==> active.merged(applied).gain == active.gain,
        !(applied.gain is Unchanged) && !(active.gain is Manual && applied.gain is Manual)
            ==> active.merged(applied).gain == applied.gain,
{
}

/// What is named, or else what is in force.
pub open spec fn named_or<T>(named: Option<T>, current: Option<T>) -> Option<T> {
    match named {
        Some(value) => Some(value),
        None => current,
    }
}

/// Law: on top of a manual gain, a manual gain replaces each part that it names and
/// keeps each other.
pub proof fn law_a_manual_gain_merges_part_by_part(
    current: (Option<u8>, Option<u8>, Option<u8>, Option<bool>, Option<bool>),
    applied: (Option<u8>, Option<u8>, Option<u8>, Option<bool>, Option<bool>),
)
    ensures
        merged_gain(
            GainConfig::Manual {
                lna: current.0,
                mixer: current.1,
                vga: current.2,
                lna_agc: current.3,
                mixer_agc: current.4,
            },
            GainConfig::Manual {
                lna: applied.0,
                mixer: applied.1,
                vga: applied.2,
                lna_agc: applied.3,
                mixer_agc: applied.4,
            },
        ) == (GainConfig::Manual {
            lna: named_or(applied.0, current.0),
            mixer: named_or(applied.1, current.1),
            vga: named_or(applied.2, current.2),
            lna_agc: named_or(applied.3, current.3),
            mixer_agc: named_or(applied.4, current.4),
        }),
{
}

/// Law: each format is delivered by its own sample type, each port has its own
/// number, and only a selected serial number is asked for.
pub proof fn law_formats_ports_and_selectors(serial: u64)
    ensures
        SampleFormat::RawAdc.spec_sample_type() == SampleType::Raw,
        SampleFormat::F32Iq.spec_sample_type() == SampleType::Float32Iq,
        RfPort::Rx0.spec_code() == 0,
        RfPort::Rx1.spec_code() == 1,
        RfPort::Rx2.spec_code() == 2,
        DeviceSelector::First.spec_serial() is None,
        DeviceSelector::Serial(serial).spec_serial() == Some(serial),
{
}

} // verus!
