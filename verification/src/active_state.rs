//! Authoritative active receiver state.

use crate::config::{
    Bandwidth, ConfigData, GainConfig, GainPreset, RfPort, SampleFormat, StageGain,
};
use crate::errors::{Error, Result};
use crate::types::DecimationMode;
use std::sync::Arc;
use vstd::prelude::*;
use vstd::rwlock::{RwLock, RwLockPredicate};

verus! {

/// Physical RFOne gain stage.
#[derive(Clone, Copy, Debug, Eq, PartialEq, Structural)]
pub enum GainStage {
    /// Low-noise amplifier gain.
    Lna,
    /// Mixer gain.
    Mixer,
    /// Variable-gain amplifier gain.
    Vga,
}

/// Why no value of a setting can be reported.
#[derive(Clone, Copy, Debug, Eq, PartialEq, Structural)]
pub enum UnavailableReason {
    /// Nothing was applied yet.
    NeverApplied,
    /// An update has begun and not ended.
    UpdateIncomplete,
    /// The last update failed.
    LastUpdateFailed,
    /// A gain preset was applied, whose physical values are not reported.
    PresetNotReported,
}

impl UnavailableReason {
    /// Text of this reason.
    pub open spec fn spec_message(self) -> &'static str {
        match self {
            UnavailableReason::NeverApplied => "no value has been successfully applied",
            UnavailableReason::UpdateIncomplete => "an update is in progress or did not complete",
            UnavailableReason::LastUpdateFailed => "the last update failed",
            UnavailableReason::PresetNotReported => "physical values are not reported after applying a gain preset",
        }
    }

    /// Text of this reason.
    pub fn message(self) -> (message: &'static str)
        ensures
            message == self.spec_message(),
    {
        match self {
            UnavailableReason::NeverApplied => "no value has been successfully applied",
            UnavailableReason::UpdateIncomplete => "an update is in progress or did not complete",
            UnavailableReason::LastUpdateFailed => "the last update failed",
            UnavailableReason::PresetNotReported => "physical values are not reported after applying a gain preset",
        }
    }
}

/// What is known of one setting.
#[derive(Clone, Copy, Debug, Eq, PartialEq, Structural)]
pub enum ActiveValue<T> {
    /// No value can be reported.
    Unknown(UnavailableReason),
    /// Value applied last.
    Known(T),
}

impl<T: Copy> ActiveValue<T> {
    /// Report of the setting called `field`.
    pub open spec fn spec_get(self, field: &'static str) -> Result<T> {
        match self {
            ActiveValue::Known(value) => Ok(value),
            ActiveValue::Unknown(reason) => Err(
                Error::StateUnavailable { field, reason: reason.spec_message() },
            ),
        }
    }

    /// Report of the setting called `field`, which need not have been applied.
    pub open spec fn spec_get_optional(self, field: &'static str) -> Result<Option<T>> {
        match self {
            ActiveValue::Known(value) => Ok(Some(value)),
            ActiveValue::Unknown(UnavailableReason::NeverApplied) => Ok(None),
            ActiveValue::Unknown(reason) => Err(
                Error::StateUnavailable { field, reason: reason.spec_message() },
            ),
        }
    }

    /// Report the setting called `field`.
    pub fn get(self, field: &'static str) -> (result: Result<T>)
        ensures
            result == self.spec_get(field),
    {
        match self {
            ActiveValue::Known(value) => Ok(value),
            ActiveValue::Unknown(reason) => Err(
                Error::StateUnavailable { field, reason: reason.message() },
            ),
        }
    }

    /// Report the setting called `field`, which need not have been applied.
    pub fn get_optional(self, field: &'static str) -> (result: Result<Option<T>>)
        ensures
            result == self.spec_get_optional(field),
    {
        match self {
            ActiveValue::Known(value) => Ok(Some(value)),
            ActiveValue::Unknown(UnavailableReason::NeverApplied) => Ok(None),
            ActiveValue::Unknown(reason) => Err(
                Error::StateUnavailable { field, reason: reason.message() },
            ),
        }
    }
}

/// What is known of a setting after an update to `value`.
pub open spec fn updated<T>(value: T, succeeded: bool) -> ActiveValue<T> {
    if succeeded {
        ActiveValue::Known(value)
    } else {
        ActiveValue::Unknown(UnavailableReason::LastUpdateFailed)
    }
}

/// What is known of a setting after an update to `value`.
pub fn update_result<T>(value: T, succeeded: bool) -> (result: ActiveValue<T>)
    ensures
        result == updated(value, succeeded),
{
    if succeeded {
        ActiveValue::Known(value)
    } else {
        ActiveValue::Unknown(UnavailableReason::LastUpdateFailed)
    }
}

/// What is known of every receiver setting.
#[derive(Clone, Copy, Debug, Eq, PartialEq, Structural)]
pub struct ActiveStateInner {
    /// Center frequency in Hz.
    pub frequency_hz: ActiveValue<u64>,
    /// Effective sample rate in Hz.
    pub sample_rate_hz: ActiveValue<u32>,
    /// Analog bandwidth policy.
    pub bandwidth: ActiveValue<Bandwidth>,
    /// Sample format.
    pub sample_format: ActiveValue<SampleFormat>,
    /// Host-side decimation policy.
    pub decimation_mode: ActiveValue<DecimationMode>,
    /// RF input port.
    pub rf_port: ActiveValue<RfPort>,
    /// LNA gain.
    pub lna_gain: ActiveValue<u8>,
    /// Mixer gain.
    pub mixer_gain: ActiveValue<u8>,
    /// VGA gain.
    pub vga_gain: ActiveValue<u8>,
    /// LNA AGC state.
    pub lna_agc: ActiveValue<bool>,
    /// Mixer AGC state.
    pub mixer_agc: ActiveValue<bool>,
    /// Bias tee state.
    pub bias_tee: ActiveValue<bool>,
    /// Packed-transfer state.
    pub packing: ActiveValue<bool>,
}

/// State of a receiver to which nothing was applied yet.
pub open spec fn nothing_applied() -> ActiveStateInner {
    let never = UnavailableReason::NeverApplied;
    ActiveStateInner {
        frequency_hz: ActiveValue::Unknown(never),
        sample_rate_hz: ActiveValue::Unknown(never),
        bandwidth: ActiveValue::Unknown(never),
        sample_format: ActiveValue::Unknown(never),
        decimation_mode: ActiveValue::Unknown(never),
        rf_port: ActiveValue::Unknown(never),
        lna_gain: ActiveValue::Unknown(never),
        mixer_gain: ActiveValue::Unknown(never),
        vga_gain: ActiveValue::Unknown(never),
        lna_agc: ActiveValue::Unknown(never),
        mixer_agc: ActiveValue::Unknown(never),
        bias_tee: ActiveValue::Unknown(never),
        packing: ActiveValue::Unknown(never),
    }
}

impl Default for ActiveStateInner {
    fn default() -> (state: Self)
        ensures
            state == nothing_applied(),
    {
        let never: UnavailableReason = UnavailableReason::NeverApplied;
        ActiveStateInner {
            frequency_hz: ActiveValue::Unknown(never),
            sample_rate_hz: ActiveValue::Unknown(never),
            bandwidth: ActiveValue::Unknown(never),
            sample_format: ActiveValue::Unknown(never),
            decimation_mode: ActiveValue::Unknown(never),
            rf_port: ActiveValue::Unknown(never),
            lna_gain: ActiveValue::Unknown(never),
            mixer_gain: ActiveValue::Unknown(never),
            vga_gain: ActiveValue::Unknown(never),
            lna_agc: ActiveValue::Unknown(never),
            mixer_agc: ActiveValue::Unknown(never),
            bias_tee: ActiveValue::Unknown(never),
            packing: ActiveValue::Unknown(never),
        }
    }
}

/// Parts of the gain state that a gain configuration writes.
pub struct GainWrites {
    /// LNA gain.
    pub lna: Option<u8>,
    /// Mixer gain.
    pub mixer: Option<u8>,
    /// VGA gain.
    pub vga: Option<u8>,
    /// LNA AGC state.
    pub lna_agc: Option<bool>,
    /// Mixer AGC state.
    pub mixer_agc: Option<bool>,
}

/// Parts that a stage-by-stage gain writes: every AGC, the VGA, and the gain of
/// each stage that is set by hand.
pub open spec fn stage_writes(lna: StageGain, mixer: StageGain, vga: u8) -> GainWrites {
    GainWrites {
        lna: lna.spec_manual(),
        mixer: mixer.spec_manual(),
        vga: Some(vga),
        lna_agc: Some(lna == StageGain::Agc),
        mixer_agc: Some(mixer == StageGain::Agc),
    }
}

/// `value` where something is written, `kept` otherwise.
pub open spec fn written<T, W>(write: Option<W>, value: T, kept: T) -> T {
    if write is Some {
        value
    } else {
        kept
    }
}

/// What is known of a part after `write` was applied to it.
pub open spec fn applied_part<T>(write: Option<T>, kept: ActiveValue<T>) -> ActiveValue<T> {
    match write {
        Some(value) => ActiveValue::Known(value),
        None => kept,
    }
}

/// Whether a setting was never written.
pub open spec fn never_written<T>(value: ActiveValue<T>) -> bool {
    value == ActiveValue::<T>::Unknown(UnavailableReason::NeverApplied)
}

/// Whether a setting is unavailable because of a gain preset.
pub open spec fn blames_a_preset<T>(value: ActiveValue<T>) -> bool {
    value == ActiveValue::<T>::Unknown(UnavailableReason::PresetNotReported)
}

/// Whether two settings are both known, or both unknown for the same reason.
pub open spec fn known_alike<T, U>(one: ActiveValue<T>, other: ActiveValue<U>) -> bool {
    match (one, other) {
        (ActiveValue::Known(_), ActiveValue::Known(_)) => true,
        (ActiveValue::Unknown(reason), ActiveValue::Unknown(why)) => reason == why,
        (_, _) => false,
    }
}

impl ActiveStateInner {
    /// What every update keeps.
    ///
    /// Only a configuration writes the sample format, the decimation policy and
    /// the packing, and it writes all three: they are known together. It writes
    /// the frequency, the sample rate and the bandwidth too, so that these were
    /// written wherever the sample format was. Only gains are unavailable because
    /// of a gain preset.
    pub open spec fn coherent(self) -> bool {
        &&& known_alike(self.sample_format, self.decimation_mode)
        &&& known_alike(self.sample_format, self.packing)
        &&& !never_written(self.sample_format) ==> {
            &&& !never_written(self.frequency_hz)
            &&& !never_written(self.sample_rate_hz)
            &&& !never_written(self.bandwidth)
        }
        &&& !blames_a_preset(self.frequency_hz)
        &&& !blames_a_preset(self.sample_rate_hz)
        &&& !blames_a_preset(self.bandwidth)
        &&& !blames_a_preset(self.sample_format)
        &&& !blames_a_preset(self.rf_port)
        &&& !blames_a_preset(self.bias_tee)
    }

    /// This state with nothing known of the whole gain.
    pub open spec fn gain_unknown(self, reason: UnavailableReason) -> ActiveStateInner {
        ActiveStateInner {
            lna_gain: ActiveValue::Unknown(reason),
            mixer_gain: ActiveValue::Unknown(reason),
            vga_gain: ActiveValue::Unknown(reason),
            lna_agc: ActiveValue::Unknown(reason),
            mixer_agc: ActiveValue::Unknown(reason),
            ..self
        }
    }

    /// This state with the parts in `writes` unknown.
    pub open spec fn writes_unknown(self, writes: GainWrites, reason: UnavailableReason) -> Self {
        ActiveStateInner {
            lna_gain: written(writes.lna, ActiveValue::Unknown(reason), self.lna_gain),
            mixer_gain: written(writes.mixer, ActiveValue::Unknown(reason), self.mixer_gain),
            vga_gain: written(writes.vga, ActiveValue::Unknown(reason), self.vga_gain),
            lna_agc: written(writes.lna_agc, ActiveValue::Unknown(reason), self.lna_agc),
            mixer_agc: written(writes.mixer_agc, ActiveValue::Unknown(reason), self.mixer_agc),
            ..self
        }
    }

    /// This state with the parts in `writes` applied.
    pub open spec fn writes_applied(self, writes: GainWrites) -> Self {
        ActiveStateInner {
            lna_gain: applied_part(writes.lna, self.lna_gain),
            mixer_gain: applied_part(writes.mixer, self.mixer_gain),
            vga_gain: applied_part(writes.vga, self.vga_gain),
            lna_agc: applied_part(writes.lna_agc, self.lna_agc),
            mixer_agc: applied_part(writes.mixer_agc, self.mixer_agc),
            ..self
        }
    }

    /// This state after `gain` was applied.
    pub open spec fn gain_applied(self, gain: GainConfig) -> ActiveStateInner {
        match gain {
            GainConfig::Unchanged => self,
            GainConfig::Preset(_) => self.gain_unknown(UnavailableReason::PresetNotReported),
            GainConfig::Manual { lna, mixer, vga, lna_agc, mixer_agc } => self.writes_applied(
                GainWrites { lna, mixer, vga, lna_agc, mixer_agc },
            ),
            GainConfig::Stages { lna, mixer, vga } => self.writes_applied(
                stage_writes(lna, mixer, vga),
            ),
        }
    }

    /// This state with everything that `gain` writes unknown.
    pub open spec fn gain_invalidated(
        self,
        gain: GainConfig,
        reason: UnavailableReason,
    ) -> ActiveStateInner {
        match gain {
            GainConfig::Unchanged => self,
            GainConfig::Preset(_) => self.gain_unknown(reason),
            GainConfig::Manual { lna, mixer, vga, lna_agc, mixer_agc } => self.writes_unknown(
                GainWrites { lna, mixer, vga, lna_agc, mixer_agc },
                reason,
            ),
            GainConfig::Stages { lna, mixer, vga } => self.writes_unknown(
                stage_writes(lna, mixer, vga),
                reason,
            ),
        }
    }

    /// This state after the update to `gain`.
    pub open spec fn gain_updated(self, gain: GainConfig, succeeded: bool) -> ActiveStateInner {
        if succeeded {
            self.gain_applied(gain)
        } else {
            self.gain_invalidated(gain, UnavailableReason::LastUpdateFailed)
        }
    }

    /// This state after `config` was applied.
    pub open spec fn config_applied(self, config: ConfigData) -> ActiveStateInner {
        let gained = self.gain_applied(config.gain);
        ActiveStateInner {
            frequency_hz: ActiveValue::Known(config.frequency_hz),
            sample_rate_hz: ActiveValue::Known(config.sample_rate_hz),
            bandwidth: ActiveValue::Known(config.bandwidth),
            sample_format: ActiveValue::Known(config.sample_format),
            decimation_mode: ActiveValue::Known(config.decimation_mode),
            rf_port: applied_part(config.rf_port, self.rf_port),
            bias_tee: applied_part(config.bias_tee, self.bias_tee),
            packing: ActiveValue::Known(config.packing),
            ..gained
        }
    }

    /// This state with everything that `config` writes unknown.
    pub open spec fn config_invalidated(
        self,
        config: ConfigData,
        reason: UnavailableReason,
    ) -> ActiveStateInner {
        let gained = self.gain_invalidated(config.gain, reason);
        ActiveStateInner {
            frequency_hz: ActiveValue::Unknown(reason),
            sample_rate_hz: ActiveValue::Unknown(reason),
            bandwidth: ActiveValue::Unknown(reason),
            sample_format: ActiveValue::Unknown(reason),
            decimation_mode: ActiveValue::Unknown(reason),
            rf_port: written(config.rf_port, ActiveValue::Unknown(reason), self.rf_port),
            bias_tee: written(config.bias_tee, ActiveValue::Unknown(reason), self.bias_tee),
            packing: ActiveValue::Unknown(reason),
            ..gained
        }
    }

    /// Report of one gain stage.
    pub open spec fn spec_gain(self, stage: GainStage) -> Result<Option<u8>> {
        match stage {
            GainStage::Lna => self.lna_gain.spec_get_optional("LNA gain"),
            GainStage::Mixer => self.mixer_gain.spec_get_optional("mixer gain"),
            GainStage::Vga => self.vga_gain.spec_get_optional("VGA gain"),
        }
    }

    /// Report of the common AGC state.
    pub open spec fn spec_agc_enabled(self) -> Result<bool> {
        match (self.lna_agc.spec_get("LNA AGC"), self.mixer_agc.spec_get("mixer AGC")) {
            (Err(error), _) => Err(error),
            (Ok(_), Err(error)) => Err(error),
            (Ok(lna), Ok(mixer)) => if lna == mixer {
                Ok(lna)
            } else {
                Err(
                    Error::StateUnavailable {
                        field: "AGC",
                        reason: "LNA and mixer AGC states differ",
                    },
                )
            },
        }
    }

    /// Last successfully applied center frequency in Hz.
    pub fn frequency_hz(&self) -> (result: Result<u64>)
        ensures
            result == self.frequency_hz.spec_get("frequency"),
    {
        self.frequency_hz.get("frequency")
    }

    /// Last successfully applied effective sample rate in Hz.
    pub fn sample_rate_hz(&self) -> (result: Result<u32>)
        ensures
            result == self.sample_rate_hz.spec_get("sample rate"),
    {
        self.sample_rate_hz.get("sample rate")
    }

    /// Last successfully applied analog-bandwidth policy.
    pub fn bandwidth(&self) -> (result: Result<Bandwidth>)
        ensures
            result == self.bandwidth.spec_get("bandwidth"),
    {
        self.bandwidth.get("bandwidth")
    }

    /// Last successfully applied high-level sample format.
    pub fn sample_format(&self) -> (result: Result<SampleFormat>)
        ensures
            result == self.sample_format.spec_get("sample format"),
    {
        self.sample_format.get("sample format")
    }

    /// Last successfully applied host-side decimation policy.
    pub fn decimation_mode(&self) -> (result: Result<DecimationMode>)
        ensures
            result == self.decimation_mode.spec_get("decimation mode"),
    {
        self.decimation_mode.get("decimation mode")
    }

    /// Last successfully selected RF input port.
    pub fn rf_port(&self) -> (result: Result<RfPort>)
        ensures
            result == self.rf_port.spec_get("RF port"),
    {
        self.rf_port.get("RF port")
    }

    /// Last successfully applied value for one physical gain stage.
    pub fn gain(&self, stage: GainStage) -> (result: Result<Option<u8>>)
        ensures
            result == self.spec_gain(stage),
    {
        match stage {
            GainStage::Lna => self.lna_gain.get_optional("LNA gain"),
            GainStage::Mixer => self.mixer_gain.get_optional("mixer gain"),
            GainStage::Vga => self.vga_gain.get_optional("VGA gain"),
        }
    }

    /// Last successfully applied common AGC state.
    pub fn agc_enabled(&self) -> (result: Result<bool>)
        ensures
            result == self.spec_agc_enabled(),
    {
        let lna: bool = match self.lna_agc.get("LNA AGC") {
            Err(error) => return Err(error),
            Ok(enabled) => enabled,
        };
        let mixer: bool = match self.mixer_agc.get("mixer AGC") {
            Err(error) => return Err(error),
            Ok(enabled) => enabled,
        };
        if lna == mixer {
            Ok(lna)
        } else {
            Err(
                Error::StateUnavailable {
                    field: "AGC",
                    reason: "LNA and mixer AGC states differ",
                },
            )
        }
    }

    /// Last successfully applied bias-tee state.
    pub fn bias_tee(&self) -> (result: Result<bool>)
        ensures
            result == self.bias_tee.spec_get("bias tee"),
    {
        self.bias_tee.get("bias tee")
    }

    /// Last successfully applied packed-transfer state.
    pub fn packing(&self) -> (result: Result<bool>)
        ensures
            result == self.packing.spec_get("packing"),
    {
        self.packing.get("packing")
    }

    /// Record an applied gain.
    pub fn apply_gain(&mut self, gain: GainConfig)
        ensures
            *final(self) == old(self).gain_applied(gain),
    {
        match gain {
            GainConfig::Unchanged => {},
            GainConfig::Preset(_) => {
                let reason: UnavailableReason = UnavailableReason::PresetNotReported;
                self.lna_gain = ActiveValue::Unknown(reason);
                self.mixer_gain = ActiveValue::Unknown(reason);
                self.vga_gain = ActiveValue::Unknown(reason);
                self.lna_agc = ActiveValue::Unknown(reason);
                self.mixer_agc = ActiveValue::Unknown(reason);
            },
            GainConfig::Manual { lna, mixer, vga, lna_agc, mixer_agc } => {
                self.apply_writes(lna, mixer, vga, lna_agc, mixer_agc);
            },
            GainConfig::Stages { lna, mixer, vga } => {
                self.apply_writes(
                    lna.manual(),
                    mixer.manual(),
                    Some(vga),
                    Some(lna == StageGain::Agc),
                    Some(mixer == StageGain::Agc),
                );
            },
        }
    }

    fn apply_writes(
        &mut self,
        lna: Option<u8>,
        mixer: Option<u8>,
        vga: Option<u8>,
        lna_agc: Option<bool>,
        mixer_agc: Option<bool>,
    )
        ensures
            *final(self) == old(self).writes_applied(
                (GainWrites { lna, mixer, vga, lna_agc, mixer_agc }),
            ),
    {
        if let Some(value) = lna {
            self.lna_gain = ActiveValue::Known(value);
        }
        if let Some(value) = mixer {
            self.mixer_gain = ActiveValue::Known(value);
        }
        if let Some(value) = vga {
            self.vga_gain = ActiveValue::Known(value);
        }
        if let Some(value) = lna_agc {
            self.lna_agc = ActiveValue::Known(value);
        }
        if let Some(value) = mixer_agc {
            self.mixer_agc = ActiveValue::Known(value);
        }
    }

    /// Forget everything that `gain` writes.
    pub fn invalidate_gain(&mut self, gain: GainConfig, reason: UnavailableReason)
        ensures
            *final(self) == old(self).gain_invalidated(gain, reason),
    {
        match gain {
            GainConfig::Unchanged => {},
            GainConfig::Preset(_) => {
                self.lna_gain = ActiveValue::Unknown(reason);
                self.mixer_gain = ActiveValue::Unknown(reason);
                self.vga_gain = ActiveValue::Unknown(reason);
                self.lna_agc = ActiveValue::Unknown(reason);
                self.mixer_agc = ActiveValue::Unknown(reason);
            },
            GainConfig::Manual { lna, mixer, vga, lna_agc, mixer_agc } => {
                if lna.is_some() {
                    self.lna_gain = ActiveValue::Unknown(reason);
                }
                if mixer.is_some() {
                    self.mixer_gain = ActiveValue::Unknown(reason);
                }
                if vga.is_some() {
                    self.vga_gain = ActiveValue::Unknown(reason);
                }
                if lna_agc.is_some() {
                    self.lna_agc = ActiveValue::Unknown(reason);
                }
                if mixer_agc.is_some() {
                    self.mixer_agc = ActiveValue::Unknown(reason);
                }
            },
            GainConfig::Stages { lna, mixer, .. } => {
                if lna.manual().is_some() {
                    self.lna_gain = ActiveValue::Unknown(reason);
                }
                if mixer.manual().is_some() {
                    self.mixer_gain = ActiveValue::Unknown(reason);
                }
                self.vga_gain = ActiveValue::Unknown(reason);
                self.lna_agc = ActiveValue::Unknown(reason);
                self.mixer_agc = ActiveValue::Unknown(reason);
            },
        }
    }

    /// Record an applied configuration.
    pub fn apply_config(&mut self, config: &ConfigData)
        ensures
            *final(self) == old(self).config_applied(*config),
    {
        self.frequency_hz = ActiveValue::Known(config.frequency_hz);
        self.sample_rate_hz = ActiveValue::Known(config.sample_rate_hz);
        self.bandwidth = ActiveValue::Known(config.bandwidth);
        self.sample_format = ActiveValue::Known(config.sample_format);
        self.decimation_mode = ActiveValue::Known(config.decimation_mode);
        if let Some(port) = config.rf_port {
            self.rf_port = ActiveValue::Known(port);
        }
        self.apply_gain(config.gain);
        if let Some(enabled) = config.bias_tee {
            self.bias_tee = ActiveValue::Known(enabled);
        }
        self.packing = ActiveValue::Known(config.packing);
    }

    /// Forget everything that `config` writes.
    pub fn invalidate_config(&mut self, config: &ConfigData, reason: UnavailableReason)
        ensures
            *final(self) == old(self).config_invalidated(*config, reason),
    {
        self.frequency_hz = ActiveValue::Unknown(reason);
        self.sample_rate_hz = ActiveValue::Unknown(reason);
        self.bandwidth = ActiveValue::Unknown(reason);
        self.sample_format = ActiveValue::Unknown(reason);
        self.decimation_mode = ActiveValue::Unknown(reason);
        if config.rf_port.is_some() {
            self.rf_port = ActiveValue::Unknown(reason);
        }
        self.invalidate_gain(config.gain, reason);
        if config.bias_tee.is_some() {
            self.bias_tee = ActiveValue::Unknown(reason);
        }
        self.packing = ActiveValue::Unknown(reason);
    }

    /// Record the outcome of a gain update.
    pub fn set_gain_result(&mut self, gain: GainConfig, succeeded: bool)
        ensures
            *final(self) == old(self).gain_updated(gain, succeeded),
    {
        if succeeded {
            self.apply_gain(gain);
        } else {
            self.invalidate_gain(gain, UnavailableReason::LastUpdateFailed);
        }
    }

    /// This state while a center frequency update is under way.
    pub open spec fn frequency_updating(self) -> ActiveStateInner {
        ActiveStateInner {
            frequency_hz: ActiveValue::Unknown(UnavailableReason::UpdateIncomplete),
            ..self
        }
    }

    /// This state after a center frequency update.
    pub open spec fn frequency_updated(self, value: u64, succeeded: bool) -> ActiveStateInner {
        ActiveStateInner { frequency_hz: updated(value, succeeded), ..self }
    }

    /// Record that a center frequency update is under way.
    pub fn begin_frequency_update(&mut self)
        ensures
            *final(self) == old(self).frequency_updating(),
    {
        self.frequency_hz = ActiveValue::Unknown(UnavailableReason::UpdateIncomplete);
    }

    /// Record the outcome of a center frequency update.
    pub fn set_frequency_result(&mut self, value: u64, succeeded: bool)
        ensures
            *final(self) == old(self).frequency_updated(value, succeeded),
    {
        self.frequency_hz = update_result(value, succeeded);
    }

    /// This state while a sample rate update is under way.
    pub open spec fn sample_rate_updating(self) -> ActiveStateInner {
        ActiveStateInner {
            sample_rate_hz: ActiveValue::Unknown(UnavailableReason::UpdateIncomplete),
            ..self
        }
    }

    /// This state after a sample rate update.
    pub open spec fn sample_rate_updated(self, value: u32, succeeded: bool) -> ActiveStateInner {
        ActiveStateInner { sample_rate_hz: updated(value, succeeded), ..self }
    }

    /// Record that a sample rate update is under way.
    pub fn begin_sample_rate_update(&mut self)
        ensures
            *final(self) == old(self).sample_rate_updating(),
    {
        self.sample_rate_hz = ActiveValue::Unknown(UnavailableReason::UpdateIncomplete);
    }

    /// Record the outcome of a sample rate update.
    pub fn set_sample_rate_result(&mut self, value: u32, succeeded: bool)
        ensures
            *final(self) == old(self).sample_rate_updated(value, succeeded),
    {
        self.sample_rate_hz = update_result(value, succeeded);
    }

    /// This state while a bandwidth update is under way.
    pub open spec fn bandwidth_updating(self) -> ActiveStateInner {
        ActiveStateInner {
            bandwidth: ActiveValue::Unknown(UnavailableReason::UpdateIncomplete),
            ..self
        }
    }

    /// This state after a bandwidth update.
    pub open spec fn bandwidth_updated(self, value: u32, succeeded: bool) -> ActiveStateInner {
        ActiveStateInner { bandwidth: updated(Bandwidth::ManualHz(value), succeeded), ..self }
    }

    /// Record that a bandwidth update is under way.
    pub fn begin_bandwidth_update(&mut self)
        ensures
            *final(self) == old(self).bandwidth_updating(),
    {
        self.bandwidth = ActiveValue::Unknown(UnavailableReason::UpdateIncomplete);
    }

    /// Record the outcome of a bandwidth update.
    pub fn set_bandwidth_result(&mut self, value: u32, succeeded: bool)
        ensures
            *final(self) == old(self).bandwidth_updated(value, succeeded),
    {
        self.bandwidth = update_result(Bandwidth::ManualHz(value), succeeded);
    }

    /// This state while an RF port update is under way.
    pub open spec fn rf_port_updating(self) -> ActiveStateInner {
        ActiveStateInner {
            rf_port: ActiveValue::Unknown(UnavailableReason::UpdateIncomplete),
            ..self
        }
    }

    /// This state after an RF port update.
    pub open spec fn rf_port_updated(self, value: RfPort, succeeded: bool) -> ActiveStateInner {
        ActiveStateInner { rf_port: updated(value, succeeded), ..self }
    }

    /// Record that an RF port update is under way.
    pub fn begin_rf_port_update(&mut self)
        ensures
            *final(self) == old(self).rf_port_updating(),
    {
        self.rf_port = ActiveValue::Unknown(UnavailableReason::UpdateIncomplete);
    }

    /// Record the outcome of an RF port update.
    pub fn set_rf_port_result(&mut self, value: RfPort, succeeded: bool)
        ensures
            *final(self) == old(self).rf_port_updated(value, succeeded),
    {
        self.rf_port = update_result(value, succeeded);
    }

    /// This state while a bias tee update is under way.
    pub open spec fn bias_tee_updating(self) -> ActiveStateInner {
        ActiveStateInner {
            bias_tee: ActiveValue::Unknown(UnavailableReason::UpdateIncomplete),
            ..self
        }
    }

    /// This state after a bias tee update.
    pub open spec fn bias_tee_updated(self, enabled: bool, succeeded: bool) -> ActiveStateInner {
        ActiveStateInner { bias_tee: updated(enabled, succeeded), ..self }
    }

    /// Record that a bias tee update is under way.
    pub fn begin_bias_tee_update(&mut self)
        ensures
            *final(self) == old(self).bias_tee_updating(),
    {
        self.bias_tee = ActiveValue::Unknown(UnavailableReason::UpdateIncomplete);
    }

    /// Record the outcome of a bias tee update.
    pub fn set_bias_tee_result(&mut self, enabled: bool, succeeded: bool)
        ensures
            *final(self) == old(self).bias_tee_updated(enabled, succeeded),
    {
        self.bias_tee = update_result(enabled, succeeded);
    }
}

/// Every state that is shared is coherent.
pub struct CoherentState;

impl RwLockPredicate<ActiveStateInner> for CoherentState {
    open spec fn inv(self, state: ActiveStateInner) -> bool {
        state.coherent()
    }
}

/// Shared view of the active receiver settings.
///
/// HydraSDR firmware does not provide readback requests for these values. This
/// handle therefore records successful operations performed through this crate.
/// A failed update makes the affected value unavailable until a later update
/// succeeds, preventing callers from mistaking stale host state for hardware
/// state. Clones refer to the same authoritative state.
///
/// Other holders of the handle may write between two calls, so that a report is
/// the report of some coherent [`ActiveStateInner`]; which one is not stated.
pub struct ActiveState {
    inner: Arc<RwLock<ActiveStateInner, CoherentState>>,
}

impl Default for ActiveState {
    fn default() -> (state: Self) {
        ActiveState { inner: Arc::new(RwLock::new(ActiveStateInner::default(), Ghost(CoherentState))) }
    }
}

impl Clone for ActiveState {
    fn clone(&self) -> (handle: Self)
        ensures
            handle == *self,
    {
        ActiveState { inner: self.inner.clone() }
    }
}

/// Record that a shared handle was told of a state.
///
/// Only the handle itself makes one, when it writes. Whoever holds a record can
/// therefore rely on it that this handle was told of this state.
#[derive(Clone, Copy)]
pub struct ActiveRecord {
    handle: Ghost<ActiveState>,
    state: Ghost<ActiveStateInner>,
}

impl ActiveRecord {
    /// Handle that was told.
    pub closed spec fn spec_handle(self) -> ActiveState {
        self.handle@
    }

    /// State that it was told of.
    pub closed spec fn spec_state(self) -> ActiveStateInner {
        self.state@
    }

    /// Whether `handle` was told that `config` was applied.
    pub open spec fn tells_of_config(self, handle: ActiveState, config: ConfigData) -> bool {
        &&& self.spec_handle() == handle
        &&& exists|before: ActiveStateInner|
            before.coherent() && self.spec_state() == #[trigger] before.config_applied(config)
    }

    /// Whether `handle` was told how an update to the sample rate `value` ended.
    pub open spec fn tells_of_sample_rate(
        self,
        handle: ActiveState,
        value: u32,
        succeeded: bool,
    ) -> bool {
        &&& self.spec_handle() == handle
        &&& exists|before: ActiveStateInner|
            before.coherent() && self.spec_state() == #[trigger] before.sample_rate_updated(
                value,
                succeeded,
            )
    }
}

/// Law: a handle that was told of a configuration was told of each setting that the
/// configuration names, whatever it held before.
pub proof fn law_a_record_tells_of_every_setting(
    record: ActiveRecord,
    handle: ActiveState,
    config: ConfigData,
)
    requires
        record.tells_of_config(handle, config),
    ensures
        record.spec_handle() == handle,
        ({
            let told = record.spec_state();
            &&& told.coherent()
            &&& told.frequency_hz == ActiveValue::Known(config.frequency_hz)
            &&& told.sample_rate_hz == ActiveValue::Known(config.sample_rate_hz)
            &&& told.bandwidth == ActiveValue::Known(config.bandwidth)
            &&& told.sample_format == ActiveValue::Known(config.sample_format)
            &&& told.decimation_mode == ActiveValue::Known(config.decimation_mode)
            &&& told.packing == ActiveValue::Known(config.packing)
            &&& config.rf_port matches Some(port) ==> told.rf_port == ActiveValue::Known(port)
            &&& config.bias_tee matches Some(enabled) ==> told.bias_tee == ActiveValue::Known(
                enabled,
            )
        }),
{
    let before = choose|before: ActiveStateInner|
        before.coherent() && record.spec_state() == #[trigger] before.config_applied(config);
    law_every_update_keeps_the_state_coherent(before, config, config.gain, true);
}

/// `Arc::ptr_eq`: whether two pointers point to the same allocation.
///
/// To a contract a lock is equal only to itself, whatever it holds, and an
/// allocation holds one lock. So the pointers to one allocation are those that
/// are equal.
#[verifier::external_body]
fn same_allocation(
    this: &Arc<RwLock<ActiveStateInner, CoherentState>>,
    other: &Arc<RwLock<ActiveStateInner, CoherentState>>,
) -> (same: bool)
    ensures
        same == (*this == *other),
{
    Arc::ptr_eq(this, other)
}

impl PartialEq for ActiveState {
    /// A handle equals every handle to the same state. Handles to two states are
    /// equal where these were equal when they were read.
    fn eq(&self, other: &Self) -> (equal: bool)
        ensures
            *self == *other ==> equal,
    {
        if same_allocation(&self.inner, &other.inner) {
            return true;
        }
        let this: ActiveStateInner = self.snapshot();
        let that: ActiveStateInner = other.snapshot();
        this == that
    }
}

impl Eq for ActiveState {

}

impl vstd::std_specs::cmp::PartialEqSpecImpl for ActiveState {
    open spec fn obeys_eq_spec() -> bool {
        false
    }

    open spec fn eq_spec(&self, other: &Self) -> bool {
        *self == *other
    }
}

impl ActiveState {
    /// Record an applied configuration, and that it was recorded.
    pub fn record_config(&self, config: &ConfigData) -> (record: ActiveRecord)
        ensures
            record.tells_of_config(*self, *config),
    {
        let state: ActiveStateInner = self.apply_config(config);
        ActiveRecord { handle: Ghost(*self), state: Ghost(state) }
    }

    /// Record the outcome of a sample rate update, and that it was recorded.
    pub fn record_sample_rate(&self, value: u32, succeeded: bool) -> (record: ActiveRecord)
        ensures
            record.tells_of_sample_rate(*self, value, succeeded),
    {
        let state: ActiveStateInner = self.set_sample_rate_result(value, succeeded);
        ActiveRecord { handle: Ghost(*self), state: Ghost(state) }
    }

    /// What is known right now.
    pub fn snapshot(&self) -> (state: ActiveStateInner)
        ensures
            state.coherent(),
    {
        let handle = self.inner.acquire_read();
        let state: ActiveStateInner = *handle.borrow();
        handle.release_read();
        state
    }

    /// Last successfully applied center frequency in Hz.
    pub fn frequency_hz(&self) -> (result: Result<u64>)
        ensures
            exists|state: ActiveStateInner|
                state.coherent() && result == #[trigger] state.frequency_hz.spec_get("frequency"),
    {
        let state: ActiveStateInner = self.snapshot();
        state.frequency_hz()
    }

    /// Last successfully applied effective sample rate in Hz.
    pub fn sample_rate_hz(&self) -> (result: Result<u32>)
        ensures
            exists|state: ActiveStateInner|
                state.coherent() && result == #[trigger] state.sample_rate_hz.spec_get("sample rate"),
    {
        let state: ActiveStateInner = self.snapshot();
        state.sample_rate_hz()
    }

    /// Last successfully applied analog-bandwidth policy.
    pub fn bandwidth(&self) -> (result: Result<Bandwidth>)
        ensures
            exists|state: ActiveStateInner|
                state.coherent() && result == #[trigger] state.bandwidth.spec_get("bandwidth"),
    {
        let state: ActiveStateInner = self.snapshot();
        state.bandwidth()
    }

    /// Last successfully applied high-level sample format.
    pub fn sample_format(&self) -> (result: Result<SampleFormat>)
        ensures
            exists|state: ActiveStateInner|
                state.coherent() && result == #[trigger] state.sample_format.spec_get("sample format"),
    {
        let state: ActiveStateInner = self.snapshot();
        state.sample_format()
    }

    /// Last successfully applied host-side decimation policy.
    pub fn decimation_mode(&self) -> (result: Result<DecimationMode>)
        ensures
            exists|state: ActiveStateInner|
                state.coherent() && result == #[trigger] state.decimation_mode.spec_get("decimation mode"),
    {
        let state: ActiveStateInner = self.snapshot();
        state.decimation_mode()
    }

    /// Last successfully selected RF input port.
    pub fn rf_port(&self) -> (result: Result<RfPort>)
        ensures
            exists|state: ActiveStateInner|
                state.coherent() && result == #[trigger] state.rf_port.spec_get("RF port"),
    {
        let state: ActiveStateInner = self.snapshot();
        state.rf_port()
    }

    /// Last successfully applied value for one physical gain stage.
    ///
    /// This returns `None` if the stage has never been configured. A failed or
    /// incomplete update returns an error until a later update succeeds.
    pub fn gain(&self, stage: GainStage) -> (result: Result<Option<u8>>)
        ensures
            exists|state: ActiveStateInner|
                state.coherent() && result == #[trigger] state.spec_gain(stage),
    {
        let state: ActiveStateInner = self.snapshot();
        state.gain(stage)
    }

    /// Last successfully applied common AGC state.
    ///
    /// HydraSDR has separate LNA and mixer AGC controls. This returns an error
    /// if either value is unavailable or the two controls differ.
    pub fn agc_enabled(&self) -> (result: Result<bool>)
        ensures
            exists|state: ActiveStateInner|
                state.coherent() && result == #[trigger] state.spec_agc_enabled(),
    {
        let state: ActiveStateInner = self.snapshot();
        state.agc_enabled()
    }

    /// Last successfully applied bias-tee state.
    pub fn bias_tee(&self) -> (result: Result<bool>)
        ensures
            exists|state: ActiveStateInner|
                state.coherent() && result == #[trigger] state.bias_tee.spec_get("bias tee"),
    {
        let state: ActiveStateInner = self.snapshot();
        state.bias_tee()
    }

    /// Last successfully applied packed-transfer state.
    pub fn packing(&self) -> (result: Result<bool>)
        ensures
            exists|state: ActiveStateInner|
                state.coherent() && result == #[trigger] state.packing.spec_get("packing"),
    {
        let state: ActiveStateInner = self.snapshot();
        state.packing()
    }

    /// Record an applied configuration, and return what is known then.
    pub fn apply_config(&self, config: &ConfigData) -> (state: ActiveStateInner)
        ensures
            state.coherent(),
            exists|before: ActiveStateInner|
                before.coherent() && state == #[trigger] before.config_applied(*config),
    {
        let (before, handle) = self.inner.acquire_write();
        let mut state: ActiveStateInner = before;
        state.apply_config(config);
        handle.release_write(state);
        state
    }

    /// Record that a configuration is being applied.
    pub fn begin_config(&self, config: &ConfigData) -> (state: ActiveStateInner)
        ensures
            state.coherent(),
            exists|before: ActiveStateInner|
                before.coherent() && state == #[trigger] before.config_invalidated(
                *config,
                UnavailableReason::UpdateIncomplete,
            ),
    {
        let (before, handle) = self.inner.acquire_write();
        let mut state: ActiveStateInner = before;
        state.invalidate_config(config, UnavailableReason::UpdateIncomplete);
        handle.release_write(state);
        state
    }

    /// Record that a configuration was not applied.
    pub fn fail_config(&self, config: &ConfigData) -> (state: ActiveStateInner)
        ensures
            state.coherent(),
            exists|before: ActiveStateInner|
                before.coherent() && state == #[trigger] before.config_invalidated(
                *config,
                UnavailableReason::LastUpdateFailed,
            ),
    {
        let (before, handle) = self.inner.acquire_write();
        let mut state: ActiveStateInner = before;
        state.invalidate_config(config, UnavailableReason::LastUpdateFailed);
        handle.release_write(state);
        state
    }

    /// Record that a gain is being applied.
    pub fn begin_gain_update(&self, gain: GainConfig) -> (state: ActiveStateInner)
        ensures
            state.coherent(),
            exists|before: ActiveStateInner|
                before.coherent() && state == #[trigger] before.gain_invalidated(
                gain,
                UnavailableReason::UpdateIncomplete,
            ),
    {
        let (before, handle) = self.inner.acquire_write();
        let mut state: ActiveStateInner = before;
        state.invalidate_gain(gain, UnavailableReason::UpdateIncomplete);
        handle.release_write(state);
        state
    }

    /// Record the outcome of a gain update.
    pub fn set_gain_result(&self, gain: GainConfig, succeeded: bool) -> (state: ActiveStateInner)
        ensures
            state.coherent(),
            exists|before: ActiveStateInner|
                before.coherent() && state == #[trigger] before.gain_updated(gain, succeeded),
    {
        let (before, handle) = self.inner.acquire_write();
        let mut state: ActiveStateInner = before;
        state.set_gain_result(gain, succeeded);
        handle.release_write(state);
        state
    }

    /// Record that a center frequency update is under way.
    pub fn begin_frequency_update(&self) -> (state: ActiveStateInner)
        ensures
            state.coherent(),
            exists|before: ActiveStateInner|
                before.coherent() && state == #[trigger] before.frequency_updating(),
    {
        let (before, handle) = self.inner.acquire_write();
        let mut state: ActiveStateInner = before;
        state.begin_frequency_update();
        handle.release_write(state);
        state
    }

    /// Record the outcome of a center frequency update.
    pub fn set_frequency_result(&self, value: u64, succeeded: bool) -> (state: ActiveStateInner)
        ensures
            state.coherent(),
            exists|before: ActiveStateInner|
                before.coherent() && state == #[trigger] before.frequency_updated(value, succeeded),
    {
        let (before, handle) = self.inner.acquire_write();
        let mut state: ActiveStateInner = before;
        state.set_frequency_result(value, succeeded);
        handle.release_write(state);
        state
    }

    /// Record that a sample rate update is under way.
    pub fn begin_sample_rate_update(&self) -> (state: ActiveStateInner)
        ensures
            state.coherent(),
            exists|before: ActiveStateInner|
                before.coherent() && state == #[trigger] before.sample_rate_updating(),
    {
        let (before, handle) = self.inner.acquire_write();
        let mut state: ActiveStateInner = before;
        state.begin_sample_rate_update();
        handle.release_write(state);
        state
    }

    /// Record the outcome of a sample rate update.
    pub fn set_sample_rate_result(&self, value: u32, succeeded: bool) -> (state: ActiveStateInner)
        ensures
            state.coherent(),
            exists|before: ActiveStateInner|
                before.coherent() && state == #[trigger] before.sample_rate_updated(value, succeeded),
    {
        let (before, handle) = self.inner.acquire_write();
        let mut state: ActiveStateInner = before;
        state.set_sample_rate_result(value, succeeded);
        handle.release_write(state);
        state
    }

    /// Record that a bandwidth update is under way.
    pub fn begin_bandwidth_update(&self) -> (state: ActiveStateInner)
        ensures
            state.coherent(),
            exists|before: ActiveStateInner|
                before.coherent() && state == #[trigger] before.bandwidth_updating(),
    {
        let (before, handle) = self.inner.acquire_write();
        let mut state: ActiveStateInner = before;
        state.begin_bandwidth_update();
        handle.release_write(state);
        state
    }

    /// Record the outcome of a bandwidth update.
    pub fn set_bandwidth_result(&self, value: u32, succeeded: bool) -> (state: ActiveStateInner)
        ensures
            state.coherent(),
            exists|before: ActiveStateInner|
                before.coherent() && state == #[trigger] before.bandwidth_updated(value, succeeded),
    {
        let (before, handle) = self.inner.acquire_write();
        let mut state: ActiveStateInner = before;
        state.set_bandwidth_result(value, succeeded);
        handle.release_write(state);
        state
    }

    /// Record that an RF port update is under way.
    pub fn begin_rf_port_update(&self) -> (state: ActiveStateInner)
        ensures
            state.coherent(),
            exists|before: ActiveStateInner|
                before.coherent() && state == #[trigger] before.rf_port_updating(),
    {
        let (before, handle) = self.inner.acquire_write();
        let mut state: ActiveStateInner = before;
        state.begin_rf_port_update();
        handle.release_write(state);
        state
    }

    /// Record the outcome of an RF port update.
    pub fn set_rf_port_result(&self, value: RfPort, succeeded: bool) -> (state: ActiveStateInner)
        ensures
            state.coherent(),
            exists|before: ActiveStateInner|
                before.coherent() && state == #[trigger] before.rf_port_updated(value, succeeded),
    {
        let (before, handle) = self.inner.acquire_write();
        let mut state: ActiveStateInner = before;
        state.set_rf_port_result(value, succeeded);
        handle.release_write(state);
        state
    }

    /// Record that a bias tee update is under way.
    pub fn begin_bias_tee_update(&self) -> (state: ActiveStateInner)
        ensures
            state.coherent(),
            exists|before: ActiveStateInner|
                before.coherent() && state == #[trigger] before.bias_tee_updating(),
    {
        let (before, handle) = self.inner.acquire_write();
        let mut state: ActiveStateInner = before;
        state.begin_bias_tee_update();
        handle.release_write(state);
        state
    }

    /// Record the outcome of a bias tee update.
    pub fn set_bias_tee_result(&self, enabled: bool, succeeded: bool) -> (state: ActiveStateInner)
        ensures
            state.coherent(),
            exists|before: ActiveStateInner|
                before.coherent() && state == #[trigger] before.bias_tee_updated(enabled, succeeded),
    {
        let (before, handle) = self.inner.acquire_write();
        let mut state: ActiveStateInner = before;
        state.set_bias_tee_result(enabled, succeeded);
        handle.release_write(state);
        state
    }
}

/// Law: the state of a receiver to which nothing was applied is coherent, and
/// every update keeps it so, whether it begins, fails or succeeds.
pub proof fn law_every_update_keeps_the_state_coherent(
    state: ActiveStateInner,
    config: ConfigData,
    gain: GainConfig,
    succeeded: bool,
)
    requires
        state.coherent(),
    ensures
        nothing_applied().coherent(),
        state.config_applied(config).coherent(),
        state.config_invalidated(config, UnavailableReason::UpdateIncomplete).coherent(),
        state.config_invalidated(config, UnavailableReason::LastUpdateFailed).coherent(),
        state.gain_invalidated(gain, UnavailableReason::UpdateIncomplete).coherent(),
        state.gain_updated(gain, succeeded).coherent(),
        state.frequency_updating().coherent(),
        state.sample_rate_updating().coherent(),
        state.bandwidth_updating().coherent(),
        state.rf_port_updating().coherent(),
        state.bias_tee_updating().coherent(),
        forall|value: u64| #[trigger] state.frequency_updated(value, succeeded).coherent(),
        forall|value: u32| #[trigger] state.sample_rate_updated(value, succeeded).coherent(),
        forall|value: u32| #[trigger] state.bandwidth_updated(value, succeeded).coherent(),
        forall|value: RfPort| #[trigger] state.rf_port_updated(value, succeeded).coherent(),
        forall|value: bool| #[trigger] state.bias_tee_updated(value, succeeded).coherent(),
{
}

/// Law: a failed update hides the value that was known before, and every later
/// successful one is reported.
pub proof fn law_failed_update_hides_the_value_until_success<T: Copy>(
    failed: T,
    applied: T,
    field: &'static str,
)
    ensures
        updated(failed, false).spec_get(field) is Err,
        updated(applied, true).spec_get(field) == Ok::<T, Error>(applied),
{
}

/// Law: while an update is under way, no value of the setting is reported, not
/// even one that need not have been applied.
pub proof fn law_an_update_under_way_hides_the_value<T: Copy>(field: &'static str)
    ensures
        ActiveValue::<T>::Unknown(UnavailableReason::UpdateIncomplete).spec_get(field) is Err,
        ActiveValue::<T>::Unknown(UnavailableReason::UpdateIncomplete).spec_get_optional(
            field,
        ) is Err,
{
}

/// Law: once a configuration is applied, what was forgotten while it was under
/// way makes no difference.
pub proof fn law_applying_a_config_settles_it(
    state: ActiveStateInner,
    config: ConfigData,
    reason: UnavailableReason,
)
    ensures
        state.config_invalidated(config, reason).config_applied(config) == state.config_applied(
            config,
        ),
{
}

/// Law: an applied configuration is reported as it is.
pub proof fn law_an_applied_config_is_reported(state: ActiveStateInner, config: ConfigData)
    ensures
        ({
            let after = state.config_applied(config);
            &&& after.frequency_hz.spec_get("frequency") == Ok::<u64, Error>(config.frequency_hz)
            &&& after.sample_rate_hz.spec_get("sample rate") == Ok::<u32, Error>(
                config.sample_rate_hz,
            )
            &&& after.bandwidth.spec_get("bandwidth") == Ok::<Bandwidth, Error>(config.bandwidth)
            &&& after.sample_format.spec_get("sample format") == Ok::<SampleFormat, Error>(
                config.sample_format,
            )
            &&& after.decimation_mode.spec_get("decimation mode") == Ok::<DecimationMode, Error>(
                config.decimation_mode,
            )
            &&& after.packing.spec_get("packing") == Ok::<bool, Error>(config.packing)
            &&& config.rf_port matches Some(port) ==> after.rf_port.spec_get("RF port") == Ok::<
                RfPort,
                Error,
            >(port)
            &&& config.bias_tee matches Some(enabled) ==> after.bias_tee.spec_get("bias tee")
                == Ok::<bool, Error>(enabled)
        }),
{
}

/// Law: a configuration that failed or is under way leaves nothing that it
/// writes reported, and leaves alone what it does not write.
pub proof fn law_an_unapplied_config_is_not_reported(
    state: ActiveStateInner,
    config: ConfigData,
    reason: UnavailableReason,
)
    ensures
        ({
            let after = state.config_invalidated(config, reason);
            &&& after.frequency_hz.spec_get("frequency") is Err
            &&& after.sample_rate_hz.spec_get("sample rate") is Err
            &&& after.bandwidth.spec_get("bandwidth") is Err
            &&& after.sample_format.spec_get("sample format") is Err
            &&& after.decimation_mode.spec_get("decimation mode") is Err
            &&& after.packing.spec_get("packing") is Err
            &&& if config.rf_port is Some {
                after.rf_port.spec_get("RF port") is Err
            } else {
                after.rf_port == state.rf_port
            }
            &&& if config.bias_tee is Some {
                after.bias_tee.spec_get("bias tee") is Err
            } else {
                after.bias_tee == state.bias_tee
            }
            &&& config.gain == GainConfig::Unchanged ==> {
                &&& after.lna_gain == state.lna_gain
                &&& after.mixer_gain == state.mixer_gain
                &&& after.vga_gain == state.vga_gain
                &&& after.lna_agc == state.lna_agc
                &&& after.mixer_agc == state.mixer_agc
            }
        }),
{
}

/// Law: a failed gain update hides exactly the stages that it writes.
pub proof fn law_a_failed_gain_hides_what_it_writes(
    state: ActiveStateInner,
    lna: Option<u8>,
    mixer: Option<u8>,
    vga: Option<u8>,
    lna_agc: Option<bool>,
    mixer_agc: Option<bool>,
)
    ensures
        ({
            let gain = GainConfig::Manual { lna, mixer, vga, lna_agc, mixer_agc };
            let after = state.gain_updated(gain, false);
            &&& if lna is Some {
                after.spec_gain(GainStage::Lna) is Err
            } else {
                after.spec_gain(GainStage::Lna) == state.spec_gain(GainStage::Lna)
            }
            &&& if mixer is Some {
                after.spec_gain(GainStage::Mixer) is Err
            } else {
                after.spec_gain(GainStage::Mixer) == state.spec_gain(GainStage::Mixer)
            }
            &&& if vga is Some {
                after.spec_gain(GainStage::Vga) is Err
            } else {
                after.spec_gain(GainStage::Vga) == state.spec_gain(GainStage::Vga)
            }
            &&& lna_agc is Some || mixer_agc is Some ==> after.spec_agc_enabled() is Err
        }),
{
}

/// Law: a setting is reported exactly where it is known, as what it is known to be.
/// Where it is not, the error names the setting and the reason. A setting that
/// need not have been applied is reported as absent where it never was.
pub proof fn law_only_what_is_known_is_reported<T: Copy>(
    value: T,
    reason: UnavailableReason,
    field: &'static str,
)
    ensures
        ActiveValue::Known(value).spec_get(field) == Ok::<T, Error>(value),
        ActiveValue::Known(value).spec_get_optional(field) == Ok::<Option<T>, Error>(Some(value)),
        ActiveValue::<T>::Unknown(reason).spec_get(field) == Err::<T, Error>(
            Error::StateUnavailable { field, reason: reason.spec_message() },
        ),
        ActiveValue::<T>::Unknown(reason).spec_get_optional(field) == if reason
            == UnavailableReason::NeverApplied {
            Ok::<Option<T>, Error>(None)
        } else {
            Err(Error::StateUnavailable { field, reason: reason.spec_message() })
        },
        updated(value, true) == ActiveValue::Known(value),
        updated(value, false) == ActiveValue::<T>::Unknown(UnavailableReason::LastUpdateFailed),
{
}

/// Law: each reason has a text of its own.
pub proof fn law_reasons_are_told_apart(reason: UnavailableReason)
    ensures
        reason.spec_message() == match reason {
            UnavailableReason::NeverApplied => "no value has been successfully applied",
            UnavailableReason::UpdateIncomplete => "an update is in progress or did not complete",
            UnavailableReason::LastUpdateFailed => "the last update failed",
            UnavailableReason::PresetNotReported => {
                "physical values are not reported after applying a gain preset"
            },
        },
{
}

/// Law: nothing is known of a receiver to which nothing was applied.
pub proof fn law_nothing_is_known_at_first(stage: GainStage)
    ensures
        ({
            let state = nothing_applied();
            &&& state.frequency_hz.spec_get("frequency") is Err
            &&& state.sample_rate_hz.spec_get("sample rate") is Err
            &&& state.bandwidth.spec_get("bandwidth") is Err
            &&& state.sample_format.spec_get("sample format") is Err
            &&& state.decimation_mode.spec_get("decimation mode") is Err
            &&& state.rf_port.spec_get("RF port") is Err
            &&& state.bias_tee.spec_get("bias tee") is Err
            &&& state.packing.spec_get("packing") is Err
            &&& state.spec_agc_enabled() is Err
            &&& state.spec_gain(stage) == Ok::<Option<u8>, Error>(None)
        }),
{
}

/// Law: what is known of one stage is reported for that stage, and a common AGC
/// state exactly where both are known and agree.
pub proof fn law_gains_are_reported_by_stage(state: ActiveStateInner)
    ensures
        state.spec_gain(GainStage::Lna) == state.lna_gain.spec_get_optional("LNA gain"),
        state.spec_gain(GainStage::Mixer) == state.mixer_gain.spec_get_optional("mixer gain"),
        state.spec_gain(GainStage::Vga) == state.vga_gain.spec_get_optional("VGA gain"),
        state.spec_agc_enabled() matches Ok(enabled) ==> state.lna_agc == ActiveValue::Known(enabled)
            && state.mixer_agc == ActiveValue::Known(enabled),
        match (state.lna_agc, state.mixer_agc) {
            (ActiveValue::Known(lna), ActiveValue::Known(mixer)) => state.spec_agc_enabled() is Ok
                <==> lna == mixer,
            (_, _) => state.spec_agc_enabled() is Err,
        },
{
}

/// Law: an applied manual gain is known in each part that it names, and every other
/// part stays as it was.
pub proof fn law_an_applied_manual_gain_is_known(
    state: ActiveStateInner,
    lna: Option<u8>,
    mixer: Option<u8>,
    vga: Option<u8>,
    lna_agc: Option<bool>,
    mixer_agc: Option<bool>,
)
    ensures
        state.gain_applied(GainConfig::Manual { lna, mixer, vga, lna_agc, mixer_agc }) == (
        ActiveStateInner {
            lna_gain: match lna {
                Some(value) => ActiveValue::Known(value),
                None => state.lna_gain,
            },
            mixer_gain: match mixer {
                Some(value) => ActiveValue::Known(value),
                None => state.mixer_gain,
            },
            vga_gain: match vga {
                Some(value) => ActiveValue::Known(value),
                None => state.vga_gain,
            },
            lna_agc: match lna_agc {
                Some(enabled) => ActiveValue::Known(enabled),
                None => state.lna_agc,
            },
            mixer_agc: match mixer_agc {
                Some(enabled) => ActiveValue::Known(enabled),
                None => state.mixer_agc,
            },
            ..state
        }),
{
}

/// Law: of a gain that was set stage by stage, the VGA gain and both automatic
/// controls are known, and the gain of each stage that was set by hand. A stage
/// under automatic control keeps what was known of its gain.
pub proof fn law_an_applied_staged_gain_is_known(
    state: ActiveStateInner,
    lna: StageGain,
    mixer: StageGain,
    vga: u8,
)
    ensures
        state.gain_applied(GainConfig::Stages { lna, mixer, vga }) == (ActiveStateInner {
            lna_gain: match lna {
                StageGain::Manual(value) => ActiveValue::Known(value),
                StageGain::Agc => state.lna_gain,
            },
            mixer_gain: match mixer {
                StageGain::Manual(value) => ActiveValue::Known(value),
                StageGain::Agc => state.mixer_gain,
            },
            vga_gain: ActiveValue::Known(vga),
            lna_agc: ActiveValue::Known(lna == StageGain::Agc),
            mixer_agc: ActiveValue::Known(mixer == StageGain::Agc),
            ..state
        }),
{
}

/// Law: after a preset no physical gain and no AGC state is reported, and an
/// unchanged gain changes nothing.
pub proof fn law_a_preset_hides_the_physical_gains(
    state: ActiveStateInner,
    preset: GainPreset,
    stage: GainStage,
)
    ensures
        ({
            let after = state.gain_applied(GainConfig::Preset(preset));
            &&& after.spec_gain(stage) is Err
            &&& after.spec_agc_enabled() is Err
            &&& blames_a_preset(after.lna_gain) && blames_a_preset(after.mixer_gain)
            &&& blames_a_preset(after.vga_gain) && blames_a_preset(after.lna_agc)
            &&& blames_a_preset(after.mixer_agc)
        }),
        state.gain_applied(GainConfig::Unchanged) == state,
        forall|reason: UnavailableReason| #[trigger]
            state.gain_invalidated(GainConfig::Unchanged, reason) == state,
{
}

/// Whether two states differ at most in their gains.
pub open spec fn alike_but_for_the_gain(one: ActiveStateInner, other: ActiveStateInner) -> bool {
    &&& one.frequency_hz == other.frequency_hz
    &&& one.sample_rate_hz == other.sample_rate_hz
    &&& one.bandwidth == other.bandwidth
    &&& one.sample_format == other.sample_format
    &&& one.decimation_mode == other.decimation_mode
    &&& one.rf_port == other.rf_port
    &&& one.bias_tee == other.bias_tee
    &&& one.packing == other.packing
}

/// Law: a gain update changes no other setting, and it is applied exactly where it
/// succeeded.
pub proof fn law_a_gain_update_changes_only_gains(
    state: ActiveStateInner,
    gain: GainConfig,
    reason: UnavailableReason,
)
    ensures
        alike_but_for_the_gain(state.gain_applied(gain), state),
        alike_but_for_the_gain(state.gain_invalidated(gain, reason), state),
        state.gain_updated(gain, true) == state.gain_applied(gain),
        state.gain_updated(gain, false) == state.gain_invalidated(
            gain,
            UnavailableReason::LastUpdateFailed,
        ),
{
}

/// Law: what an update under way or failed hides is what its success would have
/// written: every part of the gain that is hidden is hidden for the reason given,
/// and what is kept is what applying the gain would keep.
pub proof fn law_a_gain_hides_what_it_would_write(
    state: ActiveStateInner,
    gain: GainConfig,
    reason: UnavailableReason,
)
    ensures
        ({
            let hidden = state.gain_invalidated(gain, reason);
            let applied = state.gain_applied(gain);
            &&& hidden.lna_gain == state.lna_gain || hidden.lna_gain == ActiveValue::<u8>::Unknown(
                reason,
            )
            &&& hidden.mixer_gain == state.mixer_gain || hidden.mixer_gain == ActiveValue::<
                u8,
            >::Unknown(reason)
            &&& hidden.vga_gain == state.vga_gain || hidden.vga_gain == ActiveValue::<u8>::Unknown(
                reason,
            )
            &&& hidden.lna_agc == state.lna_agc || hidden.lna_agc == ActiveValue::<bool>::Unknown(
                reason,
            )
            &&& hidden.mixer_agc == state.mixer_agc || hidden.mixer_agc == ActiveValue::<
                bool,
            >::Unknown(reason)
            &&& applied.lna_gain != state.lna_gain ==> hidden.lna_gain == ActiveValue::<
                u8,
            >::Unknown(reason)
            &&& applied.mixer_gain != state.mixer_gain ==> hidden.mixer_gain == ActiveValue::<
                u8,
            >::Unknown(reason)
            &&& applied.vga_gain != state.vga_gain ==> hidden.vga_gain == ActiveValue::<
                u8,
            >::Unknown(reason)
            &&& applied.lna_agc != state.lna_agc ==> hidden.lna_agc == ActiveValue::<
                bool,
            >::Unknown(reason)
            &&& applied.mixer_agc != state.mixer_agc ==> hidden.mixer_agc == ActiveValue::<
                bool,
            >::Unknown(reason)
            &&& hidden.gain_applied(gain) == applied
        }),
{
}

/// Law: a stage by stage gain that failed hides the VGA gain, both automatic
/// controls and the gain of each stage that it sets by hand, and no other.
pub proof fn law_a_failed_staged_gain_hides_what_it_writes(
    state: ActiveStateInner,
    lna: StageGain,
    mixer: StageGain,
    vga: u8,
    reason: UnavailableReason,
)
    ensures
        state.gain_invalidated(GainConfig::Stages { lna, mixer, vga }, reason) == (
        ActiveStateInner {
            lna_gain: if lna == StageGain::Agc {
                state.lna_gain
            } else {
                ActiveValue::Unknown(reason)
            },
            mixer_gain: if mixer == StageGain::Agc {
                state.mixer_gain
            } else {
                ActiveValue::Unknown(reason)
            },
            vga_gain: ActiveValue::Unknown(reason),
            lna_agc: ActiveValue::Unknown(reason),
            mixer_agc: ActiveValue::Unknown(reason),
            ..state
        }),
{
}

/// Law: a manual gain or a preset that failed hides exactly the parts that it
/// writes, each for the reason given.
pub proof fn law_an_invalidated_gain_is_hidden_in_its_parts(
    state: ActiveStateInner,
    preset: GainPreset,
    lna: Option<u8>,
    mixer: Option<u8>,
    vga: Option<u8>,
    lna_agc: Option<bool>,
    mixer_agc: Option<bool>,
    reason: UnavailableReason,
)
    ensures
        state.gain_invalidated(
            GainConfig::Manual { lna, mixer, vga, lna_agc, mixer_agc },
            reason,
        ) == (ActiveStateInner {
            lna_gain: if lna is Some { ActiveValue::Unknown(reason) } else { state.lna_gain },
            mixer_gain: if mixer is Some { ActiveValue::Unknown(reason) } else { state.mixer_gain },
            vga_gain: if vga is Some { ActiveValue::Unknown(reason) } else { state.vga_gain },
            lna_agc: if lna_agc is Some { ActiveValue::Unknown(reason) } else { state.lna_agc },
            mixer_agc: if mixer_agc is Some {
                ActiveValue::Unknown(reason)
            } else {
                state.mixer_agc
            },
            ..state
        }),
        state.gain_invalidated(GainConfig::Preset(preset), reason) == (ActiveStateInner {
            lna_gain: ActiveValue::Unknown(reason),
            mixer_gain: ActiveValue::Unknown(reason),
            vga_gain: ActiveValue::Unknown(reason),
            lna_agc: ActiveValue::Unknown(reason),
            mixer_agc: ActiveValue::Unknown(reason),
            ..state
        }),
{
}

/// Law: a configuration writes the gain as a gain update does, and leaves alone the
/// RF port and the bias power where it does not name them.
pub proof fn law_a_configuration_includes_its_gain(
    state: ActiveStateInner,
    config: ConfigData,
    reason: UnavailableReason,
)
    ensures
        ({
            let after = state.config_applied(config);
            let gained = state.gain_applied(config.gain);
            &&& after.lna_gain == gained.lna_gain
            &&& after.mixer_gain == gained.mixer_gain
            &&& after.vga_gain == gained.vga_gain
            &&& after.lna_agc == gained.lna_agc
            &&& after.mixer_agc == gained.mixer_agc
            &&& config.rf_port is None ==> after.rf_port == state.rf_port
            &&& config.bias_tee is None ==> after.bias_tee == state.bias_tee
        }),
        ({
            let hidden = state.config_invalidated(config, reason);
            let lost = state.gain_invalidated(config.gain, reason);
            &&& hidden.lna_gain == lost.lna_gain
            &&& hidden.mixer_gain == lost.mixer_gain
            &&& hidden.vga_gain == lost.vga_gain
            &&& hidden.lna_agc == lost.lna_agc
            &&& hidden.mixer_agc == lost.mixer_agc
            &&& hidden.frequency_hz == ActiveValue::<u64>::Unknown(reason)
            &&& hidden.sample_rate_hz == ActiveValue::<u32>::Unknown(reason)
            &&& hidden.bandwidth == ActiveValue::<Bandwidth>::Unknown(reason)
            &&& hidden.sample_format == ActiveValue::<SampleFormat>::Unknown(reason)
            &&& hidden.decimation_mode == ActiveValue::<DecimationMode>::Unknown(reason)
            &&& hidden.packing == ActiveValue::<bool>::Unknown(reason)
            &&& config.rf_port is Some ==> hidden.rf_port == ActiveValue::<RfPort>::Unknown(reason)
            &&& config.bias_tee is Some ==> hidden.bias_tee == ActiveValue::<bool>::Unknown(reason)
        }),
{
}

/// Law: the update of one setting is known exactly where it succeeded, is unknown
/// while it is under way, and changes no other setting.
pub proof fn law_an_update_changes_its_own_setting(
    state: ActiveStateInner,
    frequency: u64,
    number: u32,
    port: RfPort,
    enabled: bool,
)
    ensures
        ({
            let failed = UnavailableReason::LastUpdateFailed;
            let under_way = UnavailableReason::UpdateIncomplete;
            &&& state.frequency_updated(frequency, true) == (ActiveStateInner {
                frequency_hz: ActiveValue::Known(frequency),
                ..state
            })
            &&& state.frequency_updated(frequency, false) == (ActiveStateInner {
                frequency_hz: ActiveValue::Unknown(failed),
                ..state
            })
            &&& state.frequency_updating() == (ActiveStateInner {
                frequency_hz: ActiveValue::Unknown(under_way),
                ..state
            })
            &&& state.sample_rate_updated(number, true) == (ActiveStateInner {
                sample_rate_hz: ActiveValue::Known(number),
                ..state
            })
            &&& state.sample_rate_updated(number, false) == (ActiveStateInner {
                sample_rate_hz: ActiveValue::Unknown(failed),
                ..state
            })
            &&& state.sample_rate_updating() == (ActiveStateInner {
                sample_rate_hz: ActiveValue::Unknown(under_way),
                ..state
            })
            &&& state.bandwidth_updated(number, true) == (ActiveStateInner {
                bandwidth: ActiveValue::Known(Bandwidth::ManualHz(number)),
                ..state
            })
            &&& state.bandwidth_updated(number, false) == (ActiveStateInner {
                bandwidth: ActiveValue::Unknown(failed),
                ..state
            })
            &&& state.bandwidth_updating() == (ActiveStateInner {
                bandwidth: ActiveValue::Unknown(under_way),
                ..state
            })
            &&& state.rf_port_updated(port, true) == (ActiveStateInner {
                rf_port: ActiveValue::Known(port),
                ..state
            })
            &&& state.rf_port_updated(port, false) == (ActiveStateInner {
                rf_port: ActiveValue::Unknown(failed),
                ..state
            })
            &&& state.rf_port_updating() == (ActiveStateInner {
                rf_port: ActiveValue::Unknown(under_way),
                ..state
            })
            &&& state.bias_tee_updated(enabled, true) == (ActiveStateInner {
                bias_tee: ActiveValue::Known(enabled),
                ..state
            })
            &&& state.bias_tee_updated(enabled, false) == (ActiveStateInner {
                bias_tee: ActiveValue::Unknown(failed),
                ..state
            })
            &&& state.bias_tee_updating() == (ActiveStateInner {
                bias_tee: ActiveValue::Unknown(under_way),
                ..state
            })
        }),
{
}

/// Law: in a coherent state the sample format, the decimation policy and the packing
/// are known together or not at all, and where they were written, so were the
/// frequency, the sample rate and the bandwidth. Only a gain is hidden by a preset.
pub proof fn law_what_coherence_means(state: ActiveStateInner)
    requires
        state.coherent(),
    ensures
        state.sample_format is Known <==> state.decimation_mode is Known,
        state.sample_format is Known <==> state.packing is Known,
        state.sample_format matches ActiveValue::Unknown(reason) ==> state.decimation_mode
            == ActiveValue::<DecimationMode>::Unknown(reason) && state.packing == ActiveValue::<
            bool,
        >::Unknown(reason),
        state.sample_format is Known ==> {
            &&& state.frequency_hz != ActiveValue::<u64>::Unknown(UnavailableReason::NeverApplied)
            &&& state.sample_rate_hz != ActiveValue::<u32>::Unknown(UnavailableReason::NeverApplied)
            &&& state.bandwidth != ActiveValue::<Bandwidth>::Unknown(
                UnavailableReason::NeverApplied,
            )
        },
        state.frequency_hz != ActiveValue::<u64>::Unknown(UnavailableReason::PresetNotReported),
        state.sample_rate_hz != ActiveValue::<u32>::Unknown(UnavailableReason::PresetNotReported),
        state.bandwidth != ActiveValue::<Bandwidth>::Unknown(UnavailableReason::PresetNotReported),
        state.sample_format != ActiveValue::<SampleFormat>::Unknown(
            UnavailableReason::PresetNotReported,
        ),
        state.rf_port != ActiveValue::<RfPort>::Unknown(UnavailableReason::PresetNotReported),
        state.bias_tee != ActiveValue::<bool>::Unknown(UnavailableReason::PresetNotReported),
{
}

} // verus!
