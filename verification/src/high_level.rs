//! HydraSDR RFOne devices: building, configuring and shutting down.

use crate::active_state::{ActiveRecord, ActiveState, ActiveStateInner, UnavailableReason};
use crate::commands::ReceiverMode;
use crate::config::{
    self, validate_bandwidth, validate_frequency, validate_gain, validate_sample_rate, Bandwidth,
    Config, ConfigBuilder, ConfigData, DeviceSelector, F32Iq, GainConfig, IntoGain, RawAdc, RfPort,
    SampleFormat, SampleMode,
};
use crate::device::{self, SelectedSampleRate};
use crate::direct::{self, config_outcome, prepare_config, ConfigPlan, HydraSdr};
use crate::errors::{Error, Result};
use crate::opening::OpenStage;
use crate::streaming::{self, Transfer};
use crate::types::{DecimationMode, DeviceInfo};
use crate::usb::control;
use crate::usb::sequence::{ControlSequence, Expect, SequenceView};
use core::marker::PhantomData;
use vstd::prelude::*;

verus! {

/// Builder that selects, opens, and initially configures a high-level device.
///
/// The generic mode defaults to [`F32Iq`].
///
/// Use [`DeviceBuilder::config`] to validate the same high-level settings without
/// opening hardware, or [`DeviceBuilder::begin_open`] to open a device with them.
#[derive(Debug)]
pub struct DeviceBuilder<M: SampleMode = F32Iq> {
    selector: DeviceSelector,
    config: ConfigBuilder<M>,
}

impl Default for DeviceBuilder<F32Iq> {
    fn default() -> (builder: Self)
        ensures
            builder.spec_selector() == DeviceSelector::First,
            builder.spec_data() == config::standard_config(SampleFormat::F32Iq),
    {
        DeviceBuilder { selector: DeviceSelector::First, config: ConfigBuilder::default() }
    }
}

impl<M: SampleMode> Clone for DeviceBuilder<M> {
    fn clone(&self) -> (copy: Self)
        ensures
            copy == *self,
    {
        DeviceBuilder { selector: self.selector, config: self.config.clone() }
    }
}

impl<M: SampleMode> DeviceBuilder<M> {
    /// Device that is selected.
    pub closed spec fn spec_selector(self) -> DeviceSelector {
        self.selector
    }

    /// Settings collected so far.
    pub closed spec fn spec_data(self) -> ConfigData {
        self.config.spec_data()
    }

    /// Device that is selected.
    pub fn selector(&self) -> (selector: DeviceSelector)
        ensures
            selector == self.spec_selector(),
    {
        self.selector
    }

    /// Select a device by parsed 64-bit serial number.
    pub fn serial(self, serial: u64) -> (builder: Self)
        ensures
            builder.spec_selector() == DeviceSelector::Serial(serial),
            builder.spec_data() == self.spec_data(),
    {
        DeviceBuilder { selector: DeviceSelector::Serial(serial), config: self.config }
    }

    /// Set the tuned center frequency in Hz.
    ///
    /// RFOne accepts center frequencies in the inclusive range
    /// `24_000_000..=1_800_000_000` Hz.
    pub fn frequency_hz(self, value: u64) -> (builder: Self)
        ensures
            builder.spec_selector() == self.spec_selector(),
            builder.spec_data() == (ConfigData { frequency_hz: value, ..self.spec_data() }),
    {
        DeviceBuilder { selector: self.selector, config: self.config.frequency_hz(value) }
    }

    /// Set the requested sample rate in Hz.
    ///
    /// For [`SampleFormat::RawAdc`] this is a real ADC rate; for
    /// [`SampleFormat::F32Iq`] it is the effective complex output rate after any
    /// host-side decimation.
    pub fn sample_rate_hz(self, value: u32) -> (builder: Self)
        ensures
            builder.spec_selector() == self.spec_selector(),
            builder.spec_data() == (ConfigData { sample_rate_hz: value, ..self.spec_data() }),
    {
        DeviceBuilder { selector: self.selector, config: self.config.sample_rate_hz(value) }
    }

    /// Set the analog bandwidth policy.
    ///
    /// The bound of [`Bandwidth::ManualHz`] reflects the vendor request encoding;
    /// current RFOne firmware does not advertise manual bandwidth control.
    pub fn bandwidth(self, value: Bandwidth) -> (builder: Self)
        ensures
            builder.spec_selector() == self.spec_selector(),
            builder.spec_data() == (ConfigData { bandwidth: value, ..self.spec_data() }),
    {
        DeviceBuilder { selector: self.selector, config: self.config.bandwidth(value) }
    }

    /// Set an explicit analog bandwidth in Hz.
    ///
    /// This is shorthand for [`DeviceBuilder::bandwidth`] with
    /// [`Bandwidth::ManualHz`].
    pub fn bandwidth_hz(self, value: u32) -> (builder: Self)
        ensures
            builder.spec_selector() == self.spec_selector(),
            builder.spec_data() == (ConfigData {
                bandwidth: Bandwidth::ManualHz(value),
                ..self.spec_data()
            }),
    {
        DeviceBuilder { selector: self.selector, config: self.config.bandwidth_hz(value) }
    }

    /// Select the RF input port.
    pub fn rf_port(self, value: RfPort) -> (builder: Self)
        ensures
            builder.spec_selector() == self.spec_selector(),
            builder.spec_data() == (ConfigData { rf_port: Some(value), ..self.spec_data() }),
    {
        DeviceBuilder { selector: self.selector, config: self.config.rf_port(value) }
    }

    /// Set the gain configuration.
    ///
    /// Preset gain indexes must be in the inclusive range `0..=21`.
    /// Manual component gains use the ranges documented on [`GainConfig::Manual`].
    pub fn gain<G: IntoGain>(self, value: G) -> (builder: Self)
        ensures
            builder.spec_selector() == self.spec_selector(),
            builder.spec_data() == (ConfigData { gain: value.spec_gain(), ..self.spec_data() }),
    {
        DeviceBuilder { selector: self.selector, config: self.config.gain(value) }
    }

    /// Enable or disable the RF port bias tee.
    pub fn bias_tee(self, enabled: bool) -> (builder: Self)
        ensures
            builder.spec_selector() == self.spec_selector(),
            builder.spec_data() == (ConfigData { bias_tee: Some(enabled), ..self.spec_data() }),
    {
        DeviceBuilder { selector: self.selector, config: self.config.bias_tee(enabled) }
    }

    /// Build the reusable configuration represented by this builder.
    pub fn config(self) -> (result: Result<Config<M>>)
        ensures
            result is Ok <==> self.spec_data().valid(),
            result matches Ok(config) ==> config.spec_data() == self.spec_data(),
            result matches Err(error) ==> self.spec_data().checked() == Err::<(), Error>(error),
    {
        self.config.build()
    }

    /// Begin to open the selected device.
    ///
    /// The configuration is validated before any device is touched.
    pub fn begin_open(self) -> (result: Result<Opening<M>>)
        ensures
            result is Ok <==> self.spec_data().valid(),
            result matches Ok(opening) ==> {
                &&& opening.stage == OpenStage::SelectDevice
                &&& opening.serial == self.spec_selector().spec_serial()
                &&& opening.config.spec_data() == self.spec_data()
            },
            result matches Err(error) ==> self.spec_data().checked() == Err::<(), Error>(error),
    {
        match self.config.build() {
            Err(error) => Err(error),
            Ok(config) => Ok(
                Opening { stage: OpenStage::begin(), serial: self.selector.serial(), config },
            ),
        }
    }
}

impl DeviceBuilder<RawAdc> {
    /// Enable or disable packed raw-sample transfers.
    pub fn packing(self, enabled: bool) -> (builder: Self)
        ensures
            builder.spec_selector() == self.spec_selector(),
            builder.spec_data() == (ConfigData { packing: enabled, ..self.spec_data() }),
    {
        DeviceBuilder { selector: self.selector, config: self.config.packing(enabled) }
    }
}

impl DeviceBuilder<F32Iq> {
    /// Select raw ADC samples instead of the default converted IQ mode.
    pub fn raw_adc(self) -> (builder: DeviceBuilder<RawAdc>)
        ensures
            builder.spec_selector() == self.spec_selector(),
            builder.spec_data() == (ConfigData {
                sample_format: SampleFormat::RawAdc,
                decimation_mode: DecimationMode::LowBandwidth,
                ..self.spec_data()
            }),
    {
        DeviceBuilder { selector: self.selector, config: self.config.raw_adc() }
    }

    /// Set the firmware/host decimation policy for float IQ samples.
    pub fn decimation_mode(self, value: DecimationMode) -> (builder: Self)
        ensures
            builder.spec_selector() == self.spec_selector(),
            builder.spec_data() == (ConfigData { decimation_mode: value, ..self.spec_data() }),
    {
        DeviceBuilder { selector: self.selector, config: self.config.decimation_mode(value) }
    }
}

/// Opening of a device under way.
#[derive(Debug)]
pub struct Opening<M: SampleMode> {
    /// Step to do next.
    pub stage: OpenStage,
    /// Serial number that the device must have, if one was selected.
    pub serial: Option<u64>,
    /// Initial configuration.
    pub config: Config<M>,
}

impl<M: SampleMode> Opening<M> {
    /// Take the result of the current step.
    pub fn advance(&mut self, result: Result<()>) -> (outcome: Result<()>)
        ensures
            final(self).serial == old(self).serial,
            final(self).config == old(self).config,
            match result {
                Ok(()) => outcome == Ok::<(), Error>(()) && final(self).stage == old(self).stage.spec_next(),
                Err(error) => outcome == Err::<(), Error>(old(self).stage.spec_failed(error))
                    && final(self).stage == old(self).stage,
            },
    {
        match self.stage.advance(result) {
            Err(error) => Err(error),
            Ok(stage) => {
                self.stage = stage;
                Ok(())
            },
        }
    }

    /// Requests that apply the initial configuration.
    pub fn config_plan(&self) -> (plan: ConfigPlan)
        ensures
            plan.sequence@ == direct::config_sequence(self.config.spec_data()),
            plan.applied == direct::applied_config(self.config.spec_data()),
    {
        let data: ConfigData = self.config.data();
        prepare_config(&data)
    }

    /// Device that was opened and configured, with its metadata.
    pub fn finish(self, info: DeviceInfo) -> (device: Device<M>)
        ensures
            device.inner.info == info,
            device.inner.active == crate::active_state::nothing_applied().config_applied(
                self.config.spec_data(),
            ),
            device.inner.shutdown_on_drop,
            direct::applied_config(self.config.spec_data()) matches Some(applied)
                ==> device.inner.direct@.reflects(applied),
            direct::applied_config(self.config.spec_data()) is None ==> device.inner.direct@.is_fresh(),
            device.inner.direct.spec_record() matches Some(record) && record.tells_of_config(
                info.active_state,
                self.config.spec_data(),
            ),
    {
        let data: ConfigData = self.config.data();
        let mut direct: HydraSdr = HydraSdr::new();
        if let Some(applied) = config_outcome(&data) {
            direct.apply_config_state(applied);
        }
        let mut active: ActiveStateInner = ActiveStateInner::default();
        active.apply_config(&data);
        direct.keep_record(info.active_state.record_config(&data));
        Device { inner: DeviceInner { direct, info, active, shutdown_on_drop: true }, mode: PhantomData }
    }
}

/// Borrowed high-level view of one raw receive block.
#[derive(Clone, Copy, Debug, Eq, PartialEq)]
pub struct SampleBlock<'a> {
    raw: &'a [u8],
    format: SampleFormat,
    sample_count: i32,
    dropped_samples: u64,
}

impl<'a> SampleBlock<'a> {
    /// Bytes of this block.
    pub closed spec fn spec_raw(self) -> Seq<u8> {
        self.raw@
    }

    /// Format of this block.
    pub closed spec fn spec_format(self) -> SampleFormat {
        self.format
    }

    /// Samples of this block.
    pub closed spec fn spec_sample_count(self) -> i32 {
        self.sample_count
    }

    /// Estimated samples dropped so far.
    pub closed spec fn spec_dropped_samples(self) -> u64 {
        self.dropped_samples
    }

    /// Block of these bytes.
    pub fn new(
        raw: &'a [u8],
        format: SampleFormat,
        sample_count: i32,
        dropped_samples: u64,
    ) -> (block: Self)
        ensures
            block.spec_raw() == raw@,
            block.spec_format() == format,
            block.spec_sample_count() == sample_count,
            block.spec_dropped_samples() == dropped_samples,
    {
        SampleBlock { raw, format, sample_count, dropped_samples }
    }

    /// Block of a raw transfer in `buffer`.
    pub fn from_transfer(buffer: &'a [u8], transfer: &Transfer) -> (block: Self)
        requires
            transfer.length <= buffer@.len(),
        ensures
            block.spec_raw() == buffer@.take(transfer.length as int),
            block.spec_format() == SampleFormat::RawAdc,
            block.spec_sample_count() == transfer.sample_count,
            block.spec_dropped_samples() == transfer.dropped_samples,
    {
        let raw: &'a [u8] = vstd::slice::slice_subrange(buffer, 0, transfer.length);
        assert(raw@ =~= buffer@.take(transfer.length as int));
        SampleBlock::new(
            raw,
            SampleFormat::RawAdc,
            transfer.sample_count,
            transfer.dropped_samples,
        )
    }

    /// Raw USB bytes for this sample block.
    pub fn raw_bytes(&self) -> (raw: &'a [u8])
        ensures
            raw@ == self.spec_raw(),
    {
        self.raw
    }

    /// Sample format of this block.
    pub fn sample_format(&self) -> (format: SampleFormat)
        ensures
            format == self.spec_format(),
    {
        self.format
    }

    /// Sample count reported for this block.
    pub fn sample_count(&self) -> (count: i32)
        ensures
            count == self.spec_sample_count(),
    {
        self.sample_count
    }

    /// Estimated sample count represented by USB buffers the driver discarded.
    ///
    /// RFOne transfers have no sequence numbers, so this cannot include samples
    /// lost inside the device while the host transfer queue was exhausted.
    pub fn dropped_samples(&self) -> (count: u64)
        ensures
            count == self.spec_dropped_samples(),
    {
        self.dropped_samples
    }
}

/// Device state, whatever its sample mode.
///
/// Each change of the authoritative receiver state is recorded in the shared
/// handle in the metadata, too.
pub struct DeviceInner {
    /// Direct device handle.
    pub direct: HydraSdr,
    /// Device metadata.
    pub info: DeviceInfo,
    /// Authoritative receiver state.
    pub active: ActiveStateInner,
    /// Whether the device is to be shut down when it is dropped.
    pub shutdown_on_drop: bool,
}

/// Outcome of a shutdown: both requests have to succeed, and the receiver's
/// error goes first.
pub open spec fn shutdown_outcome(receiver: Result<()>, bias: Result<()>) -> Result<()> {
    match (receiver, bias) {
        (Err(error), _) => Err(
            Error::Operation {
                operation: "turning off the receiver during shutdown",
                source: Box::new(error),
            },
        ),
        (Ok(()), Err(error)) => Err(
            Error::Operation {
                operation: "turning off RF bias power during shutdown",
                source: Box::new(error),
            },
        ),
        (Ok(()), Ok(())) => Ok(()),
    }
}

/// Outcome of the check that a raw stream can start.
pub open spec fn raw_stream_format(active: ActiveStateInner) -> Result<()> {
    match active.sample_format.spec_get("sample format") {
        Err(error) => Err(error),
        Ok(format) => if format != SampleFormat::RawAdc {
            Err(
                Error::InvalidConfig {
                    field: "sample_format",
                    reason: "raw block streams require SampleFormat::RawAdc",
                },
            )
        } else {
            match (
                active.sample_rate_hz.spec_get("sample rate"),
                active.packing.spec_get("packing"),
            ) {
                (Err(error), _) => Err(error),
                (Ok(_), Err(error)) => Err(error),
                (Ok(_), Ok(_)) => Ok(()),
            }
        },
    }
}

/// Outcome of the check that a converted stream can start.
pub open spec fn f32_stream_format(active: ActiveStateInner) -> Result<()> {
    match active.sample_format.spec_get("sample format") {
        Err(error) => Err(error),
        Ok(format) => if format != SampleFormat::F32Iq {
            Err(
                Error::InvalidConfig {
                    field: "sample_format",
                    reason: "F32 IQ streams require SampleFormat::F32Iq",
                },
            )
        } else {
            match (
                active.sample_rate_hz.spec_get("sample rate"),
                active.decimation_mode.spec_get("decimation mode"),
                active.packing.spec_get("packing"),
            ) {
                (Err(error), _, _) => Err(error),
                (Ok(_), Err(error), _) => Err(error),
                (Ok(_), Ok(_), Err(error)) => Err(error),
                (Ok(_), Ok(_), Ok(_)) => Ok(()),
            }
        },
    }
}

/// What validation says of a sample rate: the sample format has to be known.
pub open spec fn rate_validation(active: ActiveStateInner, rate: u32) -> Result<()> {
    match active.sample_format.spec_get("sample format") {
        Err(error) => Err(error),
        Ok(format) => config::checked_sample_rate(rate, format),
    }
}

impl DeviceInner {
    /// Whether this device differs from `other` only in its receiver state.
    pub open spec fn same_device(self, other: DeviceInner) -> bool {
        &&& self.direct == other.direct
        &&& self.info == other.info
        &&& self.shutdown_on_drop == other.shutdown_on_drop
    }

    /// Accept the start of a raw stream.
    pub fn ensure_raw_adc_stream_format(&self) -> (result: Result<()>)
        ensures
            result == raw_stream_format(self.active),
    {
        match self.active.sample_format() {
            Err(error) => return Err(error),
            Ok(format) => {
                if format != SampleFormat::RawAdc {
                    return Err(
                        Error::InvalidConfig {
                            field: "sample_format",
                            reason: "raw block streams require SampleFormat::RawAdc",
                        },
                    );
                }
            },
        }
        if let Err(error) = self.active.sample_rate_hz() {
            return Err(error);
        }
        if let Err(error) = self.active.packing() {
            return Err(error);
        }
        Ok(())
    }

    /// Accept the start of a converted stream.
    pub fn ensure_f32_iq_stream_format(&self) -> (result: Result<()>)
        ensures
            result == f32_stream_format(self.active),
    {
        match self.active.sample_format() {
            Err(error) => return Err(error),
            Ok(format) => {
                if format != SampleFormat::F32Iq {
                    return Err(
                        Error::InvalidConfig {
                            field: "sample_format",
                            reason: "F32 IQ streams require SampleFormat::F32Iq",
                        },
                    );
                }
            },
        }
        if let Err(error) = self.active.sample_rate_hz() {
            return Err(error);
        }
        if let Err(error) = self.active.decimation_mode() {
            return Err(error);
        }
        if let Err(error) = self.active.packing() {
            return Err(error);
        }
        Ok(())
    }

    /// Begin to apply a configuration: what it writes is unknown from here on.
    pub fn begin_configure(&mut self, config: &ConfigData) -> (plan: ConfigPlan)
        ensures
            final(self).same_device(*old(self)),
            final(self).active == old(self).active.config_invalidated(
                *config,
                UnavailableReason::UpdateIncomplete,
            ),
            plan.sequence@ == direct::config_sequence(*config),
            plan.applied == direct::applied_config(*config),
    {
        self.active.invalidate_config(config, UnavailableReason::UpdateIncomplete);
        self.info.active_state.begin_config(config);
        prepare_config(config)
    }

    /// Take the outcome of the requests of a configuration.
    pub fn finish_configure(&mut self, config: &ConfigData, result: Result<()>) -> (outcome: Result<
        (),
    >)
        ensures
            outcome == result,
            final(self).info == old(self).info,
            final(self).shutdown_on_drop == old(self).shutdown_on_drop,
            result is Ok ==> final(self).active == old(self).active.config_applied(*config),
            result is Ok ==> (direct::applied_config(*config) matches Some(applied) ==> final(self).direct@.reflects(applied)),
            result is Ok && direct::applied_config(*config) is None ==> final(self).direct == old(self).direct,
            result is Ok && direct::applied_config(*config) is Some ==> (
            final(self).direct.spec_record() matches Some(record) && record.tells_of_config(
                final(self).info.active_state,
                *config,
            )),
            result is Err ==> final(self).direct == old(self).direct && final(self).active == old(self).active.config_invalidated(*config, UnavailableReason::LastUpdateFailed),
    {
        if result.is_ok() {
            self.active.apply_config(config);
            let record: ActiveRecord = self.info.active_state.record_config(config);
            if let Some(applied) = config_outcome(config) {
                self.direct.apply_config_state(applied);
                self.direct.keep_record(record);
            }
        } else {
            self.active.invalidate_config(config, UnavailableReason::LastUpdateFailed);
            self.info.active_state.fail_config(config);
        }
        result
    }

    /// Sample rates that can be selected.
    pub fn sample_rates(&self) -> (rates: Vec<u32>)
        ensures
            self.direct@.sample_type == crate::types::SampleType::Raw ==> rates@
                == crate::rfone::RFONE_RAW_ADC_SAMPLE_RATES@,
            self.direct@.sample_type == crate::types::SampleType::Float32Iq ==> rates@
                == crate::rfone::RFONE_F32_IQ_SAMPLE_RATES@,
    {
        self.direct.visible_sample_rates()
    }

    /// Advertised analog bandwidths.
    pub fn bandwidths(&self) -> (result: Result<Vec<u32>>)
        ensures
            result == Err::<Vec<u32>, Error>(Error::Unsupported),
    {
        self.direct.get_bandwidths()
    }

    /// Begin to tune the receiver.
    pub fn begin_set_frequency_hz(&mut self, frequency_hz: u64) -> (result: Result<ControlSequence>)
        ensures
            final(self).same_device(*old(self)),
            config::valid_frequency(frequency_hz) ==> (result matches Ok(sequence) && sequence@
                == direct::single(control::spec_set_frequency(frequency_hz), Expect::Nothing))
                && final(self).active == old(self).active.frequency_updating(),
            !config::valid_frequency(frequency_hz) ==> (result matches Err(error)
                && config::checked_frequency(frequency_hz) == Err::<(), Error>(error)) && final(self).active == old(self).active.frequency_updated(frequency_hz, false),
    {
        self.active.begin_frequency_update();
        self.info.active_state.begin_frequency_update();
        let result: Result<ControlSequence> = match validate_frequency(frequency_hz) {
            Err(error) => Err(error),
            Ok(()) => self.direct.set_freq(frequency_hz),
        };
        if result.is_err() {
            self.active.set_frequency_result(frequency_hz, false);
            self.info.active_state.set_frequency_result(frequency_hz, false);
        }
        result
    }

    /// Take the outcome of the tuning request.
    pub fn finish_set_frequency_hz(&mut self, frequency_hz: u64, result: Result<()>) -> (outcome:
        Result<()>)
        ensures
            outcome == result,
            final(self).same_device(*old(self)),
            final(self).active == old(self).active.frequency_updated(frequency_hz, result is Ok),
    {
        self.active.set_frequency_result(frequency_hz, result.is_ok());
        self.info.active_state.set_frequency_result(frequency_hz, result.is_ok());
        result
    }

    /// Begin to select a sample rate.
    pub fn begin_set_sample_rate_hz(&mut self, rate: u32) -> (result: Result<
        (ControlSequence, SelectedSampleRate),
    >)
        ensures
            final(self).same_device(*old(self)),
            match rate_validation(old(self).active, rate) {
                Err(error) => result == Err::<(ControlSequence, SelectedSampleRate), Error>(error)
                    && final(self).active == old(self).active.sample_rate_updated(rate, false),
                Ok(()) => match device::rate_selection(
                    old(self).direct@.sample_type,
                    old(self).direct@.decimation_mode,
                    rate,
                ) {
                    None => result == Err::<(ControlSequence, SelectedSampleRate), Error>(
                        device::unsupported_rate_error(),
                    ) && final(self).active == old(self).active.sample_rate_updated(rate, false),
                    Some(selected) => (result matches Ok(plan) && plan.1 == selected && plan.0@
                        == direct::single(
                        control::spec_set_samplerate(selected.param),
                        direct::rate_accepted(),
                    )) && final(self).active == old(self).active.sample_rate_updating(),
                },
            },
    {
        self.active.begin_sample_rate_update();
        self.info.active_state.begin_sample_rate_update();
        let validation: Result<()> = match self.active.sample_format() {
            Err(error) => Err(error),
            Ok(format) => validate_sample_rate(rate, format),
        };
        let result: Result<(ControlSequence, SelectedSampleRate)> = match validation {
            Err(error) => Err(error),
            Ok(()) => self.direct.set_samplerate(rate),
        };
        if result.is_err() {
            self.active.set_sample_rate_result(rate, false);
            self.info.active_state.set_sample_rate_result(rate, false);
        }
        result
    }

    /// Take the outcome of the sample-rate request.
    pub fn finish_set_sample_rate_hz(
        &mut self,
        rate: u32,
        selected: SelectedSampleRate,
        result: Result<()>,
    ) -> (outcome: Result<()>)
        ensures
            outcome == match result {
                Err(error) => Err(error),
                Ok(()) => if streaming::valid_decimation(selected.decimation as usize) {
                    Ok(())
                } else {
                    Err(streaming::decimation_error())
                },
            },
            final(self).info == old(self).info,
            final(self).shutdown_on_drop == old(self).shutdown_on_drop,
            final(self).active == old(self).active.sample_rate_updated(rate, outcome is Ok),
            outcome is Err ==> final(self).direct@ == old(self).direct@,
            outcome is Ok ==> {
                &&& final(self).direct@.sample_type == old(self).direct@.sample_type
                &&& final(self).direct@.decimation_mode == old(self).direct@.decimation_mode
                &&& final(self).direct@.streaming.spec_decimation() == selected.decimation
                &&& final(self).direct@.streaming.spec_packing() == old(self).direct@.streaming.spec_packing()
            },
            final(self).direct.spec_record() matches Some(record) && record.tells_of_sample_rate(
                final(self).info.active_state,
                rate,
                outcome is Ok,
            ),
    {
        let outcome: Result<()> = match result {
            Err(error) => Err(error),
            Ok(()) => {
                let mode: DecimationMode = self.direct.decimation_mode();
                self.direct.apply_samplerate(selected, mode)
            },
        };
        self.active.set_sample_rate_result(rate, outcome.is_ok());
        self.direct.keep_record(self.info.active_state.record_sample_rate(rate, outcome.is_ok()));
        outcome
    }

    /// Select an analog bandwidth. The firmware has none, so that this always
    /// fails.
    pub fn set_bandwidth_hz(&mut self, bandwidth_hz: u32) -> (result: Result<()>)
        ensures
            final(self).same_device(*old(self)),
            final(self).active == old(self).active.bandwidth_updated(bandwidth_hz, false),
            result == if config::valid_bandwidth(Bandwidth::ManualHz(bandwidth_hz)) {
                Err(Error::Unsupported)
            } else {
                config::checked_bandwidth(Bandwidth::ManualHz(bandwidth_hz))
            },
    {
        self.active.begin_bandwidth_update();
        self.info.active_state.begin_bandwidth_update();
        let result: Result<()> = match validate_bandwidth(Bandwidth::ManualHz(bandwidth_hz)) {
            Err(error) => Err(error),
            Ok(()) => match self.direct.set_bandwidth(bandwidth_hz) {
                Err(error) => Err(error),
                Ok(_) => Ok(()),
            },
        };
        self.active.set_bandwidth_result(bandwidth_hz, result.is_ok());
        self.info.active_state.set_bandwidth_result(bandwidth_hz, result.is_ok());
        result
    }

    /// Begin to select an RF input port.
    pub fn begin_set_rf_port(&mut self, port: RfPort) -> (sequence: ControlSequence)
        ensures
            final(self).same_device(*old(self)),
            final(self).active == old(self).active.rf_port_updating(),
            sequence@ == direct::single(control::spec_set_rf_port(port), direct::port_accepted()),
    {
        self.active.begin_rf_port_update();
        self.info.active_state.begin_rf_port_update();
        self.direct.set_rf_port(port)
    }

    /// Take the outcome of the RF port request.
    pub fn finish_set_rf_port(&mut self, port: RfPort, result: Result<()>) -> (outcome: Result<()>)
        ensures
            outcome == result,
            final(self).same_device(*old(self)),
            final(self).active == old(self).active.rf_port_updated(port, result is Ok),
    {
        self.active.set_rf_port_result(port, result.is_ok());
        self.info.active_state.set_rf_port_result(port, result.is_ok());
        result
    }

    /// Begin to apply a gain.
    pub fn begin_set_gain(&mut self, gain: GainConfig) -> (result: Result<ControlSequence>)
        ensures
            final(self).same_device(*old(self)),
            config::valid_gain(gain) ==> (result matches Ok(sequence) && sequence@ == (
            SequenceView {
                remaining: direct::gain_steps(device::gain_requests(gain)),
                failure: None,
            })) && final(self).active == old(self).active.gain_invalidated(
                gain,
                UnavailableReason::UpdateIncomplete,
            ),
            !config::valid_gain(gain) ==> (result matches Err(error) && config::checked_gain(gain)
                == Err::<(), Error>(error)) && final(self).active == old(self).active.gain_invalidated(gain, UnavailableReason::LastUpdateFailed),
    {
        self.active.invalidate_gain(gain, UnavailableReason::UpdateIncomplete);
        self.info.active_state.begin_gain_update(gain);
        let result: Result<ControlSequence> = match validate_gain(gain) {
            Err(error) => Err(error),
            Ok(()) => Ok(self.direct.set_gain_config(gain)),
        };
        if result.is_err() {
            self.active.set_gain_result(gain, false);
            self.info.active_state.set_gain_result(gain, false);
        }
        result
    }

    /// Take the outcome of the gain requests.
    pub fn finish_set_gain(&mut self, gain: GainConfig, result: Result<()>) -> (outcome: Result<()>)
        ensures
            outcome == result,
            final(self).same_device(*old(self)),
            final(self).active == old(self).active.gain_updated(gain, result is Ok),
    {
        self.active.set_gain_result(gain, result.is_ok());
        self.info.active_state.set_gain_result(gain, result.is_ok());
        result
    }

    /// Replace the metadata by what was read again. The receiver state stays.
    pub fn refresh_info(&mut self, info: DeviceInfo)
        ensures
            final(self).direct == old(self).direct,
            final(self).active == old(self).active,
            final(self).shutdown_on_drop == old(self).shutdown_on_drop,
            final(self).info.active_state == old(self).info.active_state,
            final(self).info == (DeviceInfo {
                active_state: old(self).info.active_state,
                ..info
            }),
    {
        let active_state: ActiveState = self.info.active_state.clone();
        self.info = DeviceInfo { active_state, ..info };
    }

    /// Begin a shutdown: the receiver and then the bias power are switched off,
    /// each whatever becomes of the other.
    pub fn begin_shutdown(&mut self) -> (sequences: (ControlSequence, ControlSequence))
        ensures
            final(self).same_device(*old(self)),
            final(self).active == old(self).active.bias_tee_updating(),
            sequences.0@ == direct::single(
                control::spec_receiver_mode(ReceiverMode::Off),
                Expect::Nothing,
            ),
            sequences.1@ == direct::single(control::spec_set_rf_bias(0), Expect::Nothing),
    {
        self.active.begin_bias_tee_update();
        self.info.active_state.begin_bias_tee_update();
        (self.direct.receiver_mode(ReceiverMode::Off), self.direct.set_rf_bias(false))
    }

    /// Take the outcomes of both shutdown requests.
    ///
    /// A shutdown that succeeded is not repeated when the device is dropped.
    pub fn finish_shutdown(&mut self, receiver: Result<()>, bias: Result<()>) -> (outcome: Result<
        (),
    >)
        ensures
            outcome == shutdown_outcome(receiver, bias),
            final(self).direct == old(self).direct,
            final(self).info == old(self).info,
            final(self).active == old(self).active.bias_tee_updated(false, bias is Ok),
            final(self).shutdown_on_drop == (old(self).shutdown_on_drop && outcome is Err),
    {
        self.active.set_bias_tee_result(false, bias.is_ok());
        self.info.active_state.set_bias_tee_result(false, bias.is_ok());
        let outcome: Result<()> = match receiver {
            Err(error) => Err(error.at("turning off the receiver during shutdown")),
            Ok(()) => match bias {
                Err(error) => Err(error.at("turning off RF bias power during shutdown")),
                Ok(()) => Ok(()),
            },
        };
        if outcome.is_ok() {
            self.shutdown_on_drop = false;
        }
        outcome
    }

    /// Whether a dropped device still has to be shut down. It is asked once.
    pub fn take_shutdown_on_drop(&mut self) -> (due: bool)
        ensures
            due == old(self).shutdown_on_drop,
            *final(self) == (DeviceInner { shutdown_on_drop: false, ..*old(self) }),
    {
        let due: bool = self.shutdown_on_drop;
        self.shutdown_on_drop = false;
        due
    }
}

/// Law: a shutdown succeeds exactly when both of its requests do.
pub proof fn law_a_shutdown_needs_both_requests(receiver: Result<()>, bias: Result<()>)
    ensures
        shutdown_outcome(receiver, bias) is Ok <==> receiver is Ok && bias is Ok,
{
}

/// Law: the bias power is reported off after a shutdown exactly when its request
/// succeeded, whatever became of the receiver.
pub proof fn law_bias_power_is_reported_off_when_it_is(active: ActiveStateInner, bias: Result<()>)
    ensures
        active.bias_tee_updated(false, bias is Ok).bias_tee.spec_get("bias tee") == Ok::<
            bool,
            Error,
        >(false) <==> bias is Ok,
{
}

/// Law: a device whose configuration was applied can start the stream of its
/// format, and no other.
pub proof fn law_a_configured_device_streams_its_format(
    active: ActiveStateInner,
    config: ConfigData,
)
    ensures
        raw_stream_format(active.config_applied(config)) is Ok <==> config.sample_format
            == SampleFormat::RawAdc,
        f32_stream_format(active.config_applied(config)) is Ok <==> config.sample_format
            == SampleFormat::F32Iq,
{
}

/// Law: a device whose configuration failed or is under way starts no stream.
pub proof fn law_an_unconfigured_device_streams_nothing(
    active: ActiveStateInner,
    config: ConfigData,
    reason: UnavailableReason,
)
    ensures
        raw_stream_format(active.config_invalidated(config, reason)) is Err,
        f32_stream_format(active.config_invalidated(config, reason)) is Err,
{
}

/// High-level owned HydraSDR RFOne device handle.
///
/// The generic mode defaults to [`F32Iq`]. Use [`DeviceBuilder::raw_adc`] to
/// construct a [`Device<RawAdc>`].
pub struct Device<M: SampleMode = F32Iq> {
    /// Device state.
    pub inner: DeviceInner,
    /// Sample mode.
    pub mode: PhantomData<M>,
}

impl Device<F32Iq> {
    /// Start building and opening a high-level USB device.
    pub fn builder() -> (builder: DeviceBuilder<F32Iq>)
        ensures
            builder.spec_selector() == DeviceSelector::First,
            builder.spec_data() == config::standard_config(SampleFormat::F32Iq),
    {
        DeviceBuilder::default()
    }
}

impl<M: SampleMode> Device<M> {
    /// Return cached device metadata.
    pub fn info(&self) -> (info: &DeviceInfo)
        ensures
            *info == self.inner.info,
    {
        &self.inner.info
    }

    /// Return a shared handle to the authoritative active receiver state.
    pub fn active_state(&self) -> (handle: ActiveState)
        ensures
            handle == self.inner.info.active_state,
    {
        self.inner.info.active_state.clone()
    }
}

/// Law: a shutdown reports the receiver's failure under its own operation, and the
/// bias power's where only that failed.
pub proof fn law_a_failed_shutdown_names_what_failed(error: Error, bias: Result<()>)
    ensures
        shutdown_outcome(Err(error), bias) == Err::<(), Error>(
            Error::Operation {
                operation: "turning off the receiver during shutdown",
                source: Box::new(error),
            },
        ),
        shutdown_outcome(Ok(()), Err(error)) == Err::<(), Error>(
            Error::Operation {
                operation: "turning off RF bias power during shutdown",
                source: Box::new(error),
            },
        ),
        shutdown_outcome(Ok(()), Ok(())) == Ok::<(), Error>(()),
{
}

/// Law: a stream may start exactly where its own format is active and everything
/// else that it depends on is known.
pub proof fn law_a_stream_needs_a_known_configuration(active: ActiveStateInner)
    ensures
        raw_stream_format(active) is Ok <==> active.sample_format == (
        crate::active_state::ActiveValue::Known(SampleFormat::RawAdc)) && active.sample_rate_hz
            is Known && active.packing is Known,
        f32_stream_format(active) is Ok <==> active.sample_format == (
        crate::active_state::ActiveValue::Known(SampleFormat::F32Iq)) && active.sample_rate_hz
            is Known && active.decimation_mode is Known && active.packing is Known,
        active.sample_format == crate::active_state::ActiveValue::Known(SampleFormat::F32Iq)
            ==> raw_stream_format(active) == Err::<(), Error>(
            Error::InvalidConfig {
                field: "sample_format",
                reason: "raw block streams require SampleFormat::RawAdc",
            },
        ),
        active.sample_format == crate::active_state::ActiveValue::Known(SampleFormat::RawAdc)
            ==> f32_stream_format(active) == Err::<(), Error>(
            Error::InvalidConfig {
                field: "sample_format",
                reason: "F32 IQ streams require SampleFormat::F32Iq",
            },
        ),
{
}

/// Law: a sample rate is held to the format that is active, and refused while none
/// is known.
pub proof fn law_a_rate_is_held_to_the_active_format(
    active: ActiveStateInner,
    config: ConfigData,
    rate: u32,
)
    ensures
        rate_validation(active.config_applied(config), rate) == config::checked_sample_rate(
            rate,
            config.sample_format,
        ),
        active.sample_format is Unknown ==> rate_validation(active, rate) is Err,
{
}

/// Law: what the shared handle of a device was told when the device was opened is
/// what the device itself records, in every setting that the initial configuration
/// names.
pub proof fn law_an_opened_device_and_its_handle_agree(
    record: ActiveRecord,
    handle: ActiveState,
    config: ConfigData,
)
    requires
        record.tells_of_config(handle, config),
    ensures
        ({
            let told = record.spec_state();
            let own = crate::active_state::nothing_applied().config_applied(config);
            &&& told.frequency_hz == own.frequency_hz
            &&& told.sample_rate_hz == own.sample_rate_hz
            &&& told.bandwidth == own.bandwidth
            &&& told.sample_format == own.sample_format
            &&& told.decimation_mode == own.decimation_mode
            &&& told.packing == own.packing
            &&& config.rf_port is Some ==> told.rf_port == own.rf_port
            &&& config.bias_tee is Some ==> told.bias_tee == own.bias_tee
            &&& config.gain is Preset ==> told.lna_gain == own.lna_gain && told.mixer_gain
                == own.mixer_gain && told.vga_gain == own.vga_gain && told.lna_agc == own.lna_agc
                && told.mixer_agc == own.mixer_agc
            &&& config.gain matches GainConfig::Manual { lna, mixer, vga, lna_agc, mixer_agc }
                ==> {
                &&& lna is Some ==> told.lna_gain == own.lna_gain
                &&& mixer is Some ==> told.mixer_gain == own.mixer_gain
                &&& vga is Some ==> told.vga_gain == own.vga_gain
                &&& lna_agc is Some ==> told.lna_agc == own.lna_agc
                &&& mixer_agc is Some ==> told.mixer_agc == own.mixer_agc
            }
        }),
{
    crate::active_state::law_a_record_tells_of_every_setting(record, handle, config);
}

/// Law: an operation on the same device leaves its handle, its metadata and its
/// shutdown as they were.
pub proof fn law_the_same_device_keeps_its_parts(one: DeviceInner, other: DeviceInner)
    ensures
        one.same_device(other) <==> one.direct == other.direct && one.info == other.info
            && one.shutdown_on_drop == other.shutdown_on_drop,
{
}

} // verus!
