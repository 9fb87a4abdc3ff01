//! Direct device handle: what the host knows of the device, and the requests
//! that change it.

use crate::active_state::ActiveRecord;
use crate::commands::{ReceiverMode, VendorRequest};
use crate::config::{self, Bandwidth, ConfigData, GainConfig, RfPort};
use crate::device::{self, gain_config_plan, sample_rate_config, SelectedSampleRate};
use crate::errors::{Error, Result, StatusCode};
use crate::rfone::{RFONE_F32_IQ_SAMPLE_RATES, RFONE_RAW_ADC_SAMPLE_RATES};
use crate::streaming::{self, StreamingConfig};
use crate::types::{DecimationMode, SampleType};
use crate::usb::control::{self, RequestView, VendorControlRequest};
use crate::usb::sequence::{self, ControlSequence, ControlStep, Expect, SequenceView, StepView};
use vstd::prelude::*;

verus! {

/// Highest frequency that the direct layer sends, in Hz.
pub const MAX_FREQ_HZ: u64 = 10_000_000_000;

/// Expectation on the reply to a sample-rate selection.
pub open spec fn rate_accepted() -> Expect {
    Expect::Accepted {
        operation: "set sample rate",
        reason: "firmware rejected the selected sample rate",
    }
}

/// Expectation on the reply to an RF port selection.
pub open spec fn port_accepted() -> Expect {
    Expect::Accepted {
        operation: "set RF port",
        reason: "firmware rejected the requested RF port",
    }
}

/// Expectation on the reply to a sample-rate selection.
fn samplerate_expectation() -> (expect: Expect)
    ensures
        expect == rate_accepted(),
{
    Expect::Accepted {
        operation: "set sample rate",
        reason: "firmware rejected the selected sample rate",
    }
}

/// Expectation on the reply to an RF port selection.
fn rf_port_expectation() -> (expect: Expect)
    ensures
        expect == port_accepted(),
{
    Expect::Accepted {
        operation: "set RF port",
        reason: "firmware rejected the requested RF port",
    }
}

/// Accept the reply to a sample-rate selection: its first byte has to be 1.
pub fn validate_samplerate_response(response: &[u8]) -> (result: Result<()>)
    ensures
        result == if response@.len() > 0 && response@[0] == 1 {
            Ok(())
        } else {
            Err(
                Error::Protocol {
                    operation: "set sample rate",
                    reason: "firmware rejected the selected sample rate",
                    status: StatusCode::InvalidParam,
                },
            )
        },
{
    if response.len() == 0 || response[0] != 1 {
        return Err(
            Error::Protocol {
                operation: "set sample rate",
                reason: "firmware rejected the selected sample rate",
                status: StatusCode::InvalidParam,
            },
        );
    }
    Ok(())
}

/// Step that sends `request`.
pub open spec fn step(request: RequestView, expect: Expect) -> StepView {
    StepView { request, expect }
}

/// Steps of a list of gain requests, each of which returns a byte.
pub open spec fn gain_steps(requests: Seq<RequestView>) -> Seq<StepView> {
    requests.map_values(|request: RequestView| step(request, Expect::AtLeast(1)))
}

/// Step that selects the RF port, where one is to be selected.
pub open spec fn port_steps(port: Option<RfPort>) -> Seq<StepView> {
    match port {
        None => Seq::empty(),
        Some(port) => seq![step(control::spec_set_rf_port(port), port_accepted())],
    }
}

/// Step that switches the bias power, where it is to be switched.
pub open spec fn bias_steps(bias_tee: Option<bool>) -> Seq<StepView> {
    match bias_tee {
        None => Seq::empty(),
        Some(enabled) => seq![
            step(control::spec_set_rf_bias(device::switch_byte(enabled)), Expect::Nothing),
        ],
    }
}

/// Step that tunes the receiver.
pub open spec fn tune_step(frequency_hz: u64) -> StepView {
    step(control::spec_set_frequency(frequency_hz), Expect::Nothing)
}

/// Step that switches packed transfers.
pub open spec fn packing_step(packing: bool) -> StepView {
    step(control::spec_set_packing(device::switch_byte(packing)), Expect::AtLeast(1))
}

/// Steps that follow the tuning in a configuration: sample rate, RF port, gain,
/// packing, and last the bias power.
pub open spec fn steps_after_tuning(config: ConfigData, selected: SelectedSampleRate) -> Seq<
    StepView,
> {
    seq![step(control::spec_set_samplerate(selected.param), rate_accepted())] + port_steps(
        config.rf_port,
    ) + gain_steps(device::gain_requests(config.gain)) + seq![packing_step(config.packing)]
        + bias_steps(config.bias_tee)
}

/// How the sample rate of a configuration is requested, if it is supported.
pub open spec fn config_rate(config: ConfigData) -> Option<SelectedSampleRate> {
    device::rate_selection(
        config.sample_format.spec_sample_type(),
        config.decimation_mode,
        config.sample_rate_hz,
    )
}

/// What stops a configuration on the host once the receiver is tuned, if
/// anything does.
pub open spec fn config_failure(config: ConfigData) -> Option<Error> {
    if config.bandwidth != Bandwidth::Auto {
        Some(Error::Unsupported)
    } else if config_rate(config) is None {
        Some(device::unsupported_rate_error())
    } else {
        None
    }
}

/// Control requests that apply a configuration.
pub open spec fn config_sequence(config: ConfigData) -> SequenceView {
    match config_failure(config) {
        Some(error) => SequenceView {
            remaining: seq![tune_step(config.frequency_hz)],
            failure: Some(error),
        },
        None => SequenceView {
            remaining: seq![tune_step(config.frequency_hz)] + steps_after_tuning(
                config,
                config_rate(config)->0,
            ),
            failure: None,
        },
    }
}

/// Host state of an applied configuration.
#[derive(Clone, Copy, Debug, Eq, PartialEq, Structural)]
pub struct AppliedConfig {
    /// Sample type.
    pub sample_type: SampleType,
    /// Decimation policy.
    pub decimation_mode: DecimationMode,
    /// Host-side decimation factor.
    pub decimation: u32,
    /// Whether transfers are packed.
    pub packing: bool,
}

/// Host state of `config` once it is applied, if it can be.
pub open spec fn applied_config(config: ConfigData) -> Option<AppliedConfig> {
    if config_failure(config) is Some {
        None
    } else {
        Some(
            AppliedConfig {
                sample_type: config.sample_format.spec_sample_type(),
                decimation_mode: config.decimation_mode,
                decimation: config_rate(config)->0.decimation,
                packing: config.packing,
            },
        )
    }
}

/// Control requests that apply a configuration, and the host state afterwards.
#[derive(Debug)]
pub struct ConfigPlan {
    /// Requests to send.
    pub sequence: ControlSequence,
    /// Host state once the requests succeeded.
    pub applied: Option<AppliedConfig>,
}

/// Append one step.
fn push_step(steps: &mut Vec<ControlStep>, request: VendorControlRequest, expect: Expect)
    ensures
        sequence::step_views(final(steps)@) == sequence::step_views(old(steps)@).push(
            step(request@, expect),
        ),
{
    steps.push(ControlStep { request, expect });
    assert(sequence::step_views(steps@) =~= sequence::step_views(old(steps)@).push(
        step(request@, expect),
    ));
}

/// Append the steps of a list of gain requests.
fn push_gain_steps(steps: &mut Vec<ControlStep>, requests: Vec<VendorControlRequest>)
    ensures
        sequence::step_views(final(steps)@) == sequence::step_views(old(steps)@) + gain_steps(
            device::request_views(requests@),
        ),
{
    let ghost before = sequence::step_views(steps@);
    let ghost views = device::request_views(requests@);
    let mut rest: Vec<VendorControlRequest> = requests;
    assert(gain_steps(views).take(0) =~= Seq::empty());
    while rest.len() > 0
        invariant
            rest@.len() <= views.len(),
            device::request_views(rest@) == views.skip(views.len() - rest@.len()),
            sequence::step_views(steps@) == before + gain_steps(views).take(
                views.len() - rest@.len(),
            ),
        decreases rest@.len(),
    {
        let ghost done = views.len() - rest@.len();
        let ghost left = rest@;
        let request: VendorControlRequest = rest.remove(0);
        push_step(steps, request, Expect::AtLeast(1));
        proof {
            assert(device::request_views(left)[0] == request@);
            assert forall|i: int| 0 <= i < rest@.len() implies #[trigger] device::request_views(
                rest@,
            )[i] == views.skip(done + 1)[i] by {
                assert(rest@[i] == left[i + 1]);
                assert(device::request_views(left)[i + 1] == views.skip(done)[i + 1]);
            }
            assert(device::request_views(rest@) =~= views.skip(done + 1));
            assert(before + gain_steps(views).take(done + 1) =~= (before + gain_steps(views).take(
                done,
            )).push(step(request@, Expect::AtLeast(1))));
        }
    }
    assert(gain_steps(views).take(views.len() as int) =~= gain_steps(views));
}

/// Plan the control requests that apply a configuration.
pub fn prepare_config(config: &ConfigData) -> (plan: ConfigPlan)
    ensures
        plan.sequence@ == config_sequence(*config),
        plan.applied == applied_config(*config),
{
    let mut steps: Vec<ControlStep> = Vec::new();
    push_step(
        &mut steps,
        VendorControlRequest::set_frequency(config.frequency_hz),
        Expect::Nothing,
    );
    assert(sequence::step_views(steps@) =~= seq![tune_step(config.frequency_hz)]);
    if config.bandwidth != Bandwidth::Auto {
        return ConfigPlan {
            sequence: ControlSequence::new(steps, Some(Error::Unsupported)),
            applied: None,
        };
    }
    let sample_type: SampleType = config.sample_format.sample_type();
    let selected: SelectedSampleRate = match sample_rate_config(
        sample_type,
        config.decimation_mode,
        config.sample_rate_hz,
    ) {
        Err(error) => {
            return ConfigPlan {
                sequence: ControlSequence::new(steps, Some(error)),
                applied: None,
            };
        },
        Ok(selected) => selected,
    };
    push_step(
        &mut steps,
        VendorControlRequest::set_samplerate(selected.param),
        samplerate_expectation(),
    );
    if let Some(port) = config.rf_port {
        push_step(&mut steps, VendorControlRequest::set_rf_port(port), rf_port_expectation());
    }
    push_gain_steps(&mut steps, gain_config_plan(config.gain));
    push_step(
        &mut steps,
        VendorControlRequest::set_packing(if config.packing { 1 } else { 0 }),
        Expect::AtLeast(1),
    );
    if let Some(enabled) = config.bias_tee {
        push_step(
            &mut steps,
            VendorControlRequest::set_rf_bias(if enabled { 1 } else { 0 }),
            Expect::Nothing,
        );
    }
    assert(sequence::step_views(steps@) =~= config_sequence(*config).remaining);
    ConfigPlan {
        sequence: ControlSequence::new(steps, None),
        applied: Some(
            AppliedConfig {
                sample_type,
                decimation_mode: config.decimation_mode,
                decimation: selected.decimation,
                packing: config.packing,
            },
        ),
    }
}

/// Host state of `config` once it is applied, if it can be.
pub fn config_outcome(config: &ConfigData) -> (applied: Option<AppliedConfig>)
    ensures
        applied == applied_config(*config),
        applied matches Some(state) ==> streaming::valid_decimation(state.decimation as usize),
{
    if config.bandwidth != Bandwidth::Auto {
        return None;
    }
    let sample_type: SampleType = config.sample_format.sample_type();
    match sample_rate_config(sample_type, config.decimation_mode, config.sample_rate_hz) {
        Err(_) => None,
        Ok(selected) => {
            proof {
                law_an_applied_decimation_is_valid(*config);
            }
            Some(
                AppliedConfig {
                    sample_type,
                    decimation_mode: config.decimation_mode,
                    decimation: selected.decimation,
                    packing: config.packing,
                },
            )
        },
    }
}

/// Law: applying a configuration tunes the receiver first.
pub proof fn law_the_receiver_is_tuned_first(config: ConfigData)
    ensures
        config_sequence(config).remaining.len() > 0,
        config_sequence(config).remaining[0] == tune_step(config.frequency_hz),
{
}

/// Law: applying a configuration switches the bias power with its last request,
/// right after the packing request, and only where the configuration says so.
pub proof fn law_the_bias_power_is_switched_last(config: ConfigData, i: int)
    requires
        0 <= i < config_sequence(config).remaining.len(),
        config_sequence(config).remaining[i].request.request == VendorRequest::SetRfBiasCmd,
    ensures
        config.bias_tee is Some,
        i == config_sequence(config).remaining.len() - 1,
        config_sequence(config).remaining[i - 1] == packing_step(config.packing),
{
    let steps = config_sequence(config).remaining;
    if config_failure(config) is None {
        device::law_gain_plans_are_short(config.gain);
        let gains = device::gain_requests(config.gain);
        let first = 2 + port_steps(config.rf_port).len();
        if first <= i < first + gains.len() {
            assert(steps[i] == gain_steps(gains)[i - first]);
            assert(device::writes_gain(gains[i - first].request));
        }
    }
}

/// Law: where any request before the last is refused or fails, a configuration
/// never touches the bias power. In particular a packing failure does not enable
/// it.
pub proof fn law_a_failed_configuration_leaves_the_bias_power_alone(
    config: ConfigData,
    replies: Seq<Result<Seq<u8>>>,
    failed: int,
)
    requires
        0 <= failed < config_sequence(config).remaining.len() - 1,
        failed < replies.len(),
        sequence::checked_transfer(
            config_sequence(config).remaining[failed].expect,
            replies[failed],
        ) is Err,
    ensures
        ({
            let sent = sequence::course(config_sequence(config), replies).sent;
            forall|i: int|
                0 <= i < sent.len() ==> (#[trigger] sent[i]).request != VendorRequest::SetRfBiasCmd
        }),
{
    let plan = config_sequence(config);
    let sent = sequence::course(plan, replies).sent;
    sequence::law_nothing_is_sent_after_a_failure(plan, replies, failed);
    sequence::law_requests_sent_are_a_prefix(plan, replies);
    assert forall|i: int| 0 <= i < sent.len() implies (#[trigger] sent[i]).request
        != VendorRequest::SetRfBiasCmd by {
        assert(sent[i] == sequence::requests(plan.remaining)[i]);
        if sent[i].request == VendorRequest::SetRfBiasCmd {
            law_the_bias_power_is_switched_last(config, i);
        }
    }
}

/// Law: a configuration succeeds only if the host supports it and the device
/// accepts every one of its requests, and then all of them were sent.
pub proof fn law_a_configuration_succeeds_as_a_whole(
    config: ConfigData,
    replies: Seq<Result<Seq<u8>>>,
)
    requires
        replies.len() >= config_sequence(config).remaining.len(),
        sequence::course(config_sequence(config), replies).result == Some(Ok::<(), Error>(())),
    ensures
        applied_config(config) is Some,
        sequence::course(config_sequence(config), replies).sent == sequence::requests(
            config_sequence(config).remaining,
        ),
{
    sequence::law_success_means_every_step_was_accepted(config_sequence(config), replies);
}

/// Law: a configuration that succeeds leaves a decimation factor that the host
/// can apply.
pub proof fn law_an_applied_decimation_is_valid(config: ConfigData)
    requires
        applied_config(config) is Some,
    ensures
        streaming::valid_decimation(applied_config(config)->0.decimation as usize),
{
    if config.sample_format == config::SampleFormat::F32Iq {
        device::law_selected_rate_is_exact(config.decimation_mode, config.sample_rate_hz);
    }
}

/// What the host knows of a device.
pub struct HydraView {
    /// Sample type.
    pub sample_type: SampleType,
    /// Decimation policy.
    pub decimation_mode: DecimationMode,
    /// Streaming configuration.
    pub streaming: StreamingConfig,
}

impl HydraView {
    /// State of a device that was just opened.
    pub open spec fn is_fresh(self) -> bool {
        &&& self.sample_type == SampleType::Float32Iq
        &&& self.decimation_mode == DecimationMode::LowBandwidth
        &&& !self.streaming.spec_packing()
        &&& self.streaming.spec_decimation() == 1
    }

    /// Whether this is the state after `applied`.
    pub open spec fn reflects(self, applied: AppliedConfig) -> bool {
        &&& self.sample_type == applied.sample_type
        &&& self.decimation_mode == applied.decimation_mode
        &&& self.streaming.spec_decimation() == applied.decimation
        &&& self.streaming.spec_packing() == applied.packing
    }
}

/// Direct HydraSDR device handle.
#[derive(Clone, Copy)]
pub struct HydraSdr {
    sample_type: SampleType,
    decimation_mode: DecimationMode,
    streaming: StreamingConfig,
    record: Option<ActiveRecord>,
}

impl View for HydraSdr {
    type V = HydraView;

    closed spec fn view(&self) -> HydraView {
        HydraView {
            sample_type: self.sample_type,
            decimation_mode: self.decimation_mode,
            streaming: self.streaming,
        }
    }
}

/// Sequence that sends one request.
pub open spec fn single(request: RequestView, expect: Expect) -> SequenceView {
    SequenceView { remaining: seq![step(request, expect)], failure: None }
}

/// Build a sequence that sends one request.
fn single_request(request: VendorControlRequest, expect: Expect) -> (sequence: ControlSequence)
    ensures
        sequence@ == single(request@, expect),
{
    let mut steps: Vec<ControlStep> = Vec::new();
    push_step(&mut steps, request, expect);
    assert(sequence::step_views(steps@) =~= seq![step(request@, expect)]);
    ControlSequence::new(steps, None)
}

/// Error of a frequency that is not sent.
pub open spec fn frequency_limit_error() -> Error {
    Error::InvalidConfig {
        field: "frequency_hz",
        reason: "must be nonzero and at most 10 GHz",
    }
}

impl HydraSdr {
    /// Handle of a device that was just opened.
    pub fn new() -> (device: Self)
        ensures
            device@.is_fresh(),
    {
        HydraSdr {
            sample_type: SampleType::Float32Iq,
            decimation_mode: DecimationMode::LowBandwidth,
            streaming: StreamingConfig::default(),
            record: None,
        }
    }

    /// Record of what a shared handle was told when this device was configured
    /// last.
    pub closed spec fn spec_record(self) -> Option<ActiveRecord> {
        self.record
    }

    /// Keep the record of what a shared handle was told.
    pub fn keep_record(&mut self, record: ActiveRecord)
        ensures
            final(self)@ == old(self)@,
            final(self).spec_record() == Some(record),
    {
        self.record = Some(record);
    }

    /// Decimation policy in use.
    pub fn decimation_mode(&self) -> (mode: DecimationMode)
        ensures
            mode == self@.decimation_mode,
    {
        self.decimation_mode
    }

    /// Sample type in use.
    pub fn sample_type(&self) -> (sample_type: SampleType)
        ensures
            sample_type == self@.sample_type,
    {
        self.sample_type
    }

    /// Streaming configuration in use.
    pub fn streaming_config(&self) -> (config: StreamingConfig)
        ensures
            config == self@.streaming,
    {
        self.streaming
    }

    /// Return the host-side decimation used by converted receive streams.
    pub fn streaming_decimation_factor(&self) -> (factor: usize)
        ensures
            factor == self@.streaming.spec_decimation(),
            streaming::valid_decimation(factor),
    {
        self.streaming.decimation_factor()
    }

    /// Return whether packed raw transfers are currently configured.
    pub fn streaming_packing_enabled(&self) -> (packing: bool)
        ensures
            packing == self@.streaming.spec_packing(),
    {
        self.streaming.packing_enabled()
    }

    /// Record an applied configuration.
    pub fn apply_config_state(&mut self, applied: AppliedConfig)
        requires
            streaming::valid_decimation(applied.decimation as usize),
        ensures
            final(self)@.reflects(applied),
    {
        self.sample_type = applied.sample_type;
        self.decimation_mode = applied.decimation_mode;
        let packed: StreamingConfig = self.streaming.with_packing(applied.packing);
        match packed.with_decimation(applied.decimation as usize) {
            Ok(config) => {
                self.streaming = config;
            },
            Err(_) => {},
        }
    }

    /// Request that tunes the receiver.
    pub fn set_freq(&self, freq_hz: u64) -> (result: Result<ControlSequence>)
        ensures
            result is Ok <==> 0 < freq_hz <= MAX_FREQ_HZ,
            result matches Ok(sequence) ==> sequence@ == single(
                control::spec_set_frequency(freq_hz),
                Expect::Nothing,
            ),
            result matches Err(error) ==> error == frequency_limit_error(),
    {
        if freq_hz == 0 || freq_hz > MAX_FREQ_HZ {
            return Err(
                Error::InvalidConfig {
                    field: "frequency_hz",
                    reason: "must be nonzero and at most 10 GHz",
                },
            );
        }
        Ok(single_request(VendorControlRequest::set_frequency(freq_hz), Expect::Nothing))
    }

    /// Request that selects a sample rate under a decimation policy.
    pub fn set_samplerate_for_policy(&self, rate: u32, mode: DecimationMode) -> (result: Result<
        (ControlSequence, SelectedSampleRate),
    >)
        ensures
            match device::rate_selection(self@.sample_type, mode, rate) {
                None => result == Err::<(ControlSequence, SelectedSampleRate), Error>(
                    device::unsupported_rate_error(),
                ),
                Some(selected) => result matches Ok(plan) && plan.0@ == single(
                    control::spec_set_samplerate(selected.param),
                    rate_accepted(),
                ) && plan.1 == selected,
            },
    {
        match sample_rate_config(self.sample_type, mode, rate) {
            Err(error) => Err(error),
            Ok(selected) => Ok(
                (
                    single_request(
                        VendorControlRequest::set_samplerate(selected.param),
                        samplerate_expectation(),
                    ),
                    selected,
                ),
            ),
        }
    }

    /// Request that selects a sample rate under the current decimation policy.
    pub fn set_samplerate(&self, rate: u32) -> (result: Result<
        (ControlSequence, SelectedSampleRate),
    >)
        ensures
            match device::rate_selection(self@.sample_type, self@.decimation_mode, rate) {
                None => result == Err::<(ControlSequence, SelectedSampleRate), Error>(
                    device::unsupported_rate_error(),
                ),
                Some(selected) => result matches Ok(plan) && plan.0@ == single(
                    control::spec_set_samplerate(selected.param),
                    rate_accepted(),
                ) && plan.1 == selected,
            },
    {
        self.set_samplerate_for_policy(rate, self.decimation_mode)
    }

    /// Record a selected sample rate.
    pub fn apply_samplerate(&mut self, selected: SelectedSampleRate, mode: DecimationMode) -> (result:
        Result<()>)
        ensures
            streaming::valid_decimation(selected.decimation as usize) ==> {
                &&& result == Ok::<(), Error>(())
                &&& final(self)@.sample_type == old(self)@.sample_type
                &&& final(self)@.decimation_mode == mode
                &&& final(self)@.streaming.spec_decimation() == selected.decimation
                &&& final(self)@.streaming.spec_packing() == old(self)@.streaming.spec_packing()
            },
            !streaming::valid_decimation(selected.decimation as usize) ==> result == Err::<
                (),
                Error,
            >(streaming::decimation_error()) && final(self)@ == old(self)@,
    {
        match self.streaming.with_decimation(selected.decimation as usize) {
            Err(error) => Err(error),
            Ok(config) => {
                self.streaming = config;
                self.decimation_mode = mode;
                Ok(())
            },
        }
    }

    /// Requests that apply a gain configuration.
    pub fn set_gain_config(&self, gain: GainConfig) -> (sequence: ControlSequence)
        ensures
            sequence@ == (SequenceView {
                remaining: gain_steps(device::gain_requests(gain)),
                failure: None,
            }),
    {
        let mut steps: Vec<ControlStep> = Vec::new();
        push_gain_steps(&mut steps, gain_config_plan(gain));
        assert(sequence::step_views(steps@) =~= gain_steps(device::gain_requests(gain)));
        ControlSequence::new(steps, None)
    }

    /// Request that switches packed transfers.
    pub fn set_packing(&self, enabled: bool) -> (sequence: ControlSequence)
        ensures
            sequence@ == (SequenceView { remaining: seq![packing_step(enabled)], failure: None }),
    {
        single_request(
            VendorControlRequest::set_packing(if enabled { 1 } else { 0 }),
            Expect::AtLeast(1),
        )
    }

    /// Record switched packed transfers.
    pub fn apply_packing(&mut self, enabled: bool)
        ensures
            final(self)@.sample_type == old(self)@.sample_type,
            final(self)@.decimation_mode == old(self)@.decimation_mode,
            final(self)@.streaming.spec_decimation() == old(self)@.streaming.spec_decimation(),
            final(self)@.streaming.spec_packing() == enabled,
    {
        self.streaming = self.streaming.with_packing(enabled);
    }

    /// Request that selects an RF input port.
    pub fn set_rf_port(&self, port: RfPort) -> (sequence: ControlSequence)
        ensures
            sequence@ == single(control::spec_set_rf_port(port), port_accepted()),
    {
        single_request(VendorControlRequest::set_rf_port(port), rf_port_expectation())
    }

    /// Request that selects a receiver mode.
    pub fn receiver_mode(&self, mode: ReceiverMode) -> (sequence: ControlSequence)
        ensures
            sequence@ == single(control::spec_receiver_mode(mode), Expect::Nothing),
    {
        single_request(VendorControlRequest::receiver_mode(mode), Expect::Nothing)
    }

    /// Request that switches the RF bias power.
    pub fn set_rf_bias(&self, enabled: bool) -> (sequence: ControlSequence)
        ensures
            sequence@ == single(
                control::spec_set_rf_bias(device::switch_byte(enabled)),
                Expect::Nothing,
            ),
    {
        single_request(
            VendorControlRequest::set_rf_bias(if enabled { 1 } else { 0 }),
            Expect::Nothing,
        )
    }

    /// Advertised analog bandwidths: the firmware has no bandwidth control.
    pub fn get_bandwidths(&self) -> (result: Result<Vec<u32>>)
        ensures
            result == Err::<Vec<u32>, Error>(Error::Unsupported),
    {
        Err(Error::Unsupported)
    }

    /// Select an analog bandwidth: the firmware has no bandwidth control.
    pub fn set_bandwidth(&self, bandwidth_hz: u32) -> (result: Result<ControlSequence>)
        ensures
            result == Err::<ControlSequence, Error>(Error::Unsupported),
    {
        Err(Error::Unsupported)
    }

    /// Sample rates that can be selected for the sample type in use.
    pub fn visible_sample_rates(&self) -> (rates: Vec<u32>)
        ensures
            self@.sample_type == SampleType::Raw ==> rates@ == RFONE_RAW_ADC_SAMPLE_RATES@,
            self@.sample_type == SampleType::Float32Iq ==> rates@ == RFONE_F32_IQ_SAMPLE_RATES@,
    {
        if self.sample_type == SampleType::Raw {
            copy_rates(RFONE_RAW_ADC_SAMPLE_RATES.as_slice())
        } else {
            copy_rates(RFONE_F32_IQ_SAMPLE_RATES.as_slice())
        }
    }

    /// Accept the start of a converted stream: unpacked IQ samples only.
    pub fn check_rx_stream(&self) -> (result: Result<()>)
        ensures
            result == if self@.sample_type == SampleType::Float32Iq
                && !self@.streaming.spec_packing() {
                Ok(())
            } else {
                Err(Error::Unsupported)
            },
    {
        if self.sample_type != SampleType::Float32Iq || self.streaming.packing_enabled() {
            return Err(Error::Unsupported);
        }
        Ok(())
    }
}

/// Copy a table of rates.
fn copy_rates(table: &[u32]) -> (rates: Vec<u32>)
    ensures
        rates@ == table@,
{
    let mut rates: Vec<u32> = Vec::new();
    let mut i: usize = 0;
    while i < table.len()
        invariant
            i <= table@.len(),
            rates@ == table@.take(i as int),
        decreases table@.len() - i,
    {
        rates.push(table[i]);
        i = i + 1;
        assert(rates@ =~= table@.take(i as int));
    }
    assert(table@.take(i as int) =~= table@);
    rates
}

/// Step of the start of a receive stream.
#[derive(Debug)]
pub enum StartStage {
    /// Switch the receiver off.
    ReceiverOff,
    /// Open the bulk endpoint and allocate the buffers that the queue lacks.
    OpenEndpoint,
    /// Switch the receiver on.
    ReceiverOn,
    /// Clear the endpoint's halt condition; the buffers are queued then.
    ClearHalt,
    /// Switch the receiver off again, whatever comes of it, because of this
    /// error.
    Cleanup(Error),
    /// The start is over.
    Done(Result<()>),
}

/// Stage that follows `stage` when its work comes out as `result`.
pub open spec fn next_start_stage(stage: StartStage, result: Result<()>) -> StartStage {
    match (stage, result) {
        (StartStage::ReceiverOff, Ok(())) => StartStage::OpenEndpoint,
        (StartStage::ReceiverOff, Err(error)) => StartStage::Done(Err(error)),
        (StartStage::OpenEndpoint, Ok(())) => StartStage::ReceiverOn,
        (StartStage::ReceiverOn, Ok(())) => StartStage::ClearHalt,
        (StartStage::ClearHalt, Ok(())) => StartStage::Done(Ok(())),
        (StartStage::OpenEndpoint, Err(error)) => StartStage::Cleanup(error),
        (StartStage::ReceiverOn, Err(error)) => StartStage::Cleanup(error),
        (StartStage::ClearHalt, Err(error)) => StartStage::Cleanup(error),
        (StartStage::Cleanup(error), _) => StartStage::Done(Err(error)),
        (StartStage::Done(outcome), _) => StartStage::Done(outcome),
    }
}

impl StartStage {
    /// First stage of a start.
    pub fn begin() -> (stage: StartStage)
        ensures
            stage == StartStage::ReceiverOff,
    {
        StartStage::ReceiverOff
    }

    /// Stage that follows when the work of this one comes out as `result`.
    pub fn advance(self, result: Result<()>) -> (stage: StartStage)
        ensures
            stage == next_start_stage(self, result),
    {
        match self {
            StartStage::ReceiverOff => match result {
                Ok(()) => StartStage::OpenEndpoint,
                Err(error) => StartStage::Done(Err(error)),
            },
            StartStage::OpenEndpoint => match result {
                Ok(()) => StartStage::ReceiverOn,
                Err(error) => StartStage::Cleanup(error),
            },
            StartStage::ReceiverOn => match result {
                Ok(()) => StartStage::ClearHalt,
                Err(error) => StartStage::Cleanup(error),
            },
            StartStage::ClearHalt => match result {
                Ok(()) => StartStage::Done(Ok(())),
                Err(error) => StartStage::Cleanup(error),
            },
            StartStage::Cleanup(error) => StartStage::Done(Err(error)),
            StartStage::Done(outcome) => StartStage::Done(outcome),
        }
    }
}

/// Stage that a start has reached after the results of its work.
pub open spec fn start_after(stage: StartStage, results: Seq<Result<()>>) -> StartStage
    decreases results.len(),
{
    if results.len() == 0 {
        stage
    } else {
        start_after(next_start_stage(stage, results[0]), results.drop_first())
    }
}

/// Law: a start succeeds exactly when all four of its steps do.
pub proof fn law_a_start_succeeds_when_every_step_does(
    off: Result<()>,
    endpoint: Result<()>,
    on: Result<()>,
    halt: Result<()>,
)
    ensures
        start_after(StartStage::ReceiverOff, seq![off, endpoint, on, halt]) == StartStage::Done(
            Ok(()),
        ) <==> off is Ok && endpoint is Ok && on is Ok && halt is Ok,
{
    reveal_with_fuel(start_after, 5);
    let results = seq![off, endpoint, on, halt];
    let tail1 = results.drop_first();
    let tail2 = tail1.drop_first();
    let tail3 = tail2.drop_first();
    assert(tail1[0] == endpoint && tail2[0] == on && tail3[0] == halt);
    assert(tail3.drop_first().len() == 0);
}

/// Law: once the receiver was switched off, every failure of a start switches it
/// off again before that failure is reported, whatever becomes of the cleanup.
pub proof fn law_a_failed_start_switches_the_receiver_off(
    stage: StartStage,
    error: Error,
    cleanup: Result<()>,
)
    requires
        stage == StartStage::OpenEndpoint || stage == StartStage::ReceiverOn || stage
            == StartStage::ClearHalt,
    ensures
        next_start_stage(stage, Err(error)) == StartStage::Cleanup(error),
        next_start_stage(StartStage::Cleanup(error), cleanup) == StartStage::Done(Err(error)),
{
}

/// Rates of a sample format that can be selected.
pub open spec fn listed_rates(format: config::SampleFormat) -> Seq<u32> {
    match format {
        config::SampleFormat::RawAdc => RFONE_RAW_ADC_SAMPLE_RATES@,
        config::SampleFormat::F32Iq => RFONE_F32_IQ_SAMPLE_RATES@,
    }
}

/// Whether the host supports `config`: the firmware has no bandwidth control, and
/// the sample rate has to be one of the table of its format.
pub open spec fn host_supports(config: ConfigData) -> bool {
    &&& config.bandwidth == Bandwidth::Auto
    &&& device::lists(listed_rates(config.sample_format), config.sample_rate_hz)
}

/// Law: a configuration is sent as a whole exactly where the host supports it.
/// Otherwise it tunes the receiver, sends nothing more and fails, as unsupported
/// where it asks for a bandwidth, and as an invalid sample rate otherwise.
pub proof fn law_what_stops_a_configuration(config: ConfigData)
    ensures
        config_sequence(config).failure is None <==> host_supports(config),
        applied_config(config) is Some <==> host_supports(config),
        !host_supports(config) ==> config_sequence(config).remaining.len() == 1,
        config.bandwidth != Bandwidth::Auto ==> config_sequence(config).failure == Some(
            Error::Unsupported,
        ),
        config.bandwidth == Bandwidth::Auto && !host_supports(config) ==> config_sequence(
            config,
        ).failure == Some(
            Error::InvalidConfig {
                field: "sample_rate_hz",
                reason: "is not supported by RFOne and the host decimator",
            },
        ),
{
    device::law_selectable_rates_are_the_listed_ones(config.decimation_mode, config.sample_rate_hz);
}

/// Law: a supported configuration sends, in this order, the request of every
/// setting that it names: the frequency, the sample rate, the RF port, the gain,
/// the packing and the bias power. The firmware has to accept the sample rate and
/// the RF port, and to acknowledge the gains and the packing.
pub proof fn law_a_configuration_sends_every_setting_it_names(config: ConfigData)
    requires
        host_supports(config),
    ensures
        ({
            let steps = config_sequence(config).remaining;
            let gains = device::gain_requests(config.gain);
            let first = if config.rf_port is Some { 3int } else { 2int };
            let packing = first + gains.len();
            &&& steps.len() == packing + if config.bias_tee is Some { 2int } else { 1int }
            &&& steps[0].request == control::spec_set_frequency(config.frequency_hz)
            &&& steps[0].expect == Expect::Nothing
            &&& steps[1].request.request == VendorRequest::SetSamplerate
            &&& steps[1].request == control::spec_set_samplerate(steps[1].request.index)
            &&& Some(steps[1].request.index) == match device::rate_selection(
                match config.sample_format {
                    config::SampleFormat::RawAdc => SampleType::Raw,
                    config::SampleFormat::F32Iq => SampleType::Float32Iq,
                },
                config.decimation_mode,
                config.sample_rate_hz,
            ) {
                Some(selected) => Some(selected.param),
                None => None,
            }
            &&& steps[1].expect == (Expect::Accepted {
                operation: "set sample rate",
                reason: "firmware rejected the selected sample rate",
            })
            &&& config.rf_port matches Some(port) ==> steps[2] == (StepView {
                request: control::spec_set_rf_port(port),
                expect: Expect::Accepted {
                    operation: "set RF port",
                    reason: "firmware rejected the requested RF port",
                },
            })
            &&& forall|k: int|
                0 <= k < gains.len() ==> #[trigger] steps[first + k] == (StepView {
                    request: gains[k],
                    expect: Expect::AtLeast(1),
                })
            &&& steps[packing] == (StepView {
                request: control::spec_set_packing(if config.packing { 1 } else { 0 }),
                expect: Expect::AtLeast(1),
            })
            &&& config.bias_tee matches Some(enabled) ==> steps[packing + 1] == (StepView {
                request: control::spec_set_rf_bias(if enabled { 1 } else { 0 }),
                expect: Expect::Nothing,
            })
        }),
{
    device::law_selectable_rates_are_the_listed_ones(config.decimation_mode, config.sample_rate_hz);
    let steps = config_sequence(config).remaining;
    let gains = device::gain_requests(config.gain);
    let first = if config.rf_port is Some { 3int } else { 2int };
    assert forall|k: int| 0 <= k < gains.len() implies #[trigger] steps[first + k] == (StepView {
        request: gains[k],
        expect: Expect::AtLeast(1),
    }) by {
        assert(steps[first + k] == gain_steps(gains)[k]);
    }
}

/// Law: a supported configuration writes each setting once: one request tunes the
/// receiver, one selects the sample rate, one switches the packing, one selects
/// the RF port where a port is named, one switches the bias power where it is
/// named, and every other request writes a part of the gain.
pub proof fn law_a_configuration_writes_each_setting_once(config: ConfigData, i: int)
    requires
        host_supports(config),
        0 <= i < config_sequence(config).remaining.len(),
    ensures
        ({
            let steps = config_sequence(config).remaining;
            let request = steps[i].request.request;
            let packing = steps.len() - if config.bias_tee is Some { 2int } else { 1int };
            &&& request == VendorRequest::SetFreq <==> i == 0
            &&& request == VendorRequest::SetSamplerate <==> i == 1
            &&& request == VendorRequest::SetRfPort <==> i == 2 && config.rf_port is Some
            &&& request == VendorRequest::SetPacking <==> i == packing
            &&& request == VendorRequest::SetRfBiasCmd <==> i == packing + 1
            &&& request == VendorRequest::SetLnaGain || request == VendorRequest::SetMixerGain
                || request == VendorRequest::SetVgaGain || request == VendorRequest::SetLnaAgc
                || request == VendorRequest::SetMixerAgc <==> 2 <= i < packing && !(i == 2
                && config.rf_port is Some)
        }),
{
    law_a_configuration_sends_every_setting_it_names(config);
    device::law_gain_plans_are_short(config.gain);
    let steps = config_sequence(config).remaining;
    let gains = device::gain_requests(config.gain);
    let first = if config.rf_port is Some { 3int } else { 2int };
    if first <= i < first + gains.len() {
        assert(steps[first + (i - first)].request == gains[i - first]);
        assert(device::writes_gain(gains[i - first].request));
    }
}

/// Law: an applied configuration leaves its own sample type, policy and packing,
/// and the factor that decimates a firmware rate to its sample rate; raw samples
/// are not decimated.
pub proof fn law_what_an_applied_configuration_leaves(config: ConfigData)
    requires
        host_supports(config),
    ensures
        applied_config(config) matches Some(applied) && {
            &&& applied.decimation_mode == config.decimation_mode
            &&& applied.packing == config.packing
            &&& match config.sample_format {
                config::SampleFormat::RawAdc => applied.sample_type == SampleType::Raw
                    && applied.decimation == 1,
                config::SampleFormat::F32Iq => {
                    &&& applied.sample_type == SampleType::Float32Iq
                    &&& device::hardware_choice(config.decimation_mode, config.sample_rate_hz)
                        matches Some(choice) && choice.1 == applied.decimation && choice.0
                        == applied.decimation * config.sample_rate_hz
                },
            }
        },
{
    device::law_selectable_rates_are_the_listed_ones(config.decimation_mode, config.sample_rate_hz);
    device::law_a_rate_is_requested_by_its_table_index(
        config.decimation_mode,
        config.sample_rate_hz,
    );
    if config.sample_format == config::SampleFormat::F32Iq {
        device::law_selected_rate_is_exact(config.decimation_mode, config.sample_rate_hz);
    }
}

/// Law: of a device that was just opened, or to which a configuration was applied,
/// every setting that a stream depends on is known.
pub proof fn law_a_recorded_configuration_fixes_the_streams(view: HydraView, applied: AppliedConfig)
    ensures
        view.reflects(applied) <==> view.sample_type == applied.sample_type
            && view.decimation_mode == applied.decimation_mode && view.streaming.spec_decimation()
            == applied.decimation && view.streaming.spec_packing() == applied.packing,
        view.is_fresh() <==> view.reflects(
            (AppliedConfig {
                sample_type: SampleType::Float32Iq,
                decimation_mode: DecimationMode::LowBandwidth,
                decimation: 1,
                packing: false,
            }),
        ),
{
}

/// Law: a gain is applied by its own requests, one after the other, each of which
/// the device has to acknowledge with a byte.
pub proof fn law_gain_steps_are_acknowledged(requests: Seq<RequestView>, i: int)
    ensures
        gain_steps(requests).len() == requests.len(),
        0 <= i < requests.len() ==> gain_steps(requests)[i] == (StepView {
            request: requests[i],
            expect: Expect::AtLeast(1),
        }),
{
}

/// Law: a single request is the whole sequence, which adds no failure of its own.
pub proof fn law_a_single_request_is_the_whole_sequence(
    request: RequestView,
    expect: Expect,
    reply: Result<Seq<u8>>,
)
    ensures
        single(request, expect).remaining == seq![StepView { request, expect }],
        single(request, expect).failure is None,
        sequence::course(single(request, expect), seq![reply]) == (sequence::Course {
            sent: seq![request],
            result: Some(sequence::checked_transfer(expect, reply)),
        }),
{
    let plan = single(request, expect);
    let rest = SequenceView { remaining: plan.remaining.drop_first(), ..plan };
    assert(seq![reply].drop_first().len() == 0);
    assert(rest.remaining.len() == 0);
    assert(sequence::course(rest, seq![reply].drop_first()).sent =~= Seq::empty());
    assert(seq![request] + Seq::<RequestView>::empty() =~= seq![request]);
}

/// Law: the work of a start comes in this order: receiver off, endpoint, receiver
/// on, halt condition. A receiver that cannot be switched off ends it at once.
pub proof fn law_a_start_works_in_order(error: Error)
    ensures
        next_start_stage(StartStage::ReceiverOff, Ok(())) == StartStage::OpenEndpoint,
        next_start_stage(StartStage::OpenEndpoint, Ok(())) == StartStage::ReceiverOn,
        next_start_stage(StartStage::ReceiverOn, Ok(())) == StartStage::ClearHalt,
        next_start_stage(StartStage::ClearHalt, Ok(())) == StartStage::Done(Ok(())),
        next_start_stage(StartStage::ReceiverOff, Err(error)) == StartStage::Done(Err(error)),
        forall|outcome: Result<()>, result: Result<()>| #[trigger]
            next_start_stage(StartStage::Done(outcome), result) == StartStage::Done(outcome),
{
}

/// Law: the direct layer refuses a frequency under its field, with its limits.
pub proof fn law_a_frequency_beyond_the_limits_is_refused()
    ensures
        MAX_FREQ_HZ == 10_000_000_000,
        frequency_limit_error() == (Error::InvalidConfig {
            field: "frequency_hz",
            reason: "must be nonzero and at most 10 GHz",
        }),
{
}

} // verus!
