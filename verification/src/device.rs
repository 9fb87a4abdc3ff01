//! Sample-rate selection and gain plans.

use crate::commands::VendorRequest;
use crate::config::{GainConfig, GainPreset, StageGain};
use crate::errors::{Error, Result};
use crate::rfone::{
    self, DECIMATION_FACTORS_DESC, RFONE_F32_IQ_SAMPLE_RATES, RFONE_FIRMWARE_IQ_SAMPLE_RATES,
    RFONE_LINEARITY_LNA_GAINS, RFONE_LINEARITY_MIXER_GAINS, RFONE_LINEARITY_VGA_GAINS,
    RFONE_RAW_ADC_SAMPLE_RATES, RFONE_SENSITIVITY_LNA_GAINS, RFONE_SENSITIVITY_MIXER_GAINS,
    RFONE_SENSITIVITY_VGA_GAINS,
};
use crate::streaming;
use crate::types::{DecimationMode, SampleType};
use crate::usb::control::{self, RequestView, VendorControlRequest};
use vstd::prelude::*;

verus! {

/// Sample rate as it is requested from the firmware.
#[derive(Clone, Copy, Debug, Eq, PartialEq, Structural)]
pub struct SelectedSampleRate {
    /// Index of the firmware rate.
    pub param: u16,
    /// Host-side decimation factor.
    pub decimation: u32,
}

/// Factor by which the host decimates the firmware rate `hardware` to `rate`,
/// if one of its factors does.
pub open spec fn decimation_for(hardware: u32, rate: u32) -> Option<u32> {
    if hardware == rate {
        Some(1)
    } else if hardware == 2 * rate {
        Some(2)
    } else if hardware == 4 * rate {
        Some(4)
    } else if hardware == 8 * rate {
        Some(8)
    } else if hardware == 16 * rate {
        Some(16)
    } else if hardware == 32 * rate {
        Some(32)
    } else if hardware == 64 * rate {
        Some(64)
    } else {
        None
    }
}

/// Whether the firmware and the host decimator can produce `rate`.
pub open spec fn iq_rate_supported(rate: u32) -> bool {
    ||| decimation_for(10_000_000, rate) is Some
    ||| decimation_for(5_000_000, rate) is Some
    ||| decimation_for(2_500_000, rate) is Some
}

/// Firmware rate and decimation that produce `rate`: from the lowest firmware
/// rate that can for low bandwidth, from the highest for high definition.
pub open spec fn hardware_choice(mode: DecimationMode, rate: u32) -> Option<(u32, u32)> {
    let (first, second, third) = match mode {
        DecimationMode::LowBandwidth => (2_500_000u32, 5_000_000u32, 10_000_000u32),
        DecimationMode::HighDefinition => (10_000_000u32, 5_000_000u32, 2_500_000u32),
    };
    if decimation_for(first, rate) is Some {
        Some((first, decimation_for(first, rate)->0))
    } else if decimation_for(second, rate) is Some {
        Some((second, decimation_for(second, rate)->0))
    } else if decimation_for(third, rate) is Some {
        Some((third, decimation_for(third, rate)->0))
    } else {
        None
    }
}

/// Index of a firmware rate in the firmware's table.
pub open spec fn firmware_index(hardware: u32) -> u16 {
    if hardware == 10_000_000 {
        0
    } else if hardware == 5_000_000 {
        1
    } else {
        2
    }
}

/// Index of a raw ADC rate in the firmware's table.
pub open spec fn raw_index(rate: u32) -> Option<u16> {
    if rate == 20_000_000 {
        Some(0)
    } else if rate == 10_000_000 {
        Some(1)
    } else if rate == 5_000_000 {
        Some(2)
    } else {
        None
    }
}

/// How `rate` is requested, if it is supported.
pub open spec fn rate_selection(
    sample_type: SampleType,
    mode: DecimationMode,
    rate: u32,
) -> Option<SelectedSampleRate> {
    match sample_type {
        SampleType::Raw => match raw_index(rate) {
            None => None,
            Some(param) => Some(SelectedSampleRate { param, decimation: 1 }),
        },
        SampleType::Float32Iq => match hardware_choice(mode, rate) {
            None => None,
            Some((hardware, decimation)) => Some(
                SelectedSampleRate { param: firmware_index(hardware), decimation },
            ),
        },
    }
}

/// Error of a sample rate that is not supported.
pub open spec fn unsupported_rate_error() -> Error {
    Error::InvalidConfig {
        field: "sample_rate_hz",
        reason: "is not supported by RFOne and the host decimator",
    }
}

/// Error of a sample rate that is not supported.
pub fn unsupported_sample_rate() -> (error: Error)
    ensures
        error == unsupported_rate_error(),
{
    Error::InvalidConfig {
        field: "sample_rate_hz",
        reason: "is not supported by RFOne and the host decimator",
    }
}

/// Find the host-side factor that decimates `hardware` to `rate`.
fn find_decimation(hardware: u32, rate: u32) -> (decimation: Option<u32>)
    requires
        hardware == 10_000_000 || hardware == 5_000_000 || hardware == 2_500_000,
    ensures
        decimation == decimation_for(hardware, rate),
{
    let mut i: usize = 0;
    while i < 7
        invariant
            i <= 7,
            hardware == 10_000_000 || hardware == 5_000_000 || hardware == 2_500_000,
            i > 0 ==> hardware != 64 * rate,
            i > 1 ==> hardware != 32 * rate,
            i > 2 ==> hardware != 16 * rate,
            i > 3 ==> hardware != 8 * rate,
            i > 4 ==> hardware != 4 * rate,
            i > 5 ==> hardware != 2 * rate,
            i > 6 ==> hardware != rate,
        decreases 7 - i,
    {
        let factor: u32 = DECIMATION_FACTORS_DESC[i];
        assert(factor == 64 || factor == 32 || factor == 16 || factor == 8 || factor == 4 || factor
            == 2 || factor == 1);
        if hardware % factor == 0 && hardware / factor == rate {
            return Some(factor);
        }
        i = i + 1;
    }
    None
}

/// Select the firmware rate and the decimation that produce `rate`.
pub fn sample_rate_hardware_config(mode: DecimationMode, rate: u32) -> (choice: Option<(u32, u32)>)
    ensures
        choice == hardware_choice(mode, rate),
{
    let mut best: Option<(u32, u32)> = None;
    let mut i: usize = 0;
    while i < 3
        invariant
            i <= 3,
            best matches Some(found) ==> found.0 == 10_000_000 || found.0 == 5_000_000 || found.0
                == 2_500_000,
            i == 0 ==> best is None,
            i == 1 ==> best == match decimation_for(10_000_000, rate) {
                None => None::<(u32, u32)>,
                Some(factor) => Some((10_000_000u32, factor)),
            },
            i == 2 ==> match mode {
                DecimationMode::HighDefinition => best == if decimation_for(
                    10_000_000,
                    rate,
                ) is Some {
                    Some((10_000_000u32, decimation_for(10_000_000, rate)->0))
                } else if decimation_for(5_000_000, rate) is Some {
                    Some((5_000_000u32, decimation_for(5_000_000, rate)->0))
                } else {
                    None
                },
                DecimationMode::LowBandwidth => best == if decimation_for(5_000_000, rate) is Some {
                    Some((5_000_000u32, decimation_for(5_000_000, rate)->0))
                } else if decimation_for(10_000_000, rate) is Some {
                    Some((10_000_000u32, decimation_for(10_000_000, rate)->0))
                } else {
                    None
                },
            },
            i == 3 ==> best == hardware_choice(mode, rate),
        decreases 3 - i,
    {
        let hardware: u32 = RFONE_FIRMWARE_IQ_SAMPLE_RATES[i];
        assert(RFONE_FIRMWARE_IQ_SAMPLE_RATES@[0] == 10_000_000);
        assert(RFONE_FIRMWARE_IQ_SAMPLE_RATES@[1] == 5_000_000);
        assert(RFONE_FIRMWARE_IQ_SAMPLE_RATES@[2] == 2_500_000);
        match find_decimation(hardware, rate) {
            None => {},
            Some(factor) => {
                best = match (best, mode) {
                    (Some((best_hardware, best_factor)), DecimationMode::HighDefinition) => {
                        if hardware > best_hardware {
                            Some((hardware, factor))
                        } else {
                            Some((best_hardware, best_factor))
                        }
                    },
                    (Some((best_hardware, best_factor)), DecimationMode::LowBandwidth) => {
                        if hardware < best_hardware {
                            Some((hardware, factor))
                        } else {
                            Some((best_hardware, best_factor))
                        }
                    },
                    (None, _) => Some((hardware, factor)),
                };
            },
        }
        i = i + 1;
    }
    best
}

/// Position of `rate` in a table of three rates.
fn position(table: &[u32; 3], rate: u32) -> (index: Option<u16>)
    ensures
        index == if table@[0] == rate {
            Some(0u16)
        } else if table@[1] == rate {
            Some(1u16)
        } else if table@[2] == rate {
            Some(2u16)
        } else {
            None
        },
{
    let mut i: usize = 0;
    while i < 3
        invariant
            i <= 3,
            forall|k: int| 0 <= k < i ==> table@[k] != rate,
        decreases 3 - i,
    {
        if table[i] == rate {
            return Some(i as u16);
        }
        i = i + 1;
    }
    None
}

/// Decide how a sample rate is requested.
pub fn sample_rate_config(
    sample_type: SampleType,
    mode: DecimationMode,
    rate: u32,
) -> (result: Result<SelectedSampleRate>)
    ensures
        result == match rate_selection(sample_type, mode, rate) {
            Some(selected) => Ok(selected),
            None => Err(unsupported_rate_error()),
        },
{
    assert(RFONE_RAW_ADC_SAMPLE_RATES@[0] == 20_000_000);
    assert(RFONE_RAW_ADC_SAMPLE_RATES@[1] == 10_000_000);
    assert(RFONE_RAW_ADC_SAMPLE_RATES@[2] == 5_000_000);
    assert(RFONE_FIRMWARE_IQ_SAMPLE_RATES@[0] == 10_000_000);
    assert(RFONE_FIRMWARE_IQ_SAMPLE_RATES@[1] == 5_000_000);
    assert(RFONE_FIRMWARE_IQ_SAMPLE_RATES@[2] == 2_500_000);
    if sample_type == SampleType::Raw {
        return match position(&RFONE_RAW_ADC_SAMPLE_RATES, rate) {
            None => Err(unsupported_sample_rate()),
            Some(param) => Ok(SelectedSampleRate { param, decimation: 1 }),
        };
    }
    match sample_rate_hardware_config(mode, rate) {
        None => Err(unsupported_sample_rate()),
        Some((hardware, decimation)) => {
            match position(&RFONE_FIRMWARE_IQ_SAMPLE_RATES, hardware) {
                None => Err(unsupported_sample_rate()),
                Some(param) => Ok(SelectedSampleRate { param, decimation }),
            }
        },
    }
}

/// Whether `rates` holds `rate`.
pub open spec fn lists(rates: Seq<u32>, rate: u32) -> bool {
    exists|i: int| 0 <= i < rates.len() && rates[i] == rate
}

/// Law: the rates that can be selected are exactly those of the rate tables,
/// whatever the decimation policy.
pub proof fn law_selectable_rates_are_the_listed_ones(mode: DecimationMode, rate: u32)
    ensures
        rate_selection(SampleType::Raw, mode, rate) is Some <==> lists(
            RFONE_RAW_ADC_SAMPLE_RATES@,
            rate,
        ),
        rate_selection(SampleType::Float32Iq, mode, rate) is Some <==> lists(
            RFONE_F32_IQ_SAMPLE_RATES@,
            rate,
        ),
        iq_rate_supported(rate) <==> lists(RFONE_F32_IQ_SAMPLE_RATES@, rate),
{
    let raw = RFONE_RAW_ADC_SAMPLE_RATES@;
    assert(raw[0] == 20_000_000 && raw[1] == 10_000_000 && raw[2] == 5_000_000);
    let iq = RFONE_F32_IQ_SAMPLE_RATES@;
    assert(iq[0] == 10_000_000 && iq[1] == 5_000_000 && iq[2] == 2_500_000 && iq[3] == 1_250_000
        && iq[4] == 625_000 && iq[5] == 312_500 && iq[6] == 156_250 && iq[7] == 78_125);
    assert(lists(raw, rate) <==> rate == 20_000_000 || rate == 10_000_000 || rate == 5_000_000);
    assert(lists(iq, rate) <==> rate == 10_000_000 || rate == 5_000_000 || rate == 2_500_000
        || rate == 1_250_000 || rate == 625_000 || rate == 312_500 || rate == 156_250 || rate
        == 78_125);
}

/// Law: decimating the selected firmware rate gives exactly the rate asked for.
pub proof fn law_selected_rate_is_exact(mode: DecimationMode, rate: u32)
    requires
        rate_selection(SampleType::Float32Iq, mode, rate) is Some,
    ensures
        ({
            let selected = rate_selection(SampleType::Float32Iq, mode, rate)->0;
            &&& selected.param < 3
            &&& RFONE_FIRMWARE_IQ_SAMPLE_RATES@[selected.param as int] == selected.decimation * rate
            &&& streaming::valid_decimation(selected.decimation as usize)
        }),
{
    let table = RFONE_FIRMWARE_IQ_SAMPLE_RATES@;
    assert(table[0] == 10_000_000 && table[1] == 5_000_000 && table[2] == 2_500_000);
}

/// Law: low bandwidth never selects a higher firmware rate than high definition
/// does, so that it never decimates more.
pub proof fn law_low_bandwidth_takes_the_lower_rate(rate: u32)
    requires
        iq_rate_supported(rate),
    ensures
        ({
            let low = hardware_choice(DecimationMode::LowBandwidth, rate)->0;
            let high = hardware_choice(DecimationMode::HighDefinition, rate)->0;
            low.0 <= high.0 && low.1 <= high.1
        }),
{
}

/// Whether the host decimates by `factor`.
pub open spec fn host_factor(factor: int) -> bool {
    factor == 1 || factor == 2 || factor == 4 || factor == 8 || factor == 16 || factor == 32 || factor
        == 64
}

/// A decimation factor takes the firmware rate to exactly the rate asked for.
proof fn lemma_a_decimation_is_exact(hardware: u32, rate: u32)
    ensures
        decimation_for(hardware, rate) matches Some(factor) ==> hardware == factor * rate
            && host_factor(factor as int),
{
    if decimation_for(hardware, rate) is Some {
        let factor = decimation_for(hardware, rate)->0;
        assert(factor * rate == rate * factor) by (nonlinear_arith);
        assert(factor == 1 ==> factor * rate == rate) by (nonlinear_arith);
        assert(factor == 2 ==> factor * rate == 2 * rate) by (nonlinear_arith);
        assert(factor == 4 ==> factor * rate == 4 * rate) by (nonlinear_arith);
        assert(factor == 8 ==> factor * rate == 8 * rate) by (nonlinear_arith);
        assert(factor == 16 ==> factor * rate == 16 * rate) by (nonlinear_arith);
        assert(factor == 32 ==> factor * rate == 32 * rate) by (nonlinear_arith);
        assert(factor == 64 ==> factor * rate == 64 * rate) by (nonlinear_arith);
    }
}

/// Law: a rate can be produced exactly when some host factor decimates some
/// firmware rate to it.
pub proof fn law_a_rate_is_supported_when_it_can_be_produced(mode: DecimationMode, rate: u32)
    ensures
        hardware_choice(mode, rate) is Some <==> exists|i: int, factor: int|
            #![trigger RFONE_FIRMWARE_IQ_SAMPLE_RATES@[i], host_factor(factor)]
            0 <= i < 3 && host_factor(factor) && RFONE_FIRMWARE_IQ_SAMPLE_RATES@[i] == factor * rate,
        iq_rate_supported(rate) <==> hardware_choice(mode, rate) is Some,
{
    let table = RFONE_FIRMWARE_IQ_SAMPLE_RATES@;
    assert(table[0] == 10_000_000 && table[1] == 5_000_000 && table[2] == 2_500_000);
    assert(host_factor(1) && host_factor(2) && host_factor(4) && host_factor(8) && host_factor(16)
        && host_factor(32) && host_factor(64));
}

/// Law: what is chosen is a firmware rate and a host factor that decimates it to
/// the rate asked for. No firmware rate that could be decimated to that rate is
/// lower than the one chosen for low bandwidth, and none is higher than the one
/// chosen for high definition.
pub proof fn law_the_policy_takes_the_extreme_firmware_rate(
    mode: DecimationMode,
    rate: u32,
    i: int,
    factor: int,
)
    requires
        0 <= i < 3,
        host_factor(factor),
        RFONE_FIRMWARE_IQ_SAMPLE_RATES@[i] == factor * rate,
    ensures
        hardware_choice(mode, rate) matches Some(choice) && {
            &&& choice.0 == choice.1 * rate
            &&& host_factor(choice.1 as int)
            &&& choice.0 == 10_000_000 || choice.0 == 5_000_000 || choice.0 == 2_500_000
            &&& match mode {
                DecimationMode::LowBandwidth => choice.0 <= RFONE_FIRMWARE_IQ_SAMPLE_RATES@[i]
                    && choice.1 <= factor,
                DecimationMode::HighDefinition => choice.0 >= RFONE_FIRMWARE_IQ_SAMPLE_RATES@[i]
                    && choice.1 >= factor,
            }
        },
{
    let table = RFONE_FIRMWARE_IQ_SAMPLE_RATES@;
    assert(table[0] == 10_000_000 && table[1] == 5_000_000 && table[2] == 2_500_000);
    let hardware = table[i] as int;
    assert(hardware == rate || hardware == 2 * rate || hardware == 4 * rate || hardware == 8 * rate
        || hardware == 16 * rate || hardware == 32 * rate || hardware == 64 * rate) by (nonlinear_arith)
        requires
            hardware == factor * rate,
            host_factor(factor),
    ;
    assert(factor * rate == rate * factor) by (nonlinear_arith);
    let chosen = hardware_choice(mode, rate)->0;
    lemma_a_decimation_is_exact(chosen.0, rate);
    if chosen.0 <= hardware {
        assert(chosen.1 <= factor) by (nonlinear_arith)
            requires
                chosen.0 == chosen.1 * rate,
                hardware == factor * rate,
                chosen.0 <= hardware,
                chosen.0 > 0,
                rate >= 0,
        ;
    }
    if chosen.0 >= hardware {
        assert(chosen.1 >= factor) by (nonlinear_arith)
            requires
                chosen.0 == chosen.1 * rate,
                hardware == factor * rate,
                chosen.0 >= hardware,
                hardware > 0,
                rate >= 0,
        ;
    }
}

/// Law: a rate is requested by the table index of the firmware rate chosen, with
/// the factor chosen, and a raw rate by its own table index, without decimation.
pub proof fn law_a_rate_is_requested_by_its_table_index(mode: DecimationMode, rate: u32)
    ensures
        match (
            rate_selection(SampleType::Float32Iq, mode, rate),
            hardware_choice(mode, rate),
        ) {
            (Some(selected), Some(choice)) => {
                &&& selected.param < 3
                &&& RFONE_FIRMWARE_IQ_SAMPLE_RATES@[selected.param as int] == choice.0
                &&& selected.decimation == choice.1
            },
            (None, None) => true,
            (_, _) => false,
        },
        rate_selection(SampleType::Raw, mode, rate) matches Some(selected) ==> {
            &&& selected.param < 3
            &&& RFONE_RAW_ADC_SAMPLE_RATES@[selected.param as int] == rate
            &&& selected.decimation == 1
        },
{
    let table = RFONE_FIRMWARE_IQ_SAMPLE_RATES@;
    assert(table[0] == 10_000_000 && table[1] == 5_000_000 && table[2] == 2_500_000);
    let raw = RFONE_RAW_ADC_SAMPLE_RATES@;
    assert(raw[0] == 20_000_000 && raw[1] == 10_000_000 && raw[2] == 5_000_000);
}

/// Law: the three raw ADC rates are twice the three firmware rates.
pub proof fn law_raw_rates_are_twice_the_firmware_rates(i: int)
    requires
        0 <= i < 3,
    ensures
        RFONE_RAW_ADC_SAMPLE_RATES@[i] == 2 * RFONE_FIRMWARE_IQ_SAMPLE_RATES@[i],
{
    let raw = RFONE_RAW_ADC_SAMPLE_RATES@;
    assert(raw[0] == 20_000_000 && raw[1] == 10_000_000 && raw[2] == 5_000_000);
    let table = RFONE_FIRMWARE_IQ_SAMPLE_RATES@;
    assert(table[0] == 10_000_000 && table[1] == 5_000_000 && table[2] == 2_500_000);
}

/// Table row of a preset: the tables begin with the strongest preset.
pub open spec fn preset_row(value: u8) -> int {
    if value < 21 {
        21 - value
    } else {
        0
    }
}

/// Table row of a preset: the tables begin with the strongest preset.
pub fn reverse_gain_table_index(value: u8) -> (index: usize)
    ensures
        index == preset_row(value),
        index < 22,
{
    if value < 21 {
        21 - value as usize
    } else {
        0
    }
}

/// Requests of a preset with these gains.
pub open spec fn preset_requests(vga: u8, mixer: u8, lna: u8) -> Seq<RequestView> {
    seq![
        control::spec_legacy_gain(VendorRequest::SetMixerAgc, 0),
        control::spec_legacy_gain(VendorRequest::SetLnaAgc, 0),
        control::spec_legacy_gain(VendorRequest::SetVgaGain, vga),
        control::spec_legacy_gain(VendorRequest::SetMixerGain, mixer),
        control::spec_legacy_gain(VendorRequest::SetLnaGain, lna),
    ]
}

/// Request that writes `value`, where there is one to write.
pub open spec fn optional_request(request: VendorRequest, value: Option<u8>) -> Seq<RequestView> {
    match value {
        None => Seq::empty(),
        Some(value) => seq![control::spec_legacy_gain(request, value)],
    }
}

/// Byte that switches something on or off.
pub open spec fn switch_byte(enabled: bool) -> u8 {
    if enabled {
        1
    } else {
        0
    }
}

/// Byte that switches something on or off, where it is to be switched.
pub open spec fn optional_switch(enabled: Option<bool>) -> Option<u8> {
    match enabled {
        None => None,
        Some(enabled) => Some(switch_byte(enabled)),
    }
}

/// Requests that set one stage: the gain with the automatic control off, or the
/// automatic control on.
pub open spec fn stage_requests(
    agc: VendorRequest,
    gain: VendorRequest,
    stage: StageGain,
) -> Seq<RequestView> {
    match stage {
        StageGain::Manual(value) => seq![
            control::spec_legacy_gain(agc, 0),
            control::spec_legacy_gain(gain, value),
        ],
        StageGain::Agc => seq![control::spec_legacy_gain(agc, 1)],
    }
}

/// Requests that apply a gain configuration, in order.
pub open spec fn gain_requests(gain: GainConfig) -> Seq<RequestView> {
    match gain {
        GainConfig::Unchanged => Seq::empty(),
        GainConfig::Preset(GainPreset::Linearity(value)) => preset_requests(
            RFONE_LINEARITY_VGA_GAINS@[preset_row(value)],
            RFONE_LINEARITY_MIXER_GAINS@[preset_row(value)],
            RFONE_LINEARITY_LNA_GAINS@[preset_row(value)],
        ),
        GainConfig::Preset(GainPreset::Sensitivity(value)) => preset_requests(
            RFONE_SENSITIVITY_VGA_GAINS@[preset_row(value)],
            RFONE_SENSITIVITY_MIXER_GAINS@[preset_row(value)],
            RFONE_SENSITIVITY_LNA_GAINS@[preset_row(value)],
        ),
        GainConfig::Manual { lna, mixer, vga, lna_agc, mixer_agc } => optional_request(
            VendorRequest::SetLnaGain,
            lna,
        ) + optional_request(VendorRequest::SetMixerGain, mixer) + optional_request(
            VendorRequest::SetVgaGain,
            vga,
        ) + optional_request(VendorRequest::SetLnaAgc, optional_switch(lna_agc))
            + optional_request(VendorRequest::SetMixerAgc, optional_switch(mixer_agc)),
        GainConfig::Stages { lna, mixer, vga } => stage_requests(
            VendorRequest::SetLnaAgc,
            VendorRequest::SetLnaGain,
            lna,
        ) + stage_requests(VendorRequest::SetMixerAgc, VendorRequest::SetMixerGain, mixer) + seq![
            control::spec_legacy_gain(VendorRequest::SetVgaGain, vga),
        ],
    }
}

/// Contents of a list of requests.
pub open spec fn request_views(list: Seq<VendorControlRequest>) -> Seq<RequestView> {
    list.map_values(|request: VendorControlRequest| request@)
}

/// Append one gain request.
fn push_gain(list: &mut Vec<VendorControlRequest>, request: VendorRequest, value: u8)
    ensures
        request_views(final(list)@) == request_views(old(list)@).push(
            control::spec_legacy_gain(request, value),
        ),
{
    list.push(VendorControlRequest::legacy_gain(request, value));
    assert(request_views(list@) =~= request_views(old(list)@).push(
        control::spec_legacy_gain(request, value),
    ));
}

/// Append one gain request where there is a value to write.
fn push_optional(list: &mut Vec<VendorControlRequest>, request: VendorRequest, value: Option<u8>)
    ensures
        request_views(final(list)@) == request_views(old(list)@) + optional_request(request, value),
{
    let ghost before = request_views(list@);
    match value {
        None => {
            assert(before + optional_request(request, value) =~= before);
        },
        Some(value) => {
            push_gain(list, request, value);
            assert(before + optional_request(request, Some(value)) =~= request_views(list@));
        },
    }
}

/// Append the requests of one stage.
fn push_stage(
    list: &mut Vec<VendorControlRequest>,
    agc: VendorRequest,
    gain: VendorRequest,
    stage: StageGain,
)
    ensures
        request_views(final(list)@) == request_views(old(list)@) + stage_requests(agc, gain, stage),
{
    let ghost before = request_views(list@);
    match stage {
        StageGain::Manual(value) => {
            push_gain(list, agc, 0);
            push_gain(list, gain, value);
        },
        StageGain::Agc => {
            push_gain(list, agc, 1);
        },
    }
    assert(before + stage_requests(agc, gain, stage) =~= request_views(list@));
}

/// Byte that switches something on or off, where it is to be switched.
fn optional_byte(enabled: Option<bool>) -> (value: Option<u8>)
    ensures
        value == optional_switch(enabled),
{
    match enabled {
        None => None,
        Some(enabled) => Some(if enabled { 1 } else { 0 }),
    }
}

/// Requests of a preset with these gains.
fn preset_gain_plan(vga: u8, mixer: u8, lna: u8) -> (list: Vec<VendorControlRequest>)
    ensures
        request_views(list@) == preset_requests(vga, mixer, lna),
{
    let mut list: Vec<VendorControlRequest> = Vec::new();
    push_gain(&mut list, VendorRequest::SetMixerAgc, 0);
    push_gain(&mut list, VendorRequest::SetLnaAgc, 0);
    push_gain(&mut list, VendorRequest::SetVgaGain, vga);
    push_gain(&mut list, VendorRequest::SetMixerGain, mixer);
    push_gain(&mut list, VendorRequest::SetLnaGain, lna);
    assert(request_views(list@) =~= preset_requests(vga, mixer, lna));
    list
}

/// Requests that apply a gain configuration, in order.
pub fn gain_config_plan(gain: GainConfig) -> (list: Vec<VendorControlRequest>)
    ensures
        request_views(list@) == gain_requests(gain),
{
    match gain {
        GainConfig::Unchanged => {
            let list: Vec<VendorControlRequest> = Vec::new();
            assert(request_views(list@) =~= gain_requests(gain));
            list
        },
        GainConfig::Preset(GainPreset::Linearity(value)) => {
            let row: usize = reverse_gain_table_index(value);
            preset_gain_plan(
                RFONE_LINEARITY_VGA_GAINS[row],
                RFONE_LINEARITY_MIXER_GAINS[row],
                RFONE_LINEARITY_LNA_GAINS[row],
            )
        },
        GainConfig::Preset(GainPreset::Sensitivity(value)) => {
            let row: usize = reverse_gain_table_index(value);
            preset_gain_plan(
                RFONE_SENSITIVITY_VGA_GAINS[row],
                RFONE_SENSITIVITY_MIXER_GAINS[row],
                RFONE_SENSITIVITY_LNA_GAINS[row],
            )
        },
        GainConfig::Manual { lna, mixer, vga, lna_agc, mixer_agc } => {
            let mut list: Vec<VendorControlRequest> = Vec::new();
            assert(request_views(list@) =~= Seq::empty());
            push_optional(&mut list, VendorRequest::SetLnaGain, lna);
            push_optional(&mut list, VendorRequest::SetMixerGain, mixer);
            push_optional(&mut list, VendorRequest::SetVgaGain, vga);
            push_optional(&mut list, VendorRequest::SetLnaAgc, optional_byte(lna_agc));
            push_optional(&mut list, VendorRequest::SetMixerAgc, optional_byte(mixer_agc));
            assert(request_views(list@) =~= gain_requests(gain));
            list
        },
        GainConfig::Stages { lna, mixer, vga } => {
            let mut list: Vec<VendorControlRequest> = Vec::new();
            assert(request_views(list@) =~= Seq::empty());
            push_stage(&mut list, VendorRequest::SetLnaAgc, VendorRequest::SetLnaGain, lna);
            push_stage(&mut list, VendorRequest::SetMixerAgc, VendorRequest::SetMixerGain, mixer);
            push_gain(&mut list, VendorRequest::SetVgaGain, vga);
            assert(request_views(list@) =~= gain_requests(gain));
            list
        },
    }
}

/// Whether `request` writes a gain or an AGC.
pub open spec fn writes_gain(request: VendorRequest) -> bool {
    ||| request == VendorRequest::SetLnaGain
    ||| request == VendorRequest::SetMixerGain
    ||| request == VendorRequest::SetVgaGain
    ||| request == VendorRequest::SetLnaAgc
    ||| request == VendorRequest::SetMixerAgc
}

/// Whether every request of `list` writes a gain or an AGC.
pub open spec fn all_write_gain(list: Seq<RequestView>) -> bool {
    forall|i: int| 0 <= i < list.len() ==> writes_gain((#[trigger] list[i]).request)
}

/// Joining two lists of gain requests gives one.
proof fn lemma_joined_gain_requests(a: Seq<RequestView>, b: Seq<RequestView>)
    requires
        all_write_gain(a),
        all_write_gain(b),
    ensures
        all_write_gain(a + b),
        (a + b).len() == a.len() + b.len(),
{
}

/// Law: a gain configuration takes at most five requests, and all write a gain
/// or an AGC.
pub proof fn law_gain_plans_are_short(gain: GainConfig)
    ensures
        gain_requests(gain).len() <= 5,
        gain == GainConfig::Unchanged ==> gain_requests(gain).len() == 0,
        all_write_gain(gain_requests(gain)),
{
    match gain {
        GainConfig::Unchanged => {},
        GainConfig::Preset(_) => {},
        GainConfig::Manual { lna, mixer, vga, lna_agc, mixer_agc } => {
            let a = optional_request(VendorRequest::SetLnaGain, lna);
            let b = optional_request(VendorRequest::SetMixerGain, mixer);
            let c = optional_request(VendorRequest::SetVgaGain, vga);
            let d = optional_request(VendorRequest::SetLnaAgc, optional_switch(lna_agc));
            let e = optional_request(VendorRequest::SetMixerAgc, optional_switch(mixer_agc));
            lemma_joined_gain_requests(a, b);
            lemma_joined_gain_requests(a + b, c);
            lemma_joined_gain_requests(a + b + c, d);
            lemma_joined_gain_requests(a + b + c + d, e);
        },
        GainConfig::Stages { lna, mixer, vga } => {
            let a = stage_requests(VendorRequest::SetLnaAgc, VendorRequest::SetLnaGain, lna);
            let b = stage_requests(VendorRequest::SetMixerAgc, VendorRequest::SetMixerGain, mixer);
            let c = seq![control::spec_legacy_gain(VendorRequest::SetVgaGain, vga)];
            lemma_joined_gain_requests(a, b);
            lemma_joined_gain_requests(a + b, c);
        },
    }
}

/// Law: the preset tables hold only gains that the board accepts.
pub proof fn law_preset_gains_are_in_range(value: u8)
    ensures
        RFONE_LINEARITY_LNA_GAINS@[preset_row(value)] <= rfone::RFONE_LNA_MAX_GAIN,
        RFONE_LINEARITY_MIXER_GAINS@[preset_row(value)] <= rfone::RFONE_MIXER_MAX_GAIN,
        RFONE_LINEARITY_VGA_GAINS@[preset_row(value)] <= rfone::RFONE_VGA_MAX_GAIN,
        RFONE_SENSITIVITY_LNA_GAINS@[preset_row(value)] <= rfone::RFONE_LNA_MAX_GAIN,
        RFONE_SENSITIVITY_MIXER_GAINS@[preset_row(value)] <= rfone::RFONE_MIXER_MAX_GAIN,
        RFONE_SENSITIVITY_VGA_GAINS@[preset_row(value)] <= rfone::RFONE_VGA_MAX_GAIN,
{
    assert(forall|i: int| 0 <= i < 22 ==> #[trigger] RFONE_LINEARITY_LNA_GAINS@[i] <= 14);
    assert(forall|i: int| 0 <= i < 22 ==> #[trigger] RFONE_LINEARITY_MIXER_GAINS@[i] <= 15);
    assert(forall|i: int| 0 <= i < 22 ==> #[trigger] RFONE_LINEARITY_VGA_GAINS@[i] <= 15);
    assert(forall|i: int| 0 <= i < 22 ==> #[trigger] RFONE_SENSITIVITY_LNA_GAINS@[i] <= 14);
    assert(forall|i: int| 0 <= i < 22 ==> #[trigger] RFONE_SENSITIVITY_MIXER_GAINS@[i] <= 15);
    assert(forall|i: int| 0 <= i < 22 ==> #[trigger] RFONE_SENSITIVITY_VGA_GAINS@[i] <= 15);
}

/// Value that the last request of this kind in `list` writes, if there is one.
pub open spec fn last_write(list: Seq<RequestView>, request: VendorRequest) -> Option<u16>
    decreases list.len(),
{
    if list.len() == 0 {
        None
    } else if list.last().request == request {
        Some(list.last().index)
    } else {
        last_write(list.drop_last(), request)
    }
}

/// Appending a request writes its value and leaves every other write as it was.
proof fn lemma_last_write_of_appended(
    list: Seq<RequestView>,
    request: VendorRequest,
    value: u8,
    asked: VendorRequest,
)
    ensures
        last_write(list.push(control::spec_legacy_gain(request, value)), asked)
            == if request == asked {
            Some(value as u16)
        } else {
            last_write(list, asked)
        },
{
    let longer = list.push(control::spec_legacy_gain(request, value));
    assert(longer.drop_last() =~= list);
}

/// What a list of five gain requests writes.
proof fn lemma_last_writes_of_a_preset(vga: u8, mixer: u8, lna: u8)
    ensures
        ({
            let list = preset_requests(vga, mixer, lna);
            &&& last_write(list, VendorRequest::SetVgaGain) == Some(vga as u16)
            &&& last_write(list, VendorRequest::SetMixerGain) == Some(mixer as u16)
            &&& last_write(list, VendorRequest::SetLnaGain) == Some(lna as u16)
            &&& last_write(list, VendorRequest::SetMixerAgc) == Some(0u16)
            &&& last_write(list, VendorRequest::SetLnaAgc) == Some(0u16)
        }),
{
    reveal_with_fuel(last_write, 6);
    let list = preset_requests(vga, mixer, lna);
    let four = list.drop_last();
    let three = four.drop_last();
    let two = three.drop_last();
    let one = two.drop_last();
    assert(four.last() == list[3] && three.last() == list[2] && two.last() == list[1] && one.last()
        == list[0]);
}

/// Law: a preset writes the gains in its own row of its own three tables, where
/// preset 21 is the first row and preset 0 the last, and switches both automatic
/// controls off before it writes any gain.
pub proof fn law_a_preset_writes_its_row_of_its_tables(value: u8)
    requires
        value <= 21,
    ensures
        ({
            let list = gain_requests(GainConfig::Preset(GainPreset::Linearity(value)));
            let row = 21 - value;
            &&& list.len() == 5
            &&& last_write(list, VendorRequest::SetVgaGain) == Some(
                RFONE_LINEARITY_VGA_GAINS@[row] as u16,
            )
            &&& last_write(list, VendorRequest::SetMixerGain) == Some(
                RFONE_LINEARITY_MIXER_GAINS@[row] as u16,
            )
            &&& last_write(list, VendorRequest::SetLnaGain) == Some(
                RFONE_LINEARITY_LNA_GAINS@[row] as u16,
            )
            &&& last_write(list, VendorRequest::SetMixerAgc) == Some(0u16)
            &&& last_write(list, VendorRequest::SetLnaAgc) == Some(0u16)
            &&& list[0].request == VendorRequest::SetMixerAgc
            &&& list[1].request == VendorRequest::SetLnaAgc
        }),
        ({
            let list = gain_requests(GainConfig::Preset(GainPreset::Sensitivity(value)));
            let row = 21 - value;
            &&& list.len() == 5
            &&& last_write(list, VendorRequest::SetVgaGain) == Some(
                RFONE_SENSITIVITY_VGA_GAINS@[row] as u16,
            )
            &&& last_write(list, VendorRequest::SetMixerGain) == Some(
                RFONE_SENSITIVITY_MIXER_GAINS@[row] as u16,
            )
            &&& last_write(list, VendorRequest::SetLnaGain) == Some(
                RFONE_SENSITIVITY_LNA_GAINS@[row] as u16,
            )
            &&& last_write(list, VendorRequest::SetMixerAgc) == Some(0u16)
            &&& last_write(list, VendorRequest::SetLnaAgc) == Some(0u16)
            &&& list[0].request == VendorRequest::SetMixerAgc
            &&& list[1].request == VendorRequest::SetLnaAgc
        }),
{
    let row = preset_row(value);
    lemma_last_writes_of_a_preset(
        RFONE_LINEARITY_VGA_GAINS@[row],
        RFONE_LINEARITY_MIXER_GAINS@[row],
        RFONE_LINEARITY_LNA_GAINS@[row],
    );
    lemma_last_writes_of_a_preset(
        RFONE_SENSITIVITY_VGA_GAINS@[row],
        RFONE_SENSITIVITY_MIXER_GAINS@[row],
        RFONE_SENSITIVITY_LNA_GAINS@[row],
    );
}

/// Law: a preset beyond the table writes what the strongest one writes.
pub proof fn law_presets_beyond_the_table_are_the_strongest(value: u8)
    requires
        value >= 21,
    ensures
        gain_requests(GainConfig::Preset(GainPreset::Linearity(value))) == gain_requests(
            GainConfig::Preset(GainPreset::Linearity(21)),
        ),
        gain_requests(GainConfig::Preset(GainPreset::Sensitivity(value))) == gain_requests(
            GainConfig::Preset(GainPreset::Sensitivity(21)),
        ),
{
}

/// Law: the rows of the preset tables, strongest preset first. In each row a
/// sensitivity preset has at least the LNA gain and at most the VGA gain of the
/// linearity preset, and from the fourth row on less VGA gain.
pub proof fn law_the_preset_tables(row: int)
    requires
        0 <= row < 22,
    ensures
        RFONE_LINEARITY_VGA_GAINS@ == seq![
            13u8, 12, 11, 11, 11, 11, 11, 10, 10, 10, 10, 10, 10, 10, 10, 10, 9, 8, 7, 6, 5, 4,
        ],
        RFONE_LINEARITY_MIXER_GAINS@ == seq![
            12u8, 12, 11, 9, 8, 7, 6, 6, 5, 0, 0, 1, 0, 0, 2, 2, 1, 1, 1, 1, 0, 0,
        ],
        RFONE_LINEARITY_LNA_GAINS@ == seq![
            14u8, 14, 14, 13, 12, 10, 9, 9, 8, 9, 8, 6, 5, 3, 1, 0, 0, 0, 0, 0, 0, 0,
        ],
        RFONE_SENSITIVITY_VGA_GAINS@ == seq![
            13u8, 12, 11, 10, 9, 8, 7, 6, 5, 5, 5, 5, 5, 4, 4, 4, 4, 4, 4, 4, 4, 4,
        ],
        RFONE_SENSITIVITY_MIXER_GAINS@ == seq![
            12u8, 12, 12, 12, 11, 10, 10, 9, 9, 8, 7, 4, 4, 4, 3, 2, 2, 1, 0, 0, 0, 0,
        ],
        RFONE_SENSITIVITY_LNA_GAINS@ == seq![
            14u8, 14, 14, 14, 14, 14, 14, 14, 14, 13, 12, 12, 9, 9, 8, 7, 6, 5, 3, 2, 1, 0,
        ],
        RFONE_SENSITIVITY_LNA_GAINS@[row] >= RFONE_LINEARITY_LNA_GAINS@[row],
        RFONE_SENSITIVITY_VGA_GAINS@[row] <= RFONE_LINEARITY_VGA_GAINS@[row],
        3 <= row < 21 ==> RFONE_SENSITIVITY_VGA_GAINS@[row] < RFONE_LINEARITY_VGA_GAINS@[row],
{
    assert(RFONE_LINEARITY_VGA_GAINS@ =~= seq![
        13u8, 12, 11, 11, 11, 11, 11, 10, 10, 10, 10, 10, 10, 10, 10, 10, 9, 8, 7, 6, 5, 4,
    ]);
    assert(RFONE_LINEARITY_MIXER_GAINS@ =~= seq![
        12u8, 12, 11, 9, 8, 7, 6, 6, 5, 0, 0, 1, 0, 0, 2, 2, 1, 1, 1, 1, 0, 0,
    ]);
    assert(RFONE_LINEARITY_LNA_GAINS@ =~= seq![
        14u8, 14, 14, 13, 12, 10, 9, 9, 8, 9, 8, 6, 5, 3, 1, 0, 0, 0, 0, 0, 0, 0,
    ]);
    assert(RFONE_SENSITIVITY_VGA_GAINS@ =~= seq![
        13u8, 12, 11, 10, 9, 8, 7, 6, 5, 5, 5, 5, 5, 4, 4, 4, 4, 4, 4, 4, 4, 4,
    ]);
    assert(RFONE_SENSITIVITY_MIXER_GAINS@ =~= seq![
        12u8, 12, 12, 12, 11, 10, 10, 9, 9, 8, 7, 4, 4, 4, 3, 2, 2, 1, 0, 0, 0, 0,
    ]);
    assert(RFONE_SENSITIVITY_LNA_GAINS@ =~= seq![
        14u8, 14, 14, 14, 14, 14, 14, 14, 14, 13, 12, 12, 9, 9, 8, 7, 6, 5, 3, 2, 1, 0,
    ]);
}

/// Law: from the fourth strongest preset down to preset 1, the two kinds of preset
/// of one value send different requests.
pub proof fn law_the_two_kinds_of_preset_differ(value: u8)
    requires
        1 <= value <= 18,
    ensures
        gain_requests(GainConfig::Preset(GainPreset::Linearity(value))) != gain_requests(
            GainConfig::Preset(GainPreset::Sensitivity(value)),
        ),
{
    law_a_preset_writes_its_row_of_its_tables(value);
    law_the_preset_tables(21 - value);
}

/// Law: a manual gain writes each part that it names, with its value, and no part
/// that it does not name.
pub proof fn law_a_manual_gain_writes_what_it_names(
    lna: Option<u8>,
    mixer: Option<u8>,
    vga: Option<u8>,
    lna_agc: Option<bool>,
    mixer_agc: Option<bool>,
)
    ensures
        ({
            let list = gain_requests(GainConfig::Manual { lna, mixer, vga, lna_agc, mixer_agc });
            &&& last_write(list, VendorRequest::SetLnaGain) == named(lna)
            &&& last_write(list, VendorRequest::SetMixerGain) == named(mixer)
            &&& last_write(list, VendorRequest::SetVgaGain) == named(vga)
            &&& last_write(list, VendorRequest::SetLnaAgc) == named_switch(lna_agc)
            &&& last_write(list, VendorRequest::SetMixerAgc) == named_switch(mixer_agc)
        }),
{
    let a = optional_request(VendorRequest::SetLnaGain, lna);
    let b = optional_request(VendorRequest::SetMixerGain, mixer);
    let c = optional_request(VendorRequest::SetVgaGain, vga);
    let d = optional_request(VendorRequest::SetLnaAgc, optional_switch(lna_agc));
    let e = optional_request(VendorRequest::SetMixerAgc, optional_switch(mixer_agc));
    assert(Seq::<RequestView>::empty() + a =~= a);
    lemma_last_writes_of_appended(Seq::empty(), VendorRequest::SetLnaGain, lna);
    lemma_last_writes_of_appended(a, VendorRequest::SetMixerGain, mixer);
    lemma_last_writes_of_appended(a + b, VendorRequest::SetVgaGain, vga);
    lemma_last_writes_of_appended(a + b + c, VendorRequest::SetLnaAgc, optional_switch(lna_agc));
    lemma_last_writes_of_appended(
        a + b + c + d,
        VendorRequest::SetMixerAgc,
        optional_switch(mixer_agc),
    );
}

/// Value of a gain that is named, as it travels.
pub open spec fn named(value: Option<u8>) -> Option<u16> {
    match value {
        None => None,
        Some(value) => Some(value as u16),
    }
}

/// Value of a switch that is named, as it travels: one is on, zero is off.
pub open spec fn named_switch(enabled: Option<bool>) -> Option<u16> {
    match enabled {
        None => None,
        Some(true) => Some(1),
        Some(false) => Some(0),
    }
}

/// Appending what is named writes it and leaves every other write as it was.
proof fn lemma_last_writes_of_appended(
    list: Seq<RequestView>,
    request: VendorRequest,
    value: Option<u8>,
)
    ensures
        forall|asked: VendorRequest| #[trigger]
            last_write(list + optional_request(request, value), asked) == if request == asked
                && value is Some {
                named(value)
            } else {
                last_write(list, asked)
            },
{
    match value {
        None => {
            assert(list + optional_request(request, value) =~= list);
        },
        Some(number) => {
            assert(list + optional_request(request, value) =~= list.push(
                control::spec_legacy_gain(request, number),
            ));
            assert forall|asked: VendorRequest| #[trigger]
                last_write(list + optional_request(request, value), asked) == if request == asked {
                    named(value)
                } else {
                    last_write(list, asked)
                } by {
                lemma_last_write_of_appended(list, request, number, asked);
            }
        },
    }
}

/// Law: a gain that is set stage by stage writes the VGA gain and both automatic
/// controls, and the gain of a stage exactly where it is set by hand. The
/// automatic control of a stage is on exactly where its gain is not set by hand.
pub proof fn law_a_staged_gain_settles_every_stage(lna: StageGain, mixer: StageGain, vga: u8)
    ensures
        ({
            let list = gain_requests(GainConfig::Stages { lna, mixer, vga });
            &&& last_write(list, VendorRequest::SetVgaGain) == Some(vga as u16)
            &&& last_write(list, VendorRequest::SetLnaGain) == match lna {
                StageGain::Manual(value) => Some(value as u16),
                StageGain::Agc => None,
            }
            &&& last_write(list, VendorRequest::SetMixerGain) == match mixer {
                StageGain::Manual(value) => Some(value as u16),
                StageGain::Agc => None,
            }
            &&& last_write(list, VendorRequest::SetLnaAgc) == Some(
                if lna == StageGain::Agc { 1u16 } else { 0u16 },
            )
            &&& last_write(list, VendorRequest::SetMixerAgc) == Some(
                if mixer == StageGain::Agc { 1u16 } else { 0u16 },
            )
        }),
{
    let a = stage_requests(VendorRequest::SetLnaAgc, VendorRequest::SetLnaGain, lna);
    let b = stage_requests(VendorRequest::SetMixerAgc, VendorRequest::SetMixerGain, mixer);
    let c = seq![control::spec_legacy_gain(VendorRequest::SetVgaGain, vga)];
    assert(Seq::<RequestView>::empty() + a =~= a);
    lemma_last_writes_of_a_stage(
        Seq::empty(),
        VendorRequest::SetLnaAgc,
        VendorRequest::SetLnaGain,
        lna,
    );
    lemma_last_writes_of_a_stage(a, VendorRequest::SetMixerAgc, VendorRequest::SetMixerGain, mixer);
    assert(a + b + c =~= (a + b).push(control::spec_legacy_gain(VendorRequest::SetVgaGain, vga)));
    lemma_last_writes_of_appended(a + b, VendorRequest::SetVgaGain, Some(vga));
    assert(optional_request(VendorRequest::SetVgaGain, Some(vga)) =~= c);
}

/// Appending one stage writes its automatic control and its gain by hand.
proof fn lemma_last_writes_of_a_stage(
    list: Seq<RequestView>,
    agc: VendorRequest,
    gain: VendorRequest,
    stage: StageGain,
)
    requires
        agc != gain,
    ensures
        forall|asked: VendorRequest| #[trigger]
            last_write(list + stage_requests(agc, gain, stage), asked) == if asked == agc {
                Some(if stage == StageGain::Agc { 1u16 } else { 0u16 })
            } else if asked == gain && stage is Manual {
                Some(stage->Manual_0 as u16)
            } else {
                last_write(list, asked)
            },
{
    match stage {
        StageGain::Agc => {
            lemma_last_writes_of_appended(list, agc, Some(1u8));
            assert(optional_request(agc, Some(1u8)) =~= stage_requests(agc, gain, stage));
        },
        StageGain::Manual(value) => {
            lemma_last_writes_of_appended(list, agc, Some(0u8));
            lemma_last_writes_of_appended(
                list + optional_request(agc, Some(0u8)),
                gain,
                Some(value),
            );
            assert(list + optional_request(agc, Some(0u8)) + optional_request(gain, Some(value))
                =~= list + stage_requests(agc, gain, stage));
        },
    }
}

/// Place of a request among those of a gain configuration: a manual gain writes
/// the gains before the automatic controls, a preset the other way round, and a
/// gain that is set stage by stage writes each automatic control just before the
/// gain of its stage.
pub open spec fn gain_place(gain: GainConfig, request: VendorRequest) -> int {
    match (gain, request) {
        (GainConfig::Manual { .. }, VendorRequest::SetLnaGain) => 0,
        (GainConfig::Manual { .. }, VendorRequest::SetMixerGain) => 1,
        (GainConfig::Manual { .. }, VendorRequest::SetVgaGain) => 2,
        (GainConfig::Manual { .. }, VendorRequest::SetLnaAgc) => 3,
        (GainConfig::Manual { .. }, VendorRequest::SetMixerAgc) => 4,
        (GainConfig::Preset(_), VendorRequest::SetMixerAgc) => 0,
        (GainConfig::Preset(_), VendorRequest::SetLnaAgc) => 1,
        (GainConfig::Preset(_), VendorRequest::SetVgaGain) => 2,
        (GainConfig::Preset(_), VendorRequest::SetMixerGain) => 3,
        (GainConfig::Preset(_), VendorRequest::SetLnaGain) => 4,
        (GainConfig::Stages { .. }, VendorRequest::SetLnaAgc) => 0,
        (GainConfig::Stages { .. }, VendorRequest::SetLnaGain) => 1,
        (GainConfig::Stages { .. }, VendorRequest::SetMixerAgc) => 2,
        (GainConfig::Stages { .. }, VendorRequest::SetMixerGain) => 3,
        (GainConfig::Stages { .. }, VendorRequest::SetVgaGain) => 4,
        (_, _) => -1,
    }
}

/// Whether `request` is an IN request for one byte that carries a byte in its
/// `wIndex` field.
pub open spec fn acknowledged_byte(request: RequestView) -> bool {
    &&& request.direction == control::ControlDirection::In
    &&& request.value == 0
    &&& request.index <= 255
    &&& request.length == 1
    &&& request.data.len() == 0
    &&& request.timeout_ms == 500
}

/// Whether the requests of `list` are acknowledged and stand in their places, all
/// before the place `end`.
pub open spec fn in_place(list: Seq<RequestView>, gain: GainConfig, end: int) -> bool {
    &&& forall|i: int|
        0 <= i < list.len() ==> acknowledged_byte(#[trigger] list[i]) && 0 <= gain_place(
            gain,
            list[i].request,
        ) < end
    &&& forall|i: int, j: int|
        0 <= i < j < list.len() ==> gain_place(gain, (#[trigger] list[i]).request) < gain_place(
            gain,
            (#[trigger] list[j]).request,
        )
}

/// A request that is due next keeps the others in their places.
proof fn lemma_appended_in_place(
    list: Seq<RequestView>,
    gain: GainConfig,
    request: VendorRequest,
    value: Option<u8>,
)
    requires
        in_place(list, gain, gain_place(gain, request)),
        gain_place(gain, request) >= 0,
    ensures
        in_place(list + optional_request(request, value), gain, gain_place(gain, request) + 1),
{
    let longer = list + optional_request(request, value);
    assert forall|i: int| 0 <= i < longer.len() implies acknowledged_byte(#[trigger] longer[i]) && 0
        <= gain_place(gain, longer[i].request) < gain_place(gain, request) + 1 by {
        if i < list.len() {
            assert(longer[i] == list[i]);
        }
    }
    assert forall|i: int, j: int| 0 <= i < j < longer.len() implies gain_place(
        gain,
        (#[trigger] longer[i]).request,
    ) < gain_place(gain, (#[trigger] longer[j]).request) by {
        assert(longer[i] == list[i]);
        if j < list.len() {
            assert(longer[j] == list[j]);
        }
    }
}

/// Law: every request of a gain configuration is acknowledged by the device, no
/// two write the same part, and they come in a fixed order.
pub proof fn law_gain_requests_come_in_order(gain: GainConfig)
    ensures
        in_place(gain_requests(gain), gain, 5),
{
    match gain {
        GainConfig::Unchanged => {},
        GainConfig::Preset(_) => {},
        GainConfig::Manual { lna, mixer, vga, lna_agc, mixer_agc } => {
            let a = optional_request(VendorRequest::SetLnaGain, lna);
            let b = optional_request(VendorRequest::SetMixerGain, mixer);
            let c = optional_request(VendorRequest::SetVgaGain, vga);
            let d = optional_request(VendorRequest::SetLnaAgc, optional_switch(lna_agc));
            assert(Seq::<RequestView>::empty() + a =~= a);
            lemma_appended_in_place(Seq::empty(), gain, VendorRequest::SetLnaGain, lna);
            lemma_appended_in_place(a, gain, VendorRequest::SetMixerGain, mixer);
            lemma_appended_in_place(a + b, gain, VendorRequest::SetVgaGain, vga);
            lemma_appended_in_place(
                a + b + c,
                gain,
                VendorRequest::SetLnaAgc,
                optional_switch(lna_agc),
            );
            lemma_appended_in_place(
                a + b + c + d,
                gain,
                VendorRequest::SetMixerAgc,
                optional_switch(mixer_agc),
            );
        },
        GainConfig::Stages { lna, mixer, vga } => {
            let lna_switch = Some(if lna == StageGain::Agc { 1u8 } else { 0u8 });
            let mixer_switch = Some(if mixer == StageGain::Agc { 1u8 } else { 0u8 });
            let a = optional_request(VendorRequest::SetLnaAgc, lna_switch);
            let b = optional_request(VendorRequest::SetLnaGain, lna.spec_manual());
            let c = optional_request(VendorRequest::SetMixerAgc, mixer_switch);
            let d = optional_request(VendorRequest::SetMixerGain, mixer.spec_manual());
            let e = optional_request(VendorRequest::SetVgaGain, Some(vga));
            assert(Seq::<RequestView>::empty() + a =~= a);
            lemma_appended_in_place(Seq::empty(), gain, VendorRequest::SetLnaAgc, lna_switch);
            lemma_appended_in_place(a, gain, VendorRequest::SetLnaGain, lna.spec_manual());
            lemma_appended_in_place(a + b, gain, VendorRequest::SetMixerAgc, mixer_switch);
            lemma_appended_in_place(
                a + b + c,
                gain,
                VendorRequest::SetMixerGain,
                mixer.spec_manual(),
            );
            lemma_appended_in_place(a + b + c + d, gain, VendorRequest::SetVgaGain, Some(vga));
            assert(a + b =~= stage_requests(
                VendorRequest::SetLnaAgc,
                VendorRequest::SetLnaGain,
                lna,
            ));
            assert(c + d =~= stage_requests(
                VendorRequest::SetMixerAgc,
                VendorRequest::SetMixerGain,
                mixer,
            ));
            assert(a + b + c + d + e =~= gain_requests(gain));
        },
    }
}

/// Law: the rate tables. Each firmware rate is half the one before, and the rates
/// of converted samples go on halving down to what 32 makes of the lowest.
pub proof fn law_the_rate_tables(i: int)
    ensures
        RFONE_FIRMWARE_IQ_SAMPLE_RATES@ == seq![10_000_000u32, 5_000_000, 2_500_000],
        RFONE_RAW_ADC_SAMPLE_RATES@ == seq![20_000_000u32, 10_000_000, 5_000_000],
        RFONE_F32_IQ_SAMPLE_RATES@.len() == 8,
        RFONE_F32_IQ_SAMPLE_RATES@[0] == 10_000_000,
        0 <= i < 7 ==> RFONE_F32_IQ_SAMPLE_RATES@[i] == 2 * RFONE_F32_IQ_SAMPLE_RATES@[i + 1],
{
    assert(RFONE_FIRMWARE_IQ_SAMPLE_RATES@ =~= seq![10_000_000u32, 5_000_000, 2_500_000]);
    assert(RFONE_RAW_ADC_SAMPLE_RATES@ =~= seq![20_000_000u32, 10_000_000, 5_000_000]);
    let iq = RFONE_F32_IQ_SAMPLE_RATES@;
    assert(iq[0] == 10_000_000 && iq[1] == 5_000_000 && iq[2] == 2_500_000 && iq[3] == 1_250_000
        && iq[4] == 625_000 && iq[5] == 312_500 && iq[6] == 156_250 && iq[7] == 78_125);
}

} // verus!
