use hydrasdr_rs::active_state::{ActiveStateInner, UnavailableReason};
use hydrasdr_rs::config::DeviceSelector;
use hydrasdr_rs::errors::StatusCode;
use hydrasdr_rs::types::SampleType;
use hydrasdr_rs::{
    ActiveState, Bandwidth, Config, ConfigData, DecimationMode, Device, Error, ErrorKind,
    F32Iq, GainConfig, GainPreset, GainStage, RawAdc, RfPort, SampleFormat, StageGain,
};

#[test]
fn failed_update_hides_previous_value_until_success() {
    let state = ActiveState::default();
    state.set_frequency_result(100_000_000, true);
    assert_eq!(state.frequency_hz().unwrap(), 100_000_000);

    state.set_frequency_result(200_000_000, false);
    assert!(state.frequency_hz().is_err());

    state.set_frequency_result(300_000_000, true);
    assert_eq!(state.frequency_hz().unwrap(), 300_000_000);
}

#[test]
fn unapplied_gain_is_optional_but_failed_gain_is_an_error() {
    let state = ActiveState::default();
    assert_eq!(state.gain(GainStage::Lna).unwrap(), None);

    let gain = GainConfig::Manual {
        lna: Some(10),
        mixer: None,
        vga: None,
        lna_agc: None,
        mixer_agc: None,
    };
    state.set_gain_result(gain, false);
    assert!(state.gain(GainStage::Lna).is_err());

    state.set_gain_result(gain, true);
    assert_eq!(state.gain(GainStage::Lna).unwrap(), Some(10));
}

#[test]
fn clones_share_authoritative_state() {
    let state = ActiveState::default();
    let clone = state.clone();

    state.set_sample_rate_result(10_000_000, true);

    assert_eq!(clone.sample_rate_hz().unwrap(), 10_000_000);
}

#[test]
fn a_handle_equals_its_clones_and_handles_to_equal_states() {
    let state = ActiveState::default();
    let clone = state.clone();
    let other = ActiveState::default();
    assert!(state == clone);
    assert!(state == other);

    state.set_frequency_result(100_000_000, true);
    assert!(state == clone);
    assert!(state != other);

    other.set_frequency_result(100_000_000, true);
    assert!(state == other);
}

#[test]
fn sample_modes_have_a_default() {
    assert_eq!(RawAdc::default(), RawAdc);
    assert_eq!(F32Iq::default(), F32Iq);
}

#[test]
fn applied_config_preserves_unchanged_gain() {
    let mut active = Config::default();
    let applied = Config::builder()
        .frequency_hz(144_500_000)
        .gain(GainConfig::Unchanged)
        .build()
        .expect("valid partial configuration");

    active.apply_internal(&applied);

    assert_eq!(active.frequency_hz(), 144_500_000);
    assert_eq!(active.gain(), GainConfig::default());
}

#[test]
fn applied_manual_gain_merges_unspecified_stages() {
    let mut active = Config::default();

    active.set_gain_internal(GainConfig::Manual {
        lna: Some(3),
        mixer: None,
        vga: None,
        lna_agc: None,
        mixer_agc: Some(true),
    });

    assert_eq!(
        active.gain(),
        GainConfig::Manual {
            lna: Some(3),
            mixer: Some(15),
            vga: Some(6),
            lna_agc: Some(false),
            mixer_agc: Some(true),
        }
    );
}

#[test]
fn an_applied_config_is_reported_through_every_handle() {
    let state = ActiveState::default();
    let other = state.clone();
    let config = Config::builder().raw_adc().packing(true).build().unwrap();

    state.begin_config(&config.data());
    assert!(matches!(
        other.frequency_hz(),
        Err(Error::StateUnavailable {
            field: "frequency",
            reason: "an update is in progress or did not complete",
        })
    ));

    state.apply_config(&config.data());
    assert_eq!(other.frequency_hz().unwrap(), 100_000_000);
    assert_eq!(other.sample_rate_hz().unwrap(), 10_000_000);
    assert_eq!(other.bandwidth().unwrap(), Bandwidth::Auto);
    assert_eq!(other.sample_format().unwrap(), SampleFormat::RawAdc);
    assert_eq!(other.decimation_mode().unwrap(), DecimationMode::LowBandwidth);
    assert_eq!(other.rf_port().unwrap(), RfPort::Rx0);
    assert_eq!(other.gain(GainStage::Lna).unwrap(), Some(14));
    assert_eq!(other.gain(GainStage::Mixer).unwrap(), Some(15));
    assert_eq!(other.gain(GainStage::Vga).unwrap(), Some(6));
    assert!(!other.agc_enabled().unwrap());
    assert!(!other.bias_tee().unwrap());
    assert!(other.packing().unwrap());
    assert!(state == other);
    assert!(state != ActiveState::default());

    state.fail_config(&config.data());
    assert!(matches!(
        other.packing(),
        Err(Error::StateUnavailable {
            field: "packing",
            reason: "the last update failed",
        })
    ));
}

#[test]
fn a_preset_hides_the_physical_gains_and_differing_agcs_have_no_common_state() {
    let mut state = ActiveStateInner::default();
    assert!(matches!(
        state.agc_enabled(),
        Err(Error::StateUnavailable {
            field: "LNA AGC",
            reason: "no value has been successfully applied",
        })
    ));
    state.apply_gain(GainConfig::Preset(GainPreset::Sensitivity(3)));
    assert!(matches!(
        state.gain(GainStage::Vga),
        Err(Error::StateUnavailable {
            field: "VGA gain",
            reason: "physical values are not reported after applying a gain preset",
        })
    ));

    state.apply_gain(GainConfig::Stages {
        lna: StageGain::Manual(5),
        mixer: StageGain::Agc,
        vga: 7,
    });
    assert_eq!(state.gain(GainStage::Lna).unwrap(), Some(5));
    assert!(state.gain(GainStage::Mixer).is_err());
    assert_eq!(state.gain(GainStage::Vga).unwrap(), Some(7));
    assert!(matches!(
        state.agc_enabled(),
        Err(Error::StateUnavailable {
            field: "AGC",
            reason: "LNA and mixer AGC states differ",
        })
    ));
}

#[test]
fn an_unapplied_config_leaves_alone_what_it_does_not_write() {
    let mut state = ActiveStateInner::default();
    let complete = ConfigData::standard(SampleFormat::F32Iq);
    state.apply_config(&complete);

    let partial = ConfigData {
        rf_port: None,
        bias_tee: None,
        gain: GainConfig::Unchanged,
        ..complete
    };
    state.invalidate_config(&partial, UnavailableReason::LastUpdateFailed);
    assert!(state.frequency_hz().is_err());
    assert_eq!(state.rf_port().unwrap(), RfPort::Rx0);
    assert!(!state.bias_tee().unwrap());
    assert_eq!(state.gain(GainStage::Lna).unwrap(), Some(14));

    let mut again = state;
    again.apply_config(&partial);
    let mut direct = ActiveStateInner::default();
    direct.apply_config(&complete);
    assert_eq!(again, direct);
}

#[test]
fn config_builder_validates_safe_ranges_before_usb_io() {
    assert_eq!(Device::builder().selector(), DeviceSelector::First);
    assert_eq!(
        Device::builder().serial(0x0123_4567_89ab_cdef).selector(),
        DeviceSelector::Serial(0x0123_4567_89ab_cdef)
    );

    let err = Config::builder().frequency_hz(0).build().unwrap_err();
    assert_eq!(err.status_code(), StatusCode::InvalidParam);
    assert!(err.message().contains("frequency_hz"));

    let err = Config::builder().sample_rate_hz(9_999).build().unwrap_err();
    assert_eq!(err.status_code(), StatusCode::InvalidParam);
    assert!(err.message().contains("sample_rate_hz"));

    let err = Config::builder()
        .bandwidth(Bandwidth::ManualHz(999))
        .build()
        .unwrap_err();
    assert_eq!(err.status_code(), StatusCode::InvalidParam);
    assert!(err.message().contains("bandwidth_hz"));

    let config = Config::builder()
        .frequency_hz(100_000_000)
        .sample_rate_hz(10_000_000)
        .bandwidth(Bandwidth::Auto)
        .decimation_mode(DecimationMode::HighDefinition)
        .rf_port(RfPort::Rx1)
        .gain(GainPreset::Linearity(12))
        .bias_tee(false)
        .build()
        .unwrap();

    assert_eq!(config.frequency_hz(), 100_000_000);
    assert_eq!(config.sample_rate_hz(), 10_000_000);
    assert_eq!(config.sample_format().sample_type(), SampleType::Float32Iq);
    assert_eq!(config.decimation_mode(), DecimationMode::HighDefinition);
}

#[test]
fn the_first_broken_rule_decides_the_configuration_error() {
    let error = Config::builder()
        .frequency_hz(1)
        .sample_rate_hz(1)
        .build()
        .unwrap_err();
    assert_eq!(
        error.message(),
        "invalid configuration for frequency_hz: must be in 24_000_000..=1_800_000_000 Hz"
    );
    let error = Config::builder().sample_rate_hz(1).build().unwrap_err();
    assert_eq!(
        error.message(),
        "invalid configuration for sample_rate_hz: must be at least 10_000 Hz"
    );
    let error = Config::builder().bandwidth_hz(999).build().unwrap_err();
    assert!(error.message().contains("bandwidth_hz"));
    let error = Config::builder()
        .gain(GainConfig::Stages {
            lna: StageGain::Agc,
            mixer: StageGain::Manual(16),
            vga: 16,
        })
        .build()
        .unwrap_err();
    assert_eq!(
        error.message(),
        "invalid configuration for gain: manual mixer gain must be in 0..=15"
    );
    let error = Config::builder()
        .gain(GainPreset::Sensitivity(22))
        .build()
        .unwrap_err();
    assert_eq!(
        error.message(),
        "invalid configuration for gain: RFOne preset gain must be in 0..=21"
    );
    assert_eq!(error.kind(), ErrorKind::InvalidConfig);
}

#[test]
fn merging_a_gain_twice_is_merging_it_once() {
    let gain = GainConfig::Manual {
        lna: None,
        mixer: Some(2),
        vga: None,
        lna_agc: Some(true),
        mixer_agc: None,
    };
    let mut once = ConfigData::standard(SampleFormat::F32Iq);
    once.set_gain(gain);
    let mut twice = once;
    twice.set_gain(gain);
    assert_eq!(once, twice);
    twice.set_gain(GainConfig::Unchanged);
    assert_eq!(once, twice);
    twice.set_gain(GainConfig::Preset(GainPreset::Linearity(1)));
    assert_eq!(twice.gain, GainConfig::Preset(GainPreset::Linearity(1)));
    assert!(twice.validate().is_ok());
}

#[test]
fn a_device_builder_collects_the_same_settings_as_a_config_builder() {
    let builder = Device::builder()
        .serial(0x0123_4567_89ab_cdef)
        .frequency_hz(433_920_000)
        .sample_rate_hz(2_500_000)
        .bandwidth(Bandwidth::Auto)
        .rf_port(RfPort::Rx2)
        .gain(GainPreset::Sensitivity(8))
        .bias_tee(true)
        .decimation_mode(DecimationMode::HighDefinition);
    assert_eq!(
        builder.selector(),
        DeviceSelector::Serial(0x0123_4567_89ab_cdef)
    );
    let config = builder.clone().config().unwrap();
    assert_eq!(config.frequency_hz(), 433_920_000);
    assert_eq!(config.sample_rate_hz(), 2_500_000);
    assert_eq!(config.rf_port(), Some(RfPort::Rx2));
    assert_eq!(config.bias_tee(), Some(true));
    assert_eq!(config.decimation_mode(), DecimationMode::HighDefinition);
    assert_eq!(config.gain(), GainConfig::from(GainPreset::Sensitivity(8)));

    let raw = builder.raw_adc().packing(true).config().unwrap();
    assert!(raw.packing());
    assert_eq!(raw.data().decimation_mode, DecimationMode::LowBandwidth);
    assert_eq!(raw.sample_format(), SampleFormat::RawAdc);

    assert_eq!(Device::builder().selector(), DeviceSelector::First);
    assert!(Device::builder().bandwidth_hz(0).config().is_err());
    assert!(Device::builder().frequency_hz(0).begin_open().is_err());
}

#[test]
fn what_only_a_configuration_writes_is_known_together() {
    let state = ActiveState::default();
    let config = ConfigData::standard(SampleFormat::F32Iq);
    state.set_frequency_result(100_000_000, true);
    state.set_gain_result(GainConfig::Preset(GainPreset::Linearity(3)), true);
    let shared = state.snapshot();
    assert!(shared.sample_format().is_err());
    assert!(shared.decimation_mode().is_err());
    assert!(shared.packing().is_err());

    state.apply_config(&config);
    state.set_sample_rate_result(5_000_000, false);
    let shared = state.snapshot();
    assert!(shared.sample_format().is_ok());
    assert!(shared.decimation_mode().is_ok());
    assert!(shared.packing().is_ok());
    assert!(shared.sample_rate_hz().is_err());

    let failed = state.fail_config(&config);
    assert_eq!(failed, state.snapshot());
    let reason = "the last update failed";
    assert!(matches!(failed.sample_format(), Err(Error::StateUnavailable { reason: why, .. }) if why == reason));
    assert!(matches!(failed.decimation_mode(), Err(Error::StateUnavailable { reason: why, .. }) if why == reason));
    assert!(matches!(failed.packing(), Err(Error::StateUnavailable { reason: why, .. }) if why == reason));
}
