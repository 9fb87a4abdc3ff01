use hydrasdr_rs::commands::{ReceiverMode, VendorRequest};
use hydrasdr_rs::constants::{
    CTRL_TIMEOUT_MS, DEFAULT_BUFFER_SIZE, MAX_F32_IQ_SAMPLES_PER_TRANSFER, PACKED_BUFFER_SIZE,
};
use hydrasdr_rs::device::{
    gain_config_plan, reverse_gain_table_index, sample_rate_config, sample_rate_hardware_config,
    SelectedSampleRate,
};
use hydrasdr_rs::direct::{prepare_config, validate_samplerate_response, AppliedConfig, HydraSdr};
use hydrasdr_rs::discovery::{
    describe_devices, find_usb_device_id, format_serial, matches_device, normalized_serial,
    parse_hydrasdr_serial, permission_filters, select_device, usb_device_ids, UsbIdentity,
};
use hydrasdr_rs::errors::{error_name, status_of_usb_error, usb_error, StatusCode};
use hydrasdr_rs::opening::{
    check_firmware, decode_board_id, decode_part_serial, decode_version_string, firmware_result,
    serial_from_part_id, tolerates_configuration_error, InfoStage, OpenStage,
};
use hydrasdr_rs::rfone::{
    rf_port_infos, DECIMATION_FACTORS_DESC, RFONE_F32_IQ_SAMPLE_RATES, RFONE_FIRMWARE_IQ_SAMPLE_RATES,
    RFONE_LINEARITY_LNA_GAINS, RFONE_LINEARITY_MIXER_GAINS, RFONE_LINEARITY_VGA_GAINS,
    RFONE_MAX_FREQ_HZ, RFONE_MIN_FREQ_HZ, RFONE_RAW_ADC_SAMPLE_RATES, RFONE_RX_ENDPOINT,
    RFONE_TRANSFER_COUNT,
};
use hydrasdr_rs::types::{BoardId, PartIdSerialNo, SampleType, UnknownBoardId};
use hydrasdr_rs::usb::control::{
    decode_part_id_serial, decode_u32_le_words, gpio_port_pin, ControlDirection,
    VendorControlRequest,
};
use hydrasdr_rs::usb::sequence::ControlSequence;
use hydrasdr_rs::{
    Bandwidth, Config, ConfigData, DecimationMode, Error, ErrorKind, GainConfig, GainPreset, RfPort,
    SampleFormat, StageGain,
};
use nusb::transfer::{ControlType, Recipient, TransferError};

/// Send the requests of a sequence to `answer` until it ends.
fn run(
    mut sequence: ControlSequence,
    sent: &mut Vec<VendorControlRequest>,
    mut answer: impl FnMut(&VendorControlRequest) -> hydrasdr_rs::Result<Vec<u8>>,
) -> hydrasdr_rs::Result<()> {
    while let Some(request) = sequence.next_request() {
        let request = request.clone();
        let reply = answer(&request);
        sent.push(request);
        sequence.accept(reply)?;
    }
    sequence.finish()
}

fn selection(param: u16, decimation: u32) -> SelectedSampleRate {
    SelectedSampleRate { param, decimation }
}

#[test]
fn visible_samplerates_come_from_the_fixed_tables() {
    let mut device = HydraSdr::new();
    assert_eq!(device.visible_sample_rates(), RFONE_F32_IQ_SAMPLE_RATES);

    device.apply_config_state(AppliedConfig {
        sample_type: SampleType::Raw,
        decimation_mode: DecimationMode::LowBandwidth,
        decimation: 1,
        packing: false,
    });
    assert_eq!(device.visible_sample_rates(), RFONE_RAW_ADC_SAMPLE_RATES);
}

#[test]
fn fixed_iq_table_contains_exact_decimator_outputs() {
    let mut derived = Vec::new();
    for hardware_rate in RFONE_FIRMWARE_IQ_SAMPLE_RATES {
        for decimation in DECIMATION_FACTORS_DESC {
            if hardware_rate % decimation == 0 {
                derived.push(hardware_rate / decimation);
            }
        }
    }
    derived.sort_unstable_by(|a, b| b.cmp(a));
    derived.dedup();

    assert_eq!(derived, RFONE_F32_IQ_SAMPLE_RATES);
    assert_eq!(
        sample_rate_hardware_config(DecimationMode::HighDefinition, 39_062),
        None
    );
    assert_eq!(
        sample_rate_hardware_config(DecimationMode::HighDefinition, 78_125),
        Some((5_000_000, 64))
    );
    let selected = sample_rate_config(
        SampleType::Float32Iq,
        DecimationMode::HighDefinition,
        78_125,
    )
    .unwrap();
    assert_eq!(selected, selection(1, 64));
}

#[test]
fn raw_samplerates_map_back_to_firmware_iq_rate_indices() {
    assert_eq!(
        sample_rate_config(SampleType::Raw, DecimationMode::LowBandwidth, 20_000_000).unwrap(),
        selection(0, 1)
    );
    assert_eq!(
        sample_rate_config(SampleType::Raw, DecimationMode::LowBandwidth, 10_000_000).unwrap(),
        selection(1, 1)
    );
    assert_eq!(
        sample_rate_config(SampleType::Raw, DecimationMode::LowBandwidth, 5_000_000).unwrap(),
        selection(2, 1)
    );
}

#[test]
fn decimation_policy_selects_among_fixed_firmware_rates() {
    assert_eq!(
        sample_rate_config(
            SampleType::Float32Iq,
            DecimationMode::LowBandwidth,
            2_500_000,
        )
        .unwrap(),
        selection(2, 1)
    );
    assert_eq!(
        sample_rate_config(
            SampleType::Float32Iq,
            DecimationMode::HighDefinition,
            2_500_000,
        )
        .unwrap(),
        selection(0, 4)
    );
}

#[test]
fn non_table_samplerates_are_rejected() {
    assert!(matches!(
        sample_rate_config(SampleType::Raw, DecimationMode::LowBandwidth, 12_000_000),
        Err(Error::InvalidConfig { .. })
    ));
    assert!(matches!(
        sample_rate_config(
            SampleType::Float32Iq,
            DecimationMode::LowBandwidth,
            10_000_500,
        ),
        Err(Error::InvalidConfig { .. })
    ));
}

#[test]
fn samplerate_response_must_accept_the_fixed_index() {
    assert!(validate_samplerate_response(&[1]).is_ok());
    assert!(validate_samplerate_response(&[0]).is_err());
}

#[test]
fn stage_gain_config_produces_a_complete_legacy_plan() {
    let gain = GainConfig::Stages {
        lna: StageGain::Manual(3),
        mixer: StageGain::Agc,
        vga: 4,
    };

    assert_eq!(
        gain_config_plan(gain),
        [
            VendorControlRequest::legacy_gain(VendorRequest::SetLnaAgc, 0),
            VendorControlRequest::legacy_gain(VendorRequest::SetLnaGain, 3),
            VendorControlRequest::legacy_gain(VendorRequest::SetMixerAgc, 1),
            VendorControlRequest::legacy_gain(VendorRequest::SetVgaGain, 4),
        ]
    );
}

#[test]
fn preset_gain_config_uses_the_fixed_rfone_table() {
    let value = 12;
    let index = reverse_gain_table_index(value);

    assert_eq!(
        gain_config_plan(GainConfig::Preset(GainPreset::Linearity(value))),
        [
            VendorControlRequest::legacy_gain(VendorRequest::SetMixerAgc, 0),
            VendorControlRequest::legacy_gain(VendorRequest::SetLnaAgc, 0),
            VendorControlRequest::legacy_gain(
                VendorRequest::SetVgaGain,
                RFONE_LINEARITY_VGA_GAINS[index],
            ),
            VendorControlRequest::legacy_gain(
                VendorRequest::SetMixerGain,
                RFONE_LINEARITY_MIXER_GAINS[index],
            ),
            VendorControlRequest::legacy_gain(
                VendorRequest::SetLnaGain,
                RFONE_LINEARITY_LNA_GAINS[index],
            ),
        ]
    );
}

#[test]
fn serial_normalization_reserves_zero_for_missing_or_invalid_values() {
    assert_eq!(normalized_serial(None), 0);
    assert_eq!(normalized_serial(Some("")), 0);
    assert_eq!(normalized_serial(Some("HYDRASDR SN:not-hex")), 0);
    assert_eq!(normalized_serial(Some("HYDRASDR SN:0000000000000000")), 0);
    assert_eq!(
        normalized_serial(Some("HYDRASDR SN:123456789ABCDEF0")),
        0x1234_5678_9abc_def0
    );
}

#[test]
fn sample_formats_map_to_implemented_direct_sample_types() {
    assert_eq!(SampleFormat::RawAdc.sample_type(), SampleType::Raw);
    assert_eq!(SampleFormat::F32Iq.sample_type(), SampleType::Float32Iq);
}

#[test]
fn initial_packing_failure_does_not_enable_bias_power() {
    let config = Config::builder()
        .gain(GainConfig::Unchanged)
        .bias_tee(true)
        .build()
        .expect("valid fake configuration");

    let mut sent = Vec::new();
    let plan = prepare_config(&config.data());
    run(plan.sequence, &mut sent, |request| {
        if *request == VendorControlRequest::set_packing(0) {
            Err(TransferError::Fault.into())
        } else {
            Ok(vec![1])
        }
    })
    .expect_err("packing should fail before enabling bias power");

    let outs: Vec<_> = sent
        .into_iter()
        .filter(|request| request.direction == ControlDirection::Out)
        .collect();
    assert_eq!(outs, [VendorControlRequest::set_frequency(100_000_000)]);
}

#[test]
fn status_codes_and_error_names_match_c_api() {
    assert_eq!(StatusCode::Success.code(), 0);
    assert_eq!(StatusCode::True.code(), 1);
    assert_eq!(StatusCode::InvalidParam.code(), -2);
    assert_eq!(StatusCode::NotFound.code(), -5);
    assert_eq!(StatusCode::Busy.code(), -6);
    assert_eq!(StatusCode::NoMem.code(), -11);
    assert_eq!(StatusCode::Unsupported.code(), -12);
    assert_eq!(StatusCode::LibUsb.code(), -1000);
    assert_eq!(StatusCode::Thread.code(), -1001);
    assert_eq!(StatusCode::StreamingThreadErr.code(), -1002);
    assert_eq!(StatusCode::StreamingStopped.code(), -1003);
    assert_eq!(StatusCode::Other.code(), -9999);

    assert_eq!(StatusCode::try_from(-6), Ok(StatusCode::Busy));
    assert!(StatusCode::try_from(-7).is_err());
    assert_eq!(error_name(StatusCode::Busy), "HYDRASDR_ERROR_BUSY");
    assert_eq!(StatusCode::name_for_code(-7), "hydrasdr unknown error");
}

#[test]
fn no_hardware_helpers_pack_usb_fields_like_c_driver() {
    assert_eq!(
        parse_hydrasdr_serial("HYDRASDR SN: 0123456789ABCDEF"),
        Some(0x0123_4567_89ab_cdef)
    );
    assert_eq!(parse_hydrasdr_serial("not a hydrasdr serial"), None);

    let freq = VendorControlRequest::set_frequency(1_234_567_890);
    assert_eq!(freq.direction, ControlDirection::Out);
    assert_eq!(freq.request, VendorRequest::SetFreq);
    assert_eq!(freq.value, 0);
    assert_eq!(freq.index, 0);
    assert_eq!(freq.data, 1_234_567_890u64.to_le_bytes());

    let samplerates_count = VendorControlRequest::get_samplerates_count(false);
    assert_eq!(samplerates_count.direction, ControlDirection::In);
    assert_eq!(samplerates_count.request, VendorRequest::GetSamplerates);
    assert_eq!(samplerates_count.value, 0);
    assert_eq!(samplerates_count.index, 0);
    assert_eq!(samplerates_count.length, 4);

    assert_eq!(gpio_port_pin(7, 31).unwrap(), 0xff);
    assert!(gpio_port_pin(8, 0).is_err());
    assert!(gpio_port_pin(0, 32).is_err());
}

#[test]
fn control_request_builders_encode_vendor_device_packets_like_c() {
    let receiver_off = VendorControlRequest::receiver_mode(ReceiverMode::Off);
    assert_eq!(receiver_off.direction, ControlDirection::Out);
    assert_eq!(receiver_off.request, VendorRequest::ReceiverMode);
    assert_eq!(receiver_off.value, 0);
    assert_eq!(receiver_off.index, 0);
    assert!(receiver_off.data.is_empty());
    let nusb_out = receiver_off.nusb_control_out().unwrap();
    assert_eq!(nusb_out.control_type, ControlType::Vendor);
    assert_eq!(nusb_out.recipient, Recipient::Device);
    assert_eq!(nusb_out.request, VendorRequest::ReceiverMode.code());
    assert_eq!(nusb_out.value, ReceiverMode::Off.code());
    assert_eq!(nusb_out.index, 0);
    assert!(nusb_out.data.is_empty());

    let set_samplerate = VendorControlRequest::set_samplerate(20_000);
    assert_eq!(set_samplerate.direction, ControlDirection::In);
    assert_eq!(set_samplerate.request, VendorRequest::SetSamplerate);
    assert_eq!(set_samplerate.value, 0);
    assert_eq!(set_samplerate.index, 20_000);
    assert_eq!(set_samplerate.length, 1);
    let nusb_in = set_samplerate.nusb_control_in().unwrap();
    assert_eq!(nusb_in.control_type, ControlType::Vendor);
    assert_eq!(nusb_in.recipient, Recipient::Device);
    assert_eq!(nusb_in.request, VendorRequest::SetSamplerate.code());
    assert_eq!(nusb_in.value, 0);
    assert_eq!(nusb_in.index, 20_000);
    assert_eq!(nusb_in.length, 1);

    assert_eq!(VendorControlRequest::set_packing(1).index, 1);
    assert_eq!(VendorControlRequest::set_rf_port(RfPort::Rx1).index, 1);
    let vga = 4;
    assert_eq!(VendorControlRequest::unified_gain(vga, 17).value, 4);
    assert_eq!(VendorControlRequest::unified_gain(vga, 17).index, 17);
    assert_eq!(gpio_port_pin(3, 9).unwrap(), 0x69);
}

#[test]
fn rf_port_firmware_rejection_maps_to_invalid_param() {
    let dev = HydraSdr::new();
    let mut sent = Vec::new();

    let err = run(dev.set_rf_port(RfPort::Rx2), &mut sent, |_| Ok(vec![0])).unwrap_err();

    assert_eq!(err.status_code(), StatusCode::InvalidParam);
    assert_eq!(
        sent.as_slice(),
        &[VendorControlRequest::set_rf_port(RfPort::Rx2)]
    );
}

#[test]
fn short_control_reads_are_libusb_errors() {
    let stage = InfoStage::begin();
    assert_eq!(
        stage.request(),
        Some(VendorControlRequest::board_id_read())
    );

    let err = decode_board_id(Ok(Vec::new())).unwrap_err();

    assert_eq!(err.status_code(), StatusCode::LibUsb);
}

#[test]
fn query_helpers_decode_board_version_serial_and_capabilities() {
    let part_serial_bytes = [
        0x44, 0x33, 0x22, 0x11, 0x88, 0x77, 0x66, 0x55, 0xcc, 0xbb, 0xaa, 0x99, 0x00, 0xff, 0xee,
        0xdd, 0x04, 0x03, 0x02, 0x01, 0xef, 0xbe, 0xad, 0xde,
    ];
    assert_eq!(
        decode_part_id_serial(&part_serial_bytes).unwrap(),
        PartIdSerialNo {
            part_id: [0x1122_3344, 0x5566_7788],
            serial_no: [0x99aa_bbcc, 0xddee_ff00, 0x0102_0304, 0xdead_beef],
        }
    );

    let mut version = b"HydraSDR RFOne v1.0".to_vec();
    version.resize(255, 0);

    assert_eq!(
        decode_board_id(Ok(vec![1])).unwrap(),
        BoardId::HydraSdrRfOneOfficial
    );
    assert_eq!(
        decode_version_string(Ok(version)).unwrap(),
        "HydraSDR RFOne v1.0"
    );
    assert_eq!(
        decode_part_serial(Ok(part_serial_bytes.to_vec()))
            .unwrap()
            .serial_no[3],
        0xdead_beef
    );
    assert_eq!(
        decode_u32_le_words(&0x0030_7801u32.to_le_bytes()).unwrap(),
        [0x0030_7801]
    );

    assert_eq!(
        InfoStage::BoardId.request(),
        Some(VendorControlRequest::board_id_read())
    );
    let request = InfoStage::Firmware.request().unwrap();
    assert_eq!(request.request, VendorRequest::VersionStringRead);
    assert_eq!(request.direction, ControlDirection::In);
    assert_eq!(
        InfoStage::PartSerial(String::new()).request(),
        Some(VendorControlRequest::board_partid_serialno_read())
    );
    assert_eq!(VendorControlRequest::get_capabilities(0).length, 4);
    assert_eq!(VendorControlRequest::get_capabilities(0).index, 0);
}

#[test]
fn a_configuration_is_sent_in_order_and_bias_power_comes_last() {
    let config = Config::builder()
        .raw_adc()
        .frequency_hz(144_500_000)
        .rf_port(RfPort::Rx2)
        .gain(GainConfig::Manual {
            lna: Some(8),
            mixer: Some(6),
            vga: Some(4),
            lna_agc: Some(false),
            mixer_agc: None,
        })
        .bias_tee(true)
        .packing(true)
        .build()
        .unwrap();
    let plan = prepare_config(&config.data());
    assert_eq!(
        plan.applied,
        Some(AppliedConfig {
            sample_type: SampleType::Raw,
            decimation_mode: DecimationMode::LowBandwidth,
            decimation: 1,
            packing: true,
        })
    );
    let mut sent = Vec::new();
    run(plan.sequence, &mut sent, |_| Ok(vec![1])).unwrap();
    assert_eq!(
        sent,
        [
            VendorControlRequest::set_frequency(144_500_000),
            VendorControlRequest::set_samplerate(1),
            VendorControlRequest::set_rf_port(RfPort::Rx2),
            VendorControlRequest::legacy_gain(VendorRequest::SetLnaGain, 8),
            VendorControlRequest::legacy_gain(VendorRequest::SetMixerGain, 6),
            VendorControlRequest::legacy_gain(VendorRequest::SetVgaGain, 4),
            VendorControlRequest::legacy_gain(VendorRequest::SetLnaAgc, 0),
            VendorControlRequest::set_packing(1),
            VendorControlRequest::set_rf_bias(1),
        ]
    );
}

#[test]
fn a_configuration_stops_after_tuning_when_the_host_cannot_apply_it() {
    let standard = ConfigData::standard(SampleFormat::F32Iq);
    let manual = ConfigData {
        bandwidth: Bandwidth::ManualHz(5_000_000),
        ..standard
    };
    let mut sent = Vec::new();
    let plan = prepare_config(&manual);
    assert_eq!(plan.applied, None);
    assert!(matches!(
        run(plan.sequence, &mut sent, |_| Ok(vec![1])),
        Err(Error::Unsupported)
    ));
    assert_eq!(sent, [VendorControlRequest::set_frequency(100_000_000)]);

    let odd = ConfigData {
        sample_rate_hz: 10_000_500,
        ..standard
    };
    let mut sent = Vec::new();
    let plan = prepare_config(&odd);
    let error = run(plan.sequence, &mut sent, |_| Ok(vec![1])).unwrap_err();
    assert_eq!(
        error.message(),
        "invalid configuration for sample_rate_hz: is not supported by RFOne and the host decimator"
    );
    assert_eq!(sent.len(), 1);
}

#[test]
fn a_refused_request_ends_a_sequence() {
    let plan = prepare_config(&ConfigData::standard(SampleFormat::F32Iq));
    let mut sent = Vec::new();
    let error = run(plan.sequence, &mut sent, |request| {
        Ok(vec![u8::from(request.request != VendorRequest::SetSamplerate)])
    })
    .unwrap_err();
    assert!(matches!(
        error,
        Error::Protocol {
            operation: "set sample rate",
            reason: "firmware rejected the selected sample rate",
            ..
        }
    ));
    assert_eq!(sent.len(), 2);

    assert!(matches!(
        validate_samplerate_response(&[]),
        Err(Error::Protocol {
            operation: "set sample rate",
            ..
        })
    ));
    let error = run(HydraSdr::new().set_packing(true), &mut sent, |_| Ok(Vec::new())).unwrap_err();
    assert!(matches!(
        error,
        Error::Protocol {
            operation: "control transfer",
            reason: "response is shorter than requested",
            status: StatusCode::LibUsb,
        }
    ));
}

#[test]
fn the_direct_layer_limits_the_frequency() {
    let device = HydraSdr::new();
    assert_eq!(
        device.set_freq(0).unwrap_err().status_code(),
        StatusCode::InvalidParam
    );
    assert_eq!(
        device.set_freq(10_000_000_001).unwrap_err().status_code(),
        StatusCode::InvalidParam
    );
    assert!(device.set_freq(10_000_000_000).is_ok());
    assert!(matches!(device.get_bandwidths(), Err(Error::Unsupported)));
    assert!(matches!(device.set_bandwidth(1), Err(Error::Unsupported)));
}

#[test]
fn presets_beyond_the_table_use_its_strongest_row() {
    assert_eq!(reverse_gain_table_index(0), 21);
    assert_eq!(reverse_gain_table_index(21), 0);
    assert_eq!(reverse_gain_table_index(255), 0);
    let plan = gain_config_plan(GainConfig::Preset(GainPreset::Sensitivity(0)));
    assert_eq!(
        plan[2],
        VendorControlRequest::legacy_gain(VendorRequest::SetVgaGain, 4)
    );
    assert!(gain_config_plan(GainConfig::Unchanged).is_empty());
}

#[test]
fn malformed_requests_and_replies_are_refused() {
    let out = VendorControlRequest::set_frequency(1);
    assert!(matches!(
        out.nusb_control_in(),
        Err(Error::Status(StatusCode::InvalidParam))
    ));
    let long = VendorControlRequest::in_request(VendorRequest::GetSamplerates, 0, 0, 65_536);
    assert!(long.nusb_control_in().is_err());
    assert!(long.nusb_control_out().is_err());
    assert_eq!(VendorControlRequest::get_samplerates(65_537, true).index, 1);
    assert_eq!(
        VendorControlRequest::get_samplerates(65_537, true).length,
        262_148
    );
    assert!(matches!(
        decode_u32_le_words(&[1, 2, 3]),
        Err(Error::Status(StatusCode::LibUsb))
    ));
    assert!(decode_part_id_serial(&[0; 20]).is_err());
    assert!(decode_part_serial(Ok(vec![0; 25])).is_err());
    assert!(matches!(
        decode_board_id(Ok(vec![2])),
        Err(Error::Protocol {
            operation: "read board ID",
            ..
        })
    ));
}

#[test]
fn the_metadata_is_read_in_three_requests() {
    let bytes: Vec<u8> = [
        0x1111_2222u32,
        0x3333_4444,
        0x5555_6666,
        0x7777_8888,
        0x9999_aaaa,
        0xbbbb_cccc,
    ]
    .into_iter()
    .flat_map(u32::to_le_bytes)
    .collect();
    let stage = InfoStage::begin();
    let stage = stage.accept(Ok(vec![1])).ok().unwrap();
    assert_eq!(
        stage.request(),
        Some(VendorControlRequest::version_string_read(255))
    );
    let stage = stage
        .accept(Ok(b"HydraSDR RFOne async\0junk".to_vec()))
        .ok()
        .unwrap();
    let stage = stage.accept(Ok(bytes)).ok().unwrap();
    assert_eq!(stage.request(), None);
    let InfoStage::Complete(info) = stage else {
        panic!("metadata is complete");
    };
    assert_eq!(info.board_name, "HydraSDR RFOne");
    assert_eq!(info.firmware_version, "HydraSDR RFOne async");
    assert_eq!(info.serial, Some(0x9999_aaaa_bbbb_cccc));
    assert_eq!(info.rf_ports.len(), 3);
    assert_eq!(info.rf_ports[0].name, "ANT");
    assert!(info.rf_ports[0].has_bias_tee);
    assert_eq!(info.rf_ports[2].port, RfPort::Rx2);
    assert!(!info.rf_ports[2].has_bias_tee);

    let error = InfoStage::BoardId
        .accept(Err(TransferError::Stall.into()))
        .err()
        .unwrap();
    assert!(matches!(
        error,
        Error::Operation {
            operation: "reading HydraSDR board ID",
            ..
        }
    ));
    assert_eq!(error.kind(), ErrorKind::Usb);
    assert_eq!(
        serial_from_part_id(&PartIdSerialNo {
            part_id: [1, 2],
            serial_no: [3, 4, 0, 0],
        }),
        None
    );
}

#[test]
fn bytes_that_are_no_text_are_replaced_in_the_firmware_version() {
    let version = decode_version_string(Ok(vec![b'H', 0xff, b'y', 0, b'x'])).unwrap();
    assert_eq!(version, "H\u{fffd}y");
    assert!(check_firmware("HydraSDR RFOne v1.0").is_ok());
    assert!(matches!(
        check_firmware("AirSpy"),
        Err(Error::DeviceNotFound)
    ));
}

#[test]
fn opening_names_the_stage_that_failed() {
    let mut stage = OpenStage::begin();
    let mut count = 0;
    while stage != OpenStage::Ready {
        stage = stage.advance(Ok(())).unwrap();
        count += 1;
    }
    assert_eq!(count, 7);
    let error = OpenStage::ClaimInterface
        .advance(Err(Error::Busy))
        .unwrap_err();
    assert!(matches!(
        error,
        Error::Operation {
            operation: "claiming HydraSDR USB interface 0",
            ..
        }
    ));
    assert_eq!(error.kind(), ErrorKind::Busy);
    assert!(matches!(
        OpenStage::SelectDevice.failed(Error::DeviceNotFound),
        Error::DeviceNotFound
    ));
    assert!(firmware_result(Ok(b"HydraSDR RFOne v1.0\0".to_vec())).is_ok());
    assert!(matches!(
        firmware_result(Ok(b"Other\0HydraSDR RFOne".to_vec())),
        Err(Error::DeviceNotFound)
    ));
    assert!(matches!(
        firmware_result(Err(Error::Busy)),
        Err(Error::Operation {
            operation: "validating HydraSDR firmware version",
            ..
        })
    ));
    assert!(tolerates_configuration_error(nusb::ErrorKind::Unsupported));
    assert!(!tolerates_configuration_error(nusb::ErrorKind::Busy));
}

#[test]
fn usb_errors_keep_the_backend_message() {
    let error = Error::from(TransferError::Fault);
    assert!(matches!(error, Error::Transfer(_)));
    assert_eq!(error.kind(), ErrorKind::Usb);
    assert_eq!(
        error.message(),
        "HYDRASDR_ERROR_LIBUSB: hardware fault or protocol violation"
    );
    let error = Error::from(TransferError::InvalidArgument);
    assert_eq!(error.status_code(), StatusCode::InvalidParam);
    assert_eq!(
        error.message(),
        "HYDRASDR_ERROR_INVALID_PARAM: invalid or unsupported argument"
    );
    assert_eq!(
        Error::from(TransferError::Cancelled).message(),
        "HYDRASDR_ERROR_LIBUSB: transfer was cancelled"
    );
    assert_eq!(
        Error::from(TransferError::Stall).message(),
        "HYDRASDR_ERROR_LIBUSB: endpoint stalled"
    );
    assert_eq!(
        Error::from(TransferError::Disconnected).message(),
        "HYDRASDR_ERROR_LIBUSB: device disconnected"
    );
    assert!(Error::from(TransferError::Unknown(5))
        .message()
        .starts_with("HYDRASDR_ERROR_LIBUSB: unknown ("));
    assert_eq!(status_of_usb_error(nusb::ErrorKind::Busy), StatusCode::Busy);
    assert_eq!(
        status_of_usb_error(nusb::ErrorKind::Disconnected),
        StatusCode::LibUsb
    );
    let error = usb_error(nusb::ErrorKind::Busy, "in use by another program".to_string());
    assert_eq!(error.kind(), ErrorKind::Busy);
    assert_eq!(
        error.message(),
        "HYDRASDR_ERROR_BUSY: in use by another program"
    );
    let error = usb_error(nusb::ErrorKind::PermissionDenied, "no access".to_string());
    assert_eq!(error.status_code(), StatusCode::LibUsb);
    assert_eq!(error.message(), "HYDRASDR_ERROR_LIBUSB: no access");
    assert_eq!(
        Error::Busy.at("opening USB device").message(),
        "opening USB device: HYDRASDR_ERROR_BUSY"
    );
    assert_eq!(Error::from(StatusCode::NoMem).kind(), ErrorKind::Other);
    assert_eq!(Error::DeviceNotFound.kind(), ErrorKind::NotFound);
    assert_eq!(Error::Unsupported.kind(), ErrorKind::Unsupported);
    assert_eq!(
        Error::StreamClosed("done").message(),
        "stream closed: done"
    );
    assert_eq!(Error::StreamClosed("done").kind(), ErrorKind::StreamClosed);
}

fn identity(vid: u16, pid: u16, serial: Option<&str>) -> UsbIdentity {
    UsbIdentity {
        vid,
        pid,
        serial_number: serial.map(str::to_owned),
        product_string: Some("HydraSDR".to_owned()),
    }
}

#[test]
fn devices_are_recognized_by_their_ids_and_serial() {
    assert_eq!(usb_device_ids().len(), 2);
    assert!(find_usb_device_id(0x1d50, 0x60a1).is_some());
    assert!(find_usb_device_id(0x1d50, 0x0001).is_none());
    let devices = vec![
        identity(0x1234, 0x5678, None),
        identity(0x1d50, 0x60a1, None),
        identity(0x38af, 0x0001, Some("HYDRASDR SN:\t00000000000000ff\u{2003}")),
    ];
    assert_eq!(select_device(&devices, None).unwrap(), 1);
    assert_eq!(select_device(&devices, Some(0xff)).unwrap(), 2);
    assert_eq!(select_device(&devices, Some(0)).unwrap(), 1);
    assert!(matches!(
        select_device(&devices, Some(1)),
        Err(Error::DeviceNotFound)
    ));
    assert!(!matches_device(&devices[0], None));

    let list = describe_devices(&devices);
    assert_eq!(list.len(), 2);
    assert_eq!(list[0].description, "HydraSDR RFOne Legacy VID/PID");
    assert_eq!(list[0].serial, 0);
    assert_eq!(list[1].serial, 0xff);
    assert_eq!(list[1].product_string.as_deref(), Some("HydraSDR"));
    assert_eq!(list.clone(), list);
}

#[test]
fn serial_strings_read_back() {
    for serial in [0, 1, 0x0123_4567_89ab_cdef, u64::MAX] {
        assert_eq!(format_serial(serial), format!("HYDRASDR SN:{serial:016X}"));
        assert_eq!(parse_hydrasdr_serial(&format_serial(serial)), Some(serial));
    }
    assert_eq!(parse_hydrasdr_serial("HYDRASDR SN:+123456789ABCDEF"), None);
    assert_eq!(parse_hydrasdr_serial("HYDRASDR SN:0123456789ABCDEF0"), None);
    assert_eq!(parse_hydrasdr_serial("HYDRASDR SN:0123456789ABCDE\u{e9}"), None);

    let filters = permission_filters(Some(0xab));
    assert_eq!(filters[1].vid, 0x38af);
    assert_eq!(
        filters[0].serial_number.as_deref(),
        Some("HYDRASDR SN:00000000000000AB")
    );
    assert!(permission_filters(Some(0))[0].serial_number.is_none());
    assert!(permission_filters(None)[1].serial_number.is_none());
}

#[test]
fn board_and_sample_type_values_match_c_enums() {
    assert_eq!(BoardId::try_from(0), Ok(BoardId::ProtoHydraSdr));
    assert_eq!(BoardId::try_from(1), Ok(BoardId::HydraSdrRfOneOfficial));
    assert_eq!(BoardId::try_from(0xff), Ok(BoardId::Invalid));
    assert_eq!(BoardId::try_from(2), Err(UnknownBoardId(2)));
}

#[test]
fn vendor_request_and_capability_values_match_c_commands() {
    assert_eq!(ReceiverMode::Off.code(), 0);
    assert_eq!(ReceiverMode::Rx.code(), 1);
    assert_eq!(VendorRequest::ReceiverMode.code(), 1);
    assert_eq!(VendorRequest::BoardIdRead.code(), 9);
    assert_eq!(VendorRequest::VersionStringRead.code(), 10);
    assert_eq!(VendorRequest::BoardPartIdSerialNoRead.code(), 11);
    assert_eq!(VendorRequest::SetSamplerate.code(), 12);
    assert_eq!(VendorRequest::SetFreq.code(), 13);
    assert_eq!(VendorRequest::SetLnaGain.code(), 14);
    assert_eq!(VendorRequest::SetMixerGain.code(), 15);
    assert_eq!(VendorRequest::SetVgaGain.code(), 16);
    assert_eq!(VendorRequest::SetLnaAgc.code(), 17);
    assert_eq!(VendorRequest::SetMixerAgc.code(), 18);
    assert_eq!(VendorRequest::SetRfBiasCmd.code(), 20);
    assert_eq!(VendorRequest::GetSamplerates.code(), 25);
    assert_eq!(VendorRequest::SetPacking.code(), 26);
    assert_eq!(VendorRequest::SetRfPort.code(), 28);
    assert_eq!(VendorRequest::GetCapabilities.code(), 29);
    assert_eq!(VendorRequest::SetGain.code(), 33);

    assert_eq!(RfPort::Rx0.code(), 0);
    assert_eq!(RfPort::Rx1.code(), 1);
    assert_eq!(RfPort::Rx2.code(), 2);
}

#[test]
fn rfone_static_spec_matches_c_driver_constants() {
    let ids = usb_device_ids();
    assert_eq!(ids.len(), 2);
    assert_eq!(ids[0].vid, 0x1d50);
    assert_eq!(ids[0].pid, 0x60a1);
    assert_eq!(ids[1].vid, 0x38af);
    assert_eq!(ids[1].pid, 0x0001);

    assert_eq!(RFONE_TRANSFER_COUNT, 16);
    assert_eq!(DEFAULT_BUFFER_SIZE, 262_144);
    assert_eq!(PACKED_BUFFER_SIZE, 147_456);
    assert_eq!(RFONE_RX_ENDPOINT, 0x81);
    assert_eq!(RFONE_MIN_FREQ_HZ, 24_000_000);
    assert_eq!(RFONE_MAX_FREQ_HZ, 1_800_000_000);
    assert_eq!(rf_port_infos().len(), 3);
    assert_eq!(CTRL_TIMEOUT_MS, 500);
    assert_eq!(MAX_F32_IQ_SAMPLES_PER_TRANSFER, 65_536);
}

#[test]
fn request_numbers_are_distinct() {
    let requests = [
        VendorRequest::ReceiverMode,
        VendorRequest::BoardIdRead,
        VendorRequest::VersionStringRead,
        VendorRequest::BoardPartIdSerialNoRead,
        VendorRequest::SetSamplerate,
        VendorRequest::SetFreq,
        VendorRequest::SetLnaGain,
        VendorRequest::SetMixerGain,
        VendorRequest::SetVgaGain,
        VendorRequest::SetLnaAgc,
        VendorRequest::SetMixerAgc,
        VendorRequest::SetRfBiasCmd,
        VendorRequest::GetSamplerates,
        VendorRequest::SetPacking,
        VendorRequest::SetRfPort,
        VendorRequest::GetCapabilities,
        VendorRequest::SetGain,
    ];
    let mut codes: Vec<u8> = requests.iter().map(|request| request.code()).collect();
    codes.sort_unstable();
    codes.dedup();
    assert_eq!(codes.len(), requests.len());
}

#[test]
fn status_numbers_read_back() {
    for code in [0, 1, -2, -5, -6, -11, -12, -1000, -1001, -1002, -1003, -9999] {
        let status = StatusCode::try_from(code).unwrap();
        assert_eq!(status.code(), code);
        assert_eq!(StatusCode::name_for_code(code), status.name());
    }
}

#[test]
fn raw_rates_are_twice_the_firmware_rates() {
    for (raw, firmware) in RFONE_RAW_ADC_SAMPLE_RATES
        .iter()
        .zip(RFONE_FIRMWARE_IQ_SAMPLE_RATES)
    {
        assert_eq!(*raw, 2 * firmware);
    }
}

#[test]
fn preset_plans_stay_within_the_gain_ranges() {
    for value in 0..=21 {
        for preset in [GainPreset::Linearity(value), GainPreset::Sensitivity(value)] {
            let plan = gain_config_plan(GainConfig::Preset(preset));
            assert_eq!(plan.len(), 5);
            for request in plan {
                let limit = match request.request {
                    VendorRequest::SetLnaGain => 14,
                    VendorRequest::SetMixerGain | VendorRequest::SetVgaGain => 15,
                    _ => 0,
                };
                assert!(request.index <= limit);
            }
        }
    }
}

#[test]
fn every_listed_rate_can_be_configured() {
    for mode in [DecimationMode::LowBandwidth, DecimationMode::HighDefinition] {
        for rate in RFONE_F32_IQ_SAMPLE_RATES {
            let selected = sample_rate_config(SampleType::Float32Iq, mode, rate).unwrap();
            let firmware = RFONE_FIRMWARE_IQ_SAMPLE_RATES[selected.param as usize];
            assert_eq!(firmware, rate * selected.decimation);
            assert!(DECIMATION_FACTORS_DESC.contains(&selected.decimation));
        }
    }
}
