use hydrasdr_rs::constants::{
    DEFAULT_BUFFER_SIZE, MAX_F32_IQ_SAMPLES_PER_TRANSFER, PACKED_BUFFER_SIZE,
};
use hydrasdr_rs::converter::{
    adc_sample, decimation_stages, plan_conversion, ConversionPlan, DelayLine, History,
};
use hydrasdr_rs::text::{c_string_len, decode_c_string};
use hydrasdr_rs::usb::bytes::{u32_from_le_bytes_at, u64_to_le_bytes};

fn plan(consumed_bytes: usize, written: usize, pending: bool) -> ConversionPlan {
    ConversionPlan {
        consumed_bytes,
        written,
        pending,
    }
}

#[test]
fn a_conversion_takes_whole_groups_and_no_more_than_fit() {
    assert_eq!(plan_conversion(0, 1, 5), plan(0, 0, false));
    assert_eq!(plan_conversion(100, 1, 0), plan(0, 0, false));
    assert_eq!(plan_conversion(7, 1, 5), plan(0, 0, false));
    assert_eq!(plan_conversion(8, 1, 5), plan(8, 2, false));
    assert_eq!(plan_conversion(100, 1, 5), plan(24, 5, true));
    assert_eq!(plan_conversion(100, 1, 6), plan(24, 6, false));
    assert_eq!(plan_conversion(100, 0, 6), plan(24, 6, false));
    assert_eq!(plan_conversion(100, 4, 1), plan(32, 1, true));
    assert_eq!(
        plan_conversion(usize::MAX, 1, usize::MAX),
        plan(usize::MAX - 7, usize::MAX / 4 - 1, false)
    );
    assert_eq!(
        plan_conversion(DEFAULT_BUFFER_SIZE, 1, usize::MAX),
        plan(DEFAULT_BUFFER_SIZE, MAX_F32_IQ_SAMPLES_PER_TRANSFER, false)
    );
    assert_eq!(
        plan_conversion(PACKED_BUFFER_SIZE, 64, usize::MAX).consumed_bytes,
        PACKED_BUFFER_SIZE
    );
}

#[test]
fn conversions_in_pieces_consume_as_much_as_one() {
    for decimation in [1usize, 2, 4, 8, 16, 32, 64] {
        let length = 8 * decimation * 10;
        let whole = plan_conversion(length, decimation, 20);
        assert_eq!(whole, plan(length, 20, false));
        let mut consumed = 0;
        let mut samples = 0;
        while consumed < length {
            let step = plan_conversion(length - consumed, decimation, 3);
            consumed += step.consumed_bytes;
            samples += step.written + usize::from(step.pending);
        }
        assert_eq!(samples, 20);
    }
}

#[test]
fn decimation_runs_in_halving_stages() {
    assert_eq!(decimation_stages(0), 0);
    assert_eq!(decimation_stages(1), 0);
    assert_eq!(decimation_stages(2), 1);
    assert_eq!(decimation_stages(64), 6);
}

#[test]
fn adc_values_are_twelve_bits_wide() {
    let raw = [0x34, 0xf2, 0xff, 0xff, 0x00, 0x08];
    assert_eq!(adc_sample(&raw, 0), 0x234);
    assert_eq!(adc_sample(&raw, 1), 0xfff);
    assert_eq!(adc_sample(&raw, 2), 0x800);
}

#[test]
fn a_history_holds_the_last_values_in_order() {
    let mut history = History::new(4, 0);
    assert_eq!(history.recent(4), [0, 0, 0, 0]);
    for value in 1..=3 {
        history.push(value);
    }
    assert_eq!(history.recent(4), [0, 1, 2, 3]);
    for value in 4..=9 {
        history.push(value);
    }
    assert_eq!(history.recent(4), [6, 7, 8, 9]);
    assert_eq!(history.recent(2), [8, 9]);
    assert!(history.recent(0).is_empty());
}

#[test]
fn a_delay_line_returns_each_value_after_its_length() {
    let mut delay = DelayLine::new(3, 0);
    let out: Vec<i32> = (1..=7).map(|value| delay.push(value)).collect();
    assert_eq!(out, [0, 0, 0, 1, 2, 3, 4]);
}

#[test]
fn numbers_are_little_endian() {
    let mut value: u64 = 1;
    for _ in 0..20 {
        assert_eq!(u64_to_le_bytes(value), value.to_le_bytes());
        value = value.wrapping_mul(0x9e37_79b9_7f4a_7c15);
    }
    assert_eq!(
        u32_from_le_bytes_at(&[9, 0x78, 0x56, 0x34, 0x12], 1),
        0x1234_5678
    );
}

#[test]
fn c_strings_end_at_the_first_zero() {
    assert_eq!(c_string_len(b"abc\0def\0"), 3);
    assert_eq!(c_string_len(b"abc"), 3);
    assert_eq!(c_string_len(b"\0"), 0);
    assert_eq!(decode_c_string(b"HydraSDR\0\xff"), "HydraSDR");
    assert_eq!(decode_c_string(b"a\xc3\xa9\xff"), "a\u{e9}\u{fffd}");
}
