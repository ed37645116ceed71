use io_expander::iox::analog_output::{
    calculate_top_div, clock_divider, compare_value, supports_frequency, PwmSlice, PwmTiming,
    DUTY_FULL, REFERENCE_CLOCK_HZ,
};

#[test]
fn one_kilohertz_uses_divider_ten() {
    assert_eq!(calculate_top_div(1000, false), (12499, 10));
}

#[test]
fn fifty_hertz_uses_divider_one_hundred() {
    assert_eq!(calculate_top_div(50, false), (24999, 100));
}

#[test]
fn divider_follows_the_frequency_band() {
    assert_eq!(calculate_top_div(8, false), (61273, 255));
    assert_eq!(calculate_top_div(9, false), (54465, 255));
    assert_eq!(calculate_top_div(10, false), (62499, 200));
    assert_eq!(calculate_top_div(19, false), (32893, 200));
    assert_eq!(calculate_top_div(20, false), (62499, 100));
    assert_eq!(calculate_top_div(199, false), (6280, 100));
    assert_eq!(calculate_top_div(200, false), (62499, 10));
    assert_eq!(calculate_top_div(1999, false), (6252, 10));
    assert_eq!(calculate_top_div(2000, false), (62499, 1));
    assert_eq!(calculate_top_div(10_000, false), (12499, 1));
    assert_eq!(calculate_top_div(REFERENCE_CLOCK_HZ, false), (0, 1));
}

#[test]
fn top_is_the_floor_of_clock_over_frequency_times_divider() {
    let mut freq: u32 = 8;
    while freq <= REFERENCE_CLOCK_HZ {
        let (top, div) = calculate_top_div(freq, false);
        let expected_div: u64 = if freq >= 2000 {
            1
        } else if freq >= 200 {
            10
        } else if freq >= 20 {
            100
        } else if freq >= 10 {
            200
        } else {
            255
        };
        assert_eq!(div as u64, expected_div);
        assert_eq!(top as u64, REFERENCE_CLOCK_HZ as u64 / (freq as u64 * expected_div) - 1);
        freq += 1 + freq / 97;
    }
}

#[test]
fn phase_correct_halves_the_top_and_keeps_the_divider() {
    assert_eq!(calculate_top_div(1000, true), (6249, 10));
    assert_eq!(calculate_top_div(50, true), (12499, 100));
    assert_eq!(calculate_top_div(4, true), (61274, 255));
    assert_eq!(calculate_top_div(2000, true), (31249, 1));
    for freq in [4u32, 9, 10, 19, 20, 199, 200, 1999, 2000, 44_100, 1_000_000] {
        let (top, div) = calculate_top_div(freq, true);
        if freq >= 8 {
            let (plain_top, plain_div) = calculate_top_div(freq, false);
            assert_eq!(div, plain_div);
            assert_eq!(top, plain_top / 2);
        } else {
            assert_eq!(div, 255);
        }
    }
}

#[test]
fn supported_frequencies_are_those_whose_top_fits() {
    assert!(!supports_frequency(0, false));
    assert!(!supports_frequency(0, true));
    assert!(!supports_frequency(7, false));
    assert!(supports_frequency(8, false));
    assert!(!supports_frequency(3, true));
    assert!(supports_frequency(4, true));
    assert!(supports_frequency(REFERENCE_CLOCK_HZ, false));
    assert!(supports_frequency(REFERENCE_CLOCK_HZ, true));
    assert!(!supports_frequency(REFERENCE_CLOCK_HZ + 1, false));
    assert!(!supports_frequency(u32::MAX, true));
    for freq in 1..20_000u32 {
        for phase_correct in [false, true] {
            let divider: u64 = if freq >= 2000 {
                1
            } else if freq >= 200 {
                10
            } else if freq >= 20 {
                100
            } else if freq >= 10 {
                200
            } else {
                255
            };
            let mut top = REFERENCE_CLOCK_HZ as u64 / (freq as u64 * divider) - 1;
            if phase_correct {
                top /= 2;
            }
            assert_eq!(supports_frequency(freq, phase_correct), top <= 0xFFFF);
        }
    }
}

#[test]
fn compare_value_is_the_rounded_share_of_top() {
    assert_eq!(compare_value(12499, 0), 0);
    assert_eq!(compare_value(12499, DUTY_FULL), 12499);
    assert_eq!(compare_value(12499, 50_000), 6250);
    assert_eq!(compare_value(12499, 20_000), 2500);
    assert_eq!(compare_value(1000, 12_345), 123);
    assert_eq!(compare_value(1000, 12_350), 124);
    assert_eq!(compare_value(1000, 12_349), 123);
    assert_eq!(compare_value(u16::MAX, DUTY_FULL), u16::MAX);
    assert_eq!(compare_value(u16::MAX, 99_999), 65534);
    assert_eq!(compare_value(0, 77_000), 0);
    assert_eq!(compare_value(3, 50_000), 2);
    assert_eq!(compare_value(3, 16_666), 0);
    assert_eq!(compare_value(3, 16_667), 1);
    for top in [0u16, 1, 2, 99, 12499, 62499, u16::MAX] {
        for duty in (0..=DUTY_FULL).step_by(1_237) {
            let value = compare_value(top, duty);
            assert!(value <= top);
            assert_eq!(value as u64, (top as u64 * duty as u64 + 50_000) / 100_000);
        }
    }
}

#[test]
fn slice_shares_top_and_divider_between_both_outputs() {
    let slice = PwmSlice::new(10_000, 20_000, 75_000);
    assert_eq!(
        slice.update_pwm_config(),
        PwmTiming { divider: 1, top: 12499, compare_a: 2500, compare_b: 9374 }
    );
}

#[test]
fn setters_return_the_timing_to_apply() {
    let mut slice = PwmSlice::new(10_000, 20_000, 20_000);
    let timing = slice.set_duty_cycle_b(30_000);
    assert_eq!(timing, PwmTiming { divider: 1, top: 12499, compare_a: 2500, compare_b: 3750 });
    let timing = slice.set_duty_cycle_a(0);
    assert_eq!(timing, PwmTiming { divider: 1, top: 12499, compare_a: 0, compare_b: 3750 });
    let timing = slice.set_frequency(50);
    assert_eq!(timing, PwmTiming { divider: 100, top: 24999, compare_a: 0, compare_b: 7500 });
    assert_eq!(slice.update_pwm_config(), timing);
    let timing = slice.set_duty_cycle_a(DUTY_FULL);
    assert_eq!(timing, PwmTiming { divider: 100, top: 24999, compare_a: 24999, compare_b: 7500 });
}

#[test]
fn divider_does_not_depend_on_the_duty_cycles() {
    for duty in [0u32, 1, 999, 50_000, 99_999, DUTY_FULL] {
        let slice = PwmSlice::new(1000, duty, DUTY_FULL - duty);
        let timing = slice.update_pwm_config();
        assert_eq!(timing.divider, 10);
        assert_eq!(timing.top, 12499);
    }
}

#[test]
fn every_frequency_from_one_hertz_has_a_divider_and_a_top() {
    assert_eq!(calculate_top_div(1, false), (490_195, 255));
    assert_eq!(calculate_top_div(2, false), (245_097, 255));
    assert_eq!(calculate_top_div(7, false), (70_027, 255));
    assert_eq!(calculate_top_div(1, true), (245_097, 255));
    assert_eq!(calculate_top_div(3, true), (81_698, 255));
    for freq in 1..10u32 {
        let (top, div) = calculate_top_div(freq, false);
        assert_eq!(div, 255);
        assert_eq!(top, REFERENCE_CLOCK_HZ / (freq * 255) - 1);
        assert_eq!(supports_frequency(freq, false), top <= 0xFFFF);
    }
}

#[test]
fn divider_depends_on_the_frequency_alone() {
    assert_eq!(clock_divider(1), 255);
    assert_eq!(clock_divider(9), 255);
    assert_eq!(clock_divider(10), 200);
    assert_eq!(clock_divider(19), 200);
    assert_eq!(clock_divider(20), 100);
    assert_eq!(clock_divider(199), 100);
    assert_eq!(clock_divider(200), 10);
    assert_eq!(clock_divider(1999), 10);
    assert_eq!(clock_divider(2000), 1);
    assert_eq!(clock_divider(REFERENCE_CLOCK_HZ), 1);
    assert_eq!(clock_divider(REFERENCE_CLOCK_HZ + 1), 1);
    assert_eq!(clock_divider(u32::MAX), 1);
    let mut last = 255;
    let mut freq: u32 = 1;
    while freq <= REFERENCE_CLOCK_HZ {
        let div = clock_divider(freq);
        assert!(div <= last);
        assert!([1u8, 10, 100, 200, 255].contains(&div));
        for phase_correct in [false, true] {
            assert_eq!(calculate_top_div(freq, phase_correct).1, div);
        }
        last = div;
        freq += 1 + freq / 53;
    }
}
