//! Pulse-width-modulated outputs.
//!
//! A timing unit counts ticks of the reference clock, slowed down by a
//! divider, from 0 up to a top count and starts over. Each of its two
//! outputs is high while the count is below the output's compare value.
//! The two outputs of a unit share divider and top count.

use vstd::arithmetic::div_mod::lemma_div_denominator;
use vstd::prelude::*;

verus! {

/// The clock that the timing units count, in hertz.
pub const REFERENCE_CLOCK_HZ: u32 = 125_000_000;

/// The largest duty cycle: always on. Duty cycles are given in
/// thousandths of a percent.
pub const DUTY_FULL: u32 = 100_000;

/// The divider that is used for a frequency.
pub open spec fn divider_for(frequency: int) -> int {
    if frequency >= 2000 {
        1
    } else if frequency >= 200 {
        10
    } else if frequency >= 20 {
        100
    } else if frequency >= 10 {
        200
    } else {
        255
    }
}

/// The top count for a frequency: the number of divided clock ticks in
/// one period, less one, rounded down. In phase-correct mode the counter
/// runs up and down, and the top count is half of that.
pub open spec fn top_for(frequency: int, phase_correct: bool) -> int {
    let top = REFERENCE_CLOCK_HZ as int / (frequency * divider_for(frequency)) - 1;
    if phase_correct {
        top / 2
    } else {
        top
    }
}

/// Whether a frequency can be set: it is not 0, and its top count fits
/// the 16-bit counter.
pub open spec fn frequency_supported(frequency: int, phase_correct: bool) -> bool {
    frequency > 0 && 0 <= top_for(frequency, phase_correct) <= 0xFFFF
}

/// The compare value for a duty cycle, given in thousandths of a percent:
/// that share of the top count, rounded to the nearest whole number.
pub open spec fn compare_for(top: int, duty: int) -> int {
    (top * duty + 50_000) / 100_000
}

/// The lowest frequency that can be set, in hertz.
pub open spec fn lowest_frequency(phase_correct: bool) -> int {
    if phase_correct {
        4
    } else {
        8
    }
}

/// The two divisions of a top count, one after the other, are one
/// division by the product.
proof fn lemma_ticks(frequency: int, divider: int)
    requires
        frequency > 0,
        divider > 0,
    ensures
        (REFERENCE_CLOCK_HZ as int / frequency) / divider == REFERENCE_CLOCK_HZ as int / (frequency
            * divider),
{
    lemma_div_denominator(REFERENCE_CLOCK_HZ as int, frequency, divider);
}

/// The frequencies that can be set are those from 8 Hz to the reference
/// clock, and from 4 Hz in phase-correct mode. From 1 Hz up to the
/// reference clock the top count is not negative and stays below half a
/// million.
pub proof fn lemma_supported_frequencies(frequency: int, phase_correct: bool)
    ensures
        frequency_supported(frequency, phase_correct) <==> lowest_frequency(phase_correct)
            <= frequency <= REFERENCE_CLOCK_HZ,
        0 < frequency <= REFERENCE_CLOCK_HZ ==> 0 <= top_for(frequency, phase_correct)
            <= 490_195,
{
    if frequency > 0 {
        let divider = divider_for(frequency);
        lemma_ticks(frequency, divider);
        let per_second = REFERENCE_CLOCK_HZ as int / frequency;
        if frequency > REFERENCE_CLOCK_HZ {
            assert(per_second == 0) by (nonlinear_arith)
                requires
                    per_second == 125_000_000int / frequency,
                    frequency > 125_000_000,
            ;
        } else if frequency >= 2000 {
            assert(1 <= per_second <= 62_500) by (nonlinear_arith)
                requires
                    per_second == 125_000_000int / frequency,
                    2000 <= frequency <= 125_000_000,
            ;
        } else if frequency >= 200 {
            assert(62_500 <= per_second <= 625_000) by (nonlinear_arith)
                requires
                    per_second == 125_000_000int / frequency,
                    200 <= frequency < 2000,
            ;
        } else if frequency >= 20 {
            assert(625_000 <= per_second <= 6_250_000) by (nonlinear_arith)
                requires
                    per_second == 125_000_000int / frequency,
                    20 <= frequency < 200,
            ;
        } else if frequency >= 10 {
            assert(6_250_000 <= per_second <= 12_500_000) by (nonlinear_arith)
                requires
                    per_second == 125_000_000int / frequency,
                    10 <= frequency < 20,
            ;
        } else if frequency == 9 {
            assert(REFERENCE_CLOCK_HZ as int / 9 == 13_888_888);
        } else if frequency == 8 {
            assert(REFERENCE_CLOCK_HZ as int / 8 == 15_625_000);
        } else if frequency == 7 {
            assert(REFERENCE_CLOCK_HZ as int / 7 == 17_857_142);
        } else if frequency == 6 {
            assert(REFERENCE_CLOCK_HZ as int / 6 == 20_833_333);
        } else if frequency == 5 {
            assert(REFERENCE_CLOCK_HZ as int / 5 == 25_000_000);
        } else if frequency == 4 {
            assert(REFERENCE_CLOCK_HZ as int / 4 == 31_250_000);
        } else if frequency == 3 {
            assert(REFERENCE_CLOCK_HZ as int / 3 == 41_666_666);
        } else if frequency == 2 {
            assert(REFERENCE_CLOCK_HZ as int / 2 == 62_500_000);
        } else {
            assert(REFERENCE_CLOCK_HZ as int / 1 == 125_000_000);
        }
    }
}

/// Divider, top count and the two compare values of a timing unit.
#[derive(Debug, Clone, Copy, PartialEq, Eq, Structural)]
pub struct PwmTiming {
    pub divider: u8,
    pub top: u16,
    pub compare_a: u16,
    pub compare_b: u16,
}

/// The timing for a frequency and two duty cycles.
pub open spec fn timing_for(frequency: int, duty_a: int, duty_b: int) -> PwmTiming {
    PwmTiming {
        divider: divider_for(frequency) as u8,
        top: top_for(frequency, false) as u16,
        compare_a: compare_for(top_for(frequency, false), duty_a) as u16,
        compare_b: compare_for(top_for(frequency, false), duty_b) as u16,
    }
}

/// The divider for a frequency in hertz. It depends on the frequency
/// alone, not on the counting mode and not on a duty cycle.
pub fn clock_divider(freq: u32) -> (r: u8)
    requires
        freq > 0,
    ensures
        r == divider_for(freq as int),
{
    if freq >= 2000 {
        1
    } else if freq >= 200 {
        10
    } else if freq >= 20 {
        100
    } else if freq >= 10 {
        200
    } else {
        255
    }
}

/// Top count and divider for a frequency in hertz, from 1 Hz up to the
/// reference clock. The top count is the one that the formula gives; below
/// 8 Hz (4 Hz in phase-correct mode) it is more than a 16-bit counter
/// holds, which `supports_frequency` tells.
pub fn calculate_top_div(freq: u32, phase_correct: bool) -> (r: (u32, u8))
    requires
        0 < freq <= REFERENCE_CLOCK_HZ,
    ensures
        r.0 == top_for(freq as int, phase_correct),
        r.1 == divider_for(freq as int),
{
    let freq_cpu: u32 = REFERENCE_CLOCK_HZ;
    let div: u8 = clock_divider(freq);
    proof {
        lemma_ticks(freq as int, div as int);
        lemma_supported_frequencies(freq as int, false);
        lemma_supported_frequencies(freq as int, phase_correct);
    }
    let mut top: u32 = (freq_cpu / freq / (div as u32)) - 1;
    if phase_correct {
        top /= 2;
    }
    (top, div)
}

/// Whether the top count for this frequency fits the 16-bit counter, so
/// that a timing unit can be set to it.
pub fn supports_frequency(freq: u32, phase_correct: bool) -> (r: bool)
    ensures
        r == frequency_supported(freq as int, phase_correct),
{
    proof {
        lemma_supported_frequencies(freq as int, phase_correct);
    }
    let lowest: u32 = if phase_correct {
        4
    } else {
        8
    };
    lowest <= freq && freq <= REFERENCE_CLOCK_HZ
}

/// The compare value for a duty cycle in thousandths of a percent.
pub fn compare_value(top: u16, duty: u32) -> (r: u16)
    requires
        duty <= DUTY_FULL,
    ensures
        r == compare_for(top as int, duty as int),
        r <= top,
{
    assert(0 <= top * duty <= top * 100_000) by (nonlinear_arith)
        requires
            0 <= duty <= 100_000,
            0 <= top,
    ;
    let scaled: u64 = (top as u64) * (duty as u64) + 50_000;
    (scaled / 100_000) as u16
}

/// One timing unit as it is set: its frequency, and the duty cycles of its
/// two outputs in thousandths of a percent.
pub struct PwmSlice {
    frequency: u32,
    duty_cycle_a: u32,
    duty_cycle_b: u32,
}

impl PwmSlice {
    #[verifier::type_invariant]
    spec fn settable(self) -> bool {
        &&& frequency_supported(self.frequency as int, false)
        &&& self.duty_cycle_a <= DUTY_FULL
        &&& self.duty_cycle_b <= DUTY_FULL
    }

    /// The frequency in hertz.
    pub closed spec fn frequency(&self) -> u32 {
        self.frequency
    }

    /// The duty cycle of the first output.
    pub closed spec fn duty_cycle_a(&self) -> u32 {
        self.duty_cycle_a
    }

    /// The duty cycle of the second output.
    pub closed spec fn duty_cycle_b(&self) -> u32 {
        self.duty_cycle_b
    }

    /// The timing that these settings ask for.
    pub open spec fn timing(&self) -> PwmTiming {
        timing_for(
            self.frequency() as int,
            self.duty_cycle_a() as int,
            self.duty_cycle_b() as int,
        )
    }

    pub fn new(frequency: u32, duty_cycle_a: u32, duty_cycle_b: u32) -> (r: Self)
        requires
            frequency_supported(frequency as int, false),
            duty_cycle_a <= DUTY_FULL,
            duty_cycle_b <= DUTY_FULL,
        ensures
            r.frequency() == frequency,
            r.duty_cycle_a() == duty_cycle_a,
            r.duty_cycle_b() == duty_cycle_b,
    {
        PwmSlice { frequency, duty_cycle_a, duty_cycle_b }
    }

    /// Takes a new frequency and returns the timing to put into the unit.
    /// The duty cycles stay as they are.
    pub fn set_frequency(&mut self, frequency: u32) -> (r: PwmTiming)
        requires
            frequency_supported(frequency as int, false),
        ensures
            final(self).frequency() == frequency,
            final(self).duty_cycle_a() == old(self).duty_cycle_a(),
            final(self).duty_cycle_b() == old(self).duty_cycle_b(),
            r == final(self).timing(),
    {
        proof {
            use_type_invariant(&*self);
        }
        self.frequency = frequency;
        self.update_pwm_config()
    }

    /// Takes a new duty cycle for the first output and returns the timing
    /// to put into the unit.
    pub fn set_duty_cycle_a(&mut self, duty_cycle_a: u32) -> (r: PwmTiming)
        requires
            duty_cycle_a <= DUTY_FULL,
        ensures
            final(self).frequency() == old(self).frequency(),
            final(self).duty_cycle_a() == duty_cycle_a,
            final(self).duty_cycle_b() == old(self).duty_cycle_b(),
            r == final(self).timing(),
    {
        proof {
            use_type_invariant(&*self);
        }
        self.duty_cycle_a = duty_cycle_a;
        self.update_pwm_config()
    }

    /// Takes a new duty cycle for the second output and returns the timing
    /// to put into the unit.
    pub fn set_duty_cycle_b(&mut self, duty_cycle_b: u32) -> (r: PwmTiming)
        requires
            duty_cycle_b <= DUTY_FULL,
        ensures
            final(self).frequency() == old(self).frequency(),
            final(self).duty_cycle_a() == old(self).duty_cycle_a(),
            final(self).duty_cycle_b() == duty_cycle_b,
            r == final(self).timing(),
    {
        proof {
            use_type_invariant(&*self);
        }
        self.duty_cycle_b = duty_cycle_b;
        self.update_pwm_config()
    }

    /// The timing to put into the unit for the settings as they are.
    pub fn update_pwm_config(&self) -> (r: PwmTiming)
        ensures
            r == self.timing(),
            r.compare_a <= r.top,
            r.compare_b <= r.top,
    {
        proof {
            use_type_invariant(self);
        }
        proof {
            lemma_supported_frequencies(self.frequency as int, false);
        }
        let (wide_top, div) = calculate_top_div(self.frequency, false);
        let top: u16 = wide_top as u16;
        let duty_a: u16 = compare_value(top, self.duty_cycle_a);
        let duty_b: u16 = compare_value(top, self.duty_cycle_b);
        PwmTiming { divider: div, top, compare_a: duty_a, compare_b: duty_b }
    }
}

} // verus!
