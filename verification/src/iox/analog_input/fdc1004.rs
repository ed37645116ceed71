//! A four-channel capacitance sensor with a switchable offset.
//!
//! A measurement is set up in a per-measurement register, started through
//! the trigger register, and read as two 16-bit registers that together
//! hold a signed 24-bit sample. An offset capacitor in 32 steps (the
//! calibration DAC) can be subtracted at the input to keep the sample
//! inside that range.
//!
//! Samples are held as `i32` values within the 24-bit range. The 24-bit
//! arithmetic itself is done by `ux::i24`.

use super::{field, read_word, word_of_bytes, write_frame, write_frame_of};
use vstd::arithmetic::power2::{lemma2_to64, pow2};
use vstd::prelude::*;

verus! {

/// The highest setting of the calibration DAC.
pub const CAPDAC_MAX: u8 = 0x1F;

/// The number of samples after which a range search ends at the latest:
/// one for each setting of the calibration DAC.
pub const MAX_MEASUREMENTS: u8 = 32;

/// The largest sample: the input is at or above the top of the range.
pub const SAMPLE_MAX: i32 = 0x7F_FFFF;

/// The smallest sample: the input is at or below the bottom of the range.
pub const SAMPLE_MIN: i32 = -0x80_0000;

#[derive(Debug)]
pub enum FDCError<E> {
    MeasurementNotComplete,
    I2CError(E),
}

/// Samples per second.
#[derive(Copy, Clone, Debug, PartialEq, Eq, Structural)]
pub enum OutputRate {
    SPS100,
    SPS200,
    SPS400,
}

impl Default for OutputRate {
    fn default() -> (r: Self)
        ensures
            r == OutputRate::SPS100,
    {
        OutputRate::SPS100
    }
}

/// What can be connected to an input of a measurement.
#[derive(Copy, Clone, Debug, PartialEq, Eq, Structural)]
pub enum Channel {
    CIN1,
    CIN2,
    CIN3,
    CIN4,
    CAPDAC,
    DISABLED,
}

/// One of the four measurements that the device can hold set up.
#[derive(Copy, Clone, Debug, PartialEq, Eq, Structural)]
pub enum Measurement {
    Measurement1,
    Measurement2,
    Measurement3,
    Measurement4,
}

#[derive(Copy, Clone, Debug, PartialEq, Eq, Structural)]
pub enum Register {
    Measurement1MSB,
    Measurement1LSB,
    Measurement2MSB,
    Measurement2LSB,
    Measurement3MSB,
    Measurement3LSB,
    Measurement4MSB,
    Measurement4LSB,
    Measurement1Config,
    Measurement2Config,
    Measurement3Config,
    Measurement4Config,
    FdcConf,
    OffsetCalCIN1,
    OffsetCalCIN2,
    OffsetCalCIN3,
    OffsetCalCIN4,
    GainCalCIN1,
    GainCalCIN2,
    GainCalCIN3,
    GainCalCIN4,
    ManufacturerId,
    DeviceId,
}

impl Measurement {
    /// 0 for the first measurement, 3 for the last.
    pub open spec fn index(self) -> int {
        match self {
            Measurement::Measurement1 => 0,
            Measurement::Measurement2 => 1,
            Measurement::Measurement3 => 2,
            Measurement::Measurement4 => 3,
        }
    }

    /// The measurement that is used for a channel: the one with the
    /// channel's number, and the first for what is no input pin.
    pub open spec fn of_channel(channel: Channel) -> Measurement {
        match channel {
            Channel::CIN1 => Measurement::Measurement1,
            Channel::CIN2 => Measurement::Measurement2,
            Channel::CIN3 => Measurement::Measurement3,
            Channel::CIN4 => Measurement::Measurement4,
            Channel::CAPDAC => Measurement::Measurement1,
            Channel::DISABLED => Measurement::Measurement1,
        }
    }

    /// The register that sets the measurement up.
    pub open spec fn config_register(self) -> Register {
        match self {
            Measurement::Measurement1 => Register::Measurement1Config,
            Measurement::Measurement2 => Register::Measurement2Config,
            Measurement::Measurement3 => Register::Measurement3Config,
            Measurement::Measurement4 => Register::Measurement4Config,
        }
    }

    /// The register with the upper 16 bits of the sample.
    pub open spec fn msb_register(self) -> Register {
        match self {
            Measurement::Measurement1 => Register::Measurement1MSB,
            Measurement::Measurement2 => Register::Measurement2MSB,
            Measurement::Measurement3 => Register::Measurement3MSB,
            Measurement::Measurement4 => Register::Measurement4MSB,
        }
    }

    /// The register with the lower 8 bits of the sample in its upper byte.
    pub open spec fn lsb_register(self) -> Register {
        match self {
            Measurement::Measurement1 => Register::Measurement1LSB,
            Measurement::Measurement2 => Register::Measurement2LSB,
            Measurement::Measurement3 => Register::Measurement3LSB,
            Measurement::Measurement4 => Register::Measurement4LSB,
        }
    }
}

impl Register {
    /// The address of the register on the device.
    pub open spec fn address(self) -> int {
        match self {
            Register::Measurement1MSB => 0x00,
            Register::Measurement1LSB => 0x01,
            Register::Measurement2MSB => 0x02,
            Register::Measurement2LSB => 0x03,
            Register::Measurement3MSB => 0x04,
            Register::Measurement3LSB => 0x05,
            Register::Measurement4MSB => 0x06,
            Register::Measurement4LSB => 0x07,
            Register::Measurement1Config => 0x08,
            Register::Measurement2Config => 0x09,
            Register::Measurement3Config => 0x0A,
            Register::Measurement4Config => 0x0B,
            Register::FdcConf => 0x0C,
            Register::OffsetCalCIN1 => 0x0D,
            Register::OffsetCalCIN2 => 0x0E,
            Register::OffsetCalCIN3 => 0x0F,
            Register::OffsetCalCIN4 => 0x10,
            Register::GainCalCIN1 => 0x11,
            Register::GainCalCIN2 => 0x12,
            Register::GainCalCIN3 => 0x13,
            Register::GainCalCIN4 => 0x14,
            Register::ManufacturerId => 0xFE,
            Register::DeviceId => 0xFF,
        }
    }

    pub fn to_u8(&self) -> (r: u8)
        ensures
            r == self.address(),
    {
        match self {
            Register::Measurement1MSB => 0x00,
            Register::Measurement1LSB => 0x01,
            Register::Measurement2MSB => 0x02,
            Register::Measurement2LSB => 0x03,
            Register::Measurement3MSB => 0x04,
            Register::Measurement3LSB => 0x05,
            Register::Measurement4MSB => 0x06,
            Register::Measurement4LSB => 0x07,
            Register::Measurement1Config => 0x08,
            Register::Measurement2Config => 0x09,
            Register::Measurement3Config => 0x0A,
            Register::Measurement4Config => 0x0B,
            Register::FdcConf => 0x0C,
            Register::OffsetCalCIN1 => 0x0D,
            Register::OffsetCalCIN2 => 0x0E,
            Register::OffsetCalCIN3 => 0x0F,
            Register::OffsetCalCIN4 => 0x10,
            Register::GainCalCIN1 => 0x11,
            Register::GainCalCIN2 => 0x12,
            Register::GainCalCIN3 => 0x13,
            Register::GainCalCIN4 => 0x14,
            Register::ManufacturerId => 0xFE,
            Register::DeviceId => 0xFF,
        }
    }
}

/// The registers of a measurement lie where the register map puts them:
/// sample halves in pairs from 0x00, set-up registers from 0x08. No two
/// registers share an address.
pub proof fn lemma_register_map(m: Measurement, a: Register, b: Register)
    ensures
        m.msb_register().address() == 2 * m.index(),
        m.lsb_register().address() == 2 * m.index() + 1,
        m.config_register().address() == 0x08 + m.index(),
        a.address() == b.address() ==> a == b,
{
}

/// Whether a number lies in the signed 24-bit range.
pub open spec fn fits_i24(value: int) -> bool {
    -0x80_0000 <= value <= 0x7F_FFFF
}

/// The signed number that the low 24 bits of `value` spell in two's
/// complement.
pub open spec fn wrap_i24(value: int) -> int {
    (value + 0x80_0000) % 0x100_0000 - 0x80_0000
}

/// `<<` of `ux::i24`: the operand is shifted left inside its 32-bit
/// container, bits that leave the container are dropped, and the low 24
/// bits of what remains are read as a signed 24-bit number. `i24::new`
/// refuses a value outside the 24-bit range and the shift refuses a count
/// of 32 or more; both are kept out here.
#[verifier::external_body]
fn i24_shl(value: i32, shift: u32) -> (r: i32)
    requires
        fits_i24(value as int),
        shift < 32,
    ensures
        r == wrap_i24(value * pow2(shift as nat)),
{
    i32::from(ux::i24::new(value) << shift)
}

/// `>>` of `ux::i24`: an arithmetic shift of the signed value, which
/// rounds towards minus infinity. The same inputs are kept out as for
/// `i24_shl`.
#[verifier::external_body]
fn i24_shr(value: i32, shift: u32) -> (r: i32)
    requires
        fits_i24(value as int),
        shift < 32,
    ensures
        r == (value as int) / (pow2(shift as nat) as int),
{
    i32::from(ux::i24::new(value) >> shift)
}

/// `|` of `ux::i24`: the bitwise or of the two signed values.
#[verifier::external_body]
fn i24_bitor(left: i32, right: i32) -> (r: i32)
    requires
        fits_i24(left as int),
        fits_i24(right as int),
    ensures
        r == left | right,
{
    i32::from(ux::i24::new(left) | ux::i24::new(right))
}

/// `ux::i24::max_value`: the largest signed 24-bit number.
#[verifier::external_body]
fn i24_max_value() -> (r: i32)
    ensures
        r == 0x7F_FFFF,
{
    i32::from(ux::i24::max_value())
}

/// `ux::i24::min_value`: the smallest signed 24-bit number.
#[verifier::external_body]
fn i24_min_value() -> (r: i32)
    ensures
        r == -0x80_0000,
{
    i32::from(ux::i24::min_value())
}

/// The sample that the two result registers of a measurement hold: the
/// first register is bits 23 to 8, the upper byte of the second is bits 7
/// to 0, and the 24 bits are a number in two's complement. The lower byte
/// of the second register carries nothing.
pub open spec fn sample_of_registers(msb: int, lsb: int) -> int {
    wrap_i24(msb * 256 + lsb / 256)
}

/// Puts the two result registers of a measurement together.
pub fn sample_from_registers(msb: u16, lsb: u16) -> (sample: i32)
    ensures
        sample == sample_of_registers(msb as int, lsb as int),
        fits_i24(sample as int),
{
    proof {
        lemma2_to64();
    }
    let high: i32 = i24_shl(msb as i32, 8);
    let low: i32 = i24_shr(lsb as i32, 8);
    let ghost top: i32 = if msb >= 0x8000 {
        (msb - 0x1_0000) as i32
    } else {
        msb as i32
    };
    assert(high == top * 256);
    assert(0 <= low < 256);
    assert(high | low == high + low) by (bit_vector)
        requires
            high == top * 256,
            -0x8000 <= top < 0x8000,
            0 <= low < 256,
    ;
    i24_bitor(high, low)
}

/// One sample together with the setting of the calibration DAC that it was
/// taken with.
#[derive(Copy, Clone, Debug, PartialEq, Eq, Structural)]
pub struct MeasuredCapacitance {
    pub value: i32,
    pub capdac: u8,
}

/// The capacitance that a sample stands for, as a multiple of 2^-19 pF:
/// one step of the sample is 2^-19 pF, one step of the calibration DAC is
/// 3.125 pF.
pub open spec fn capacitance_q19(value: int, capdac: int) -> int {
    value + capdac * 1_638_400
}

/// The capacitance that a sample stands for in femtofarads, rounded down:
/// one step of the sample is 1000 / 2^19 fF, one step of the calibration
/// DAC is 3125 fF.
pub open spec fn capacitance_femtofarads(value: int, capdac: int) -> int {
    (value * 125) / 65_536 + capdac * 3_125
}

impl MeasuredCapacitance {
    /// The sample is a 24-bit number and the DAC setting one of the 32.
    pub open spec fn wf(self) -> bool {
        fits_i24(self.value as int) && self.capdac <= CAPDAC_MAX
    }

    pub fn new(value: i32, capdac: u8) -> (r: Self)
        requires
            fits_i24(value as int),
            capdac <= CAPDAC_MAX,
        ensures
            r.wf(),
            r.value == value,
            r.capdac == capdac,
    {
        MeasuredCapacitance { value, capdac }
    }

    /// The capacitance in femtofarads, rounded down to a whole number.
    pub fn to_weird(&self) -> (r: i32)
        requires
            self.wf(),
        ensures
            r == capacitance_femtofarads(self.value as int, self.capdac as int),
    {
        let lifted: i32 = (self.value + 0x80_0000) * 125;
        let raw_part: i32 = lifted / 65_536 - 16_000;
        assert(raw_part == (self.value * 125) / 65_536) by {
            assert(lifted == self.value * 125 + 16_000 * 65_536);
        }
        raw_part + (self.capdac as i32) * 3_125
    }

    /// The capacitance in picofarads as a fixed-point number with 19
    /// fractional bits: the result divided by 524288 is the capacitance in
    /// picofarads.
    pub fn to_pf(&self) -> (r: i32)
        requires
            self.wf(),
        ensures
            r == capacitance_q19(self.value as int, self.capdac as int),
    {
        self.value + (self.capdac as i32) * 1_638_400
    }
}

/// The two conversions agree: the femtofarad figure is the picofarad
/// figure times one thousand, rounded down, so the two differ by less than
/// one femtofarad.
pub proof fn lemma_conversions_agree(value: int, capdac: int)
    ensures
        capacitance_femtofarads(value, capdac) == (capacitance_q19(value, capdac) * 1_000)
            / 524_288,
        0 <= capacitance_q19(value, capdac) * 1_000 - capacitance_femtofarads(value, capdac)
            * 524_288 < 524_288,
{
    let q = capacitance_q19(value, capdac);
    let n = value * 125 + capdac * 3_125 * 65_536;
    assert(q * 1_000 == n * 8);
    assert((n * 8) / 524_288 == n / 65_536);
    assert(n / 65_536 == (value * 125) / 65_536 + capdac * 3_125);
}

impl Channel {
    /// The code of the channel at the positive input of a measurement.
    /// Only the four input pins can be connected there; anything else
    /// selects the first pin.
    pub open spec fn positive_code(self) -> int {
        match self {
            Channel::CIN1 => 0,
            Channel::CIN2 => 1,
            Channel::CIN3 => 2,
            Channel::CIN4 => 3,
            Channel::CAPDAC => 0,
            Channel::DISABLED => 0,
        }
    }

    /// The code of the channel at the negative input of a measurement.
    pub open spec fn negative_code(self) -> int {
        match self {
            Channel::CIN1 => 0,
            Channel::CIN2 => 1,
            Channel::CIN3 => 2,
            Channel::CIN4 => 3,
            Channel::CAPDAC => 4,
            Channel::DISABLED => 7,
        }
    }
}

/// The set-up of one measurement: what is connected to its two inputs, and
/// the setting of the calibration DAC.
///
/// | bits  | content                  |
/// |-------|--------------------------|
/// | 15-13 | positive input           |
/// | 12-10 | negative input           |
/// | 9-5   | calibration DAC, 0 to 31 |
#[derive(Copy, Clone, Debug, PartialEq, Eq, Structural)]
pub struct MeasurementConfiguration {
    pub channel_a: Channel,
    pub channel_b: Channel,
    pub offset_capacitance: u8,
}

impl MeasurementConfiguration {
    /// The DAC setting fits its five bits.
    pub open spec fn wf(self) -> bool {
        self.offset_capacitance <= CAPDAC_MAX
    }

    /// The register value that writes this set-up.
    pub open spec fn word(self) -> int {
        self.channel_a.positive_code() * 0x2000 + self.channel_b.negative_code() * 0x400
            + self.offset_capacitance * 0x20
    }

    pub fn new(channel_a: Channel, channel_b: Channel, offset_capacitance: u8) -> (r: Self)
        requires
            offset_capacitance <= CAPDAC_MAX,
        ensures
            r.wf(),
            r == (MeasurementConfiguration { channel_a, channel_b, offset_capacitance }),
    {
        MeasurementConfiguration { channel_a, channel_b, offset_capacitance }
    }

    pub fn to_u16(&self) -> (r: u16)
        requires
            self.wf(),
        ensures
            r == self.word(),
    {
        let positive: u16 = match self.channel_a {
            Channel::CIN1 => 0x0000,
            Channel::CIN2 => 0x2000,
            Channel::CIN3 => 0x4000,
            Channel::CIN4 => 0x6000,
            _ => 0x0000,
        };
        let negative: u16 = match self.channel_b {
            Channel::CIN1 => 0x0000,
            Channel::CIN2 => 0x0400,
            Channel::CIN3 => 0x0800,
            Channel::CIN4 => 0x0C00,
            Channel::CAPDAC => 0x1000,
            Channel::DISABLED => 0x1C00,
        };
        let capdac: u16 = self.offset_capacitance as u16;
        assert((positive | negative | (capdac << 5)) == positive + negative + capdac * 0x20)
            by (bit_vector)
            requires
                positive % 0x2000 == 0,
                negative % 0x400 == 0 && negative < 0x2000,
                capdac < 0x20,
        ;
        let mut val: u16 = 0;
        val |= positive;
        val |= negative;
        val |= capdac << 5;
        assert(val == (positive | negative | (capdac << 5))) by (bit_vector)
            requires
                val == ((0u16 | positive) | negative) | (capdac << 5),
        ;
        val
    }
}

impl OutputRate {
    pub open spec fn code(self) -> int {
        match self {
            OutputRate::SPS100 => 1,
            OutputRate::SPS200 => 2,
            OutputRate::SPS400 => 3,
        }
    }

    /// The code 0 is not assigned; it reads as the slowest rate.
    pub open spec fn of_code(code: int) -> OutputRate {
        if code == 2 {
            OutputRate::SPS200
        } else if code == 3 {
            OutputRate::SPS400
        } else {
            OutputRate::SPS100
        }
    }

    /// The time to wait for one sample at this rate, in milliseconds.
    pub open spec fn settle_millis(self) -> int {
        match self {
            OutputRate::SPS100 => 11,
            OutputRate::SPS200 => 6,
            OutputRate::SPS400 => 3,
        }
    }
}

/// 1 for a flag that is set, 0 for one that is not.
pub open spec fn flag(set: bool) -> int {
    if set {
        1
    } else {
        0
    }
}

/// The trigger and status register.
///
/// | bit   | content                              |
/// |-------|--------------------------------------|
/// | 15    | reset                                |
/// | 11-10 | output rate                          |
/// | 8     | repeat                               |
/// | 7-4   | start measurement 1 to 4 (written)   |
/// | 3-0   | measurement 1 to 4 is done (read)    |
#[derive(Copy, Clone, Debug, PartialEq, Eq, Structural)]
pub struct FDCConfiguration {
    pub reset: bool,
    pub rate: OutputRate,
    pub repeat: bool,
    pub initiate_measurement1: bool,
    pub initiate_measurement2: bool,
    pub initiate_measurement3: bool,
    pub initiate_measurement4: bool,
    pub measurement1_done: bool,
    pub measurement2_done: bool,
    pub measurement3_done: bool,
    pub measurement4_done: bool,
}

impl Default for FDCConfiguration {
    fn default() -> (r: Self)
        ensures
            r == FDCConfiguration::idle(),
    {
        FDCConfiguration {
            reset: false,
            rate: OutputRate::default(),
            repeat: false,
            initiate_measurement1: false,
            initiate_measurement2: false,
            initiate_measurement3: false,
            initiate_measurement4: false,
            measurement1_done: false,
            measurement2_done: false,
            measurement3_done: false,
            measurement4_done: false,
        }
    }
}

impl FDCConfiguration {
    /// Nothing requested, nothing done, at the slowest rate.
    pub open spec fn idle() -> FDCConfiguration {
        FDCConfiguration {
            reset: false,
            rate: OutputRate::SPS100,
            repeat: false,
            initiate_measurement1: false,
            initiate_measurement2: false,
            initiate_measurement3: false,
            initiate_measurement4: false,
            measurement1_done: false,
            measurement2_done: false,
            measurement3_done: false,
            measurement4_done: false,
        }
    }

    /// The register value that holds this content.
    pub open spec fn word(self) -> int {
        flag(self.reset) * 0x8000 + self.rate.code() * 0x400 + flag(self.repeat) * 0x100 + flag(
            self.initiate_measurement1,
        ) * 0x80 + flag(self.initiate_measurement2) * 0x40 + flag(self.initiate_measurement3) * 0x20
            + flag(self.initiate_measurement4) * 0x10 + flag(self.measurement1_done) * 0x8 + flag(
            self.measurement2_done,
        ) * 0x4 + flag(self.measurement3_done) * 0x2 + flag(self.measurement4_done)
    }

    /// The content that a register value stands for.
    pub open spec fn of_word(word: int) -> FDCConfiguration {
        FDCConfiguration {
            reset: field(word, 0x8000, 2) == 1,
            rate: OutputRate::of_code(field(word, 0x400, 4)),
            repeat: field(word, 0x100, 2) == 1,
            initiate_measurement1: field(word, 0x80, 2) == 1,
            initiate_measurement2: field(word, 0x40, 2) == 1,
            initiate_measurement3: field(word, 0x20, 2) == 1,
            initiate_measurement4: field(word, 0x10, 2) == 1,
            measurement1_done: field(word, 0x8, 2) == 1,
            measurement2_done: field(word, 0x4, 2) == 1,
            measurement3_done: field(word, 0x2, 2) == 1,
            measurement4_done: field(word, 1, 2) == 1,
        }
    }

    /// Whether the done flag of `measurement` is set.
    pub open spec fn done(self, measurement: Measurement) -> bool {
        match measurement {
            Measurement::Measurement1 => self.measurement1_done,
            Measurement::Measurement2 => self.measurement2_done,
            Measurement::Measurement3 => self.measurement3_done,
            Measurement::Measurement4 => self.measurement4_done,
        }
    }

    /// The content that starts `measurement` once, at `rate`.
    pub open spec fn trigger(rate: OutputRate, measurement: Measurement) -> FDCConfiguration {
        FDCConfiguration {
            rate,
            initiate_measurement1: measurement == Measurement::Measurement1,
            initiate_measurement2: measurement == Measurement::Measurement2,
            initiate_measurement3: measurement == Measurement::Measurement3,
            initiate_measurement4: measurement == Measurement::Measurement4,
            ..FDCConfiguration::idle()
        }
    }

    pub fn from_u16(d: u16) -> (r: Self)
        ensures
            r == FDCConfiguration::of_word(d as int),
    {
        let rate_bits: u16 = d & 0x0C00;
        proof {
            reveal(field);
            assert((d & 0x8000 != 0) == ((d / 0x8000) % 2 == 1) && rate_bits == ((d / 0x400) % 4)
                * 0x400 && (d & 0x100 != 0) == ((d / 0x100) % 2 == 1) && (d & 0x80 != 0) == ((d
                / 0x80) % 2 == 1) && (d & 0x40 != 0) == ((d / 0x40) % 2 == 1) && (d & 0x20 != 0)
                == ((d / 0x20) % 2 == 1) && (d & 0x10 != 0) == ((d / 0x10) % 2 == 1) && (d & 0x8
                != 0) == ((d / 0x8) % 2 == 1) && (d & 0x4 != 0) == ((d / 0x4) % 2 == 1) && (d
                & 0x2 != 0) == ((d / 0x2) % 2 == 1) && (d & 0x1 != 0) == ((d / 1) % 2 == 1))
                by (bit_vector)
                requires
                    rate_bits == d & 0x0C00,
            ;
        }
        FDCConfiguration {
            reset: d & 0x8000 != 0,
            rate: match rate_bits {
                0x0400 => OutputRate::SPS100,
                0x0800 => OutputRate::SPS200,
                0x0C00 => OutputRate::SPS400,
                _ => OutputRate::SPS100,
            },
            repeat: d & 0x100 != 0,
            initiate_measurement1: d & 0x80 != 0,
            initiate_measurement2: d & 0x40 != 0,
            initiate_measurement3: d & 0x20 != 0,
            initiate_measurement4: d & 0x10 != 0,
            measurement1_done: d & 0x8 != 0,
            measurement2_done: d & 0x4 != 0,
            measurement3_done: d & 0x2 != 0,
            measurement4_done: d & 0x1 != 0,
        }
    }

    pub fn rate(self, rate: OutputRate) -> (r: Self)
        ensures
            r == (FDCConfiguration { rate, ..self }),
    {
        let mut config = self;
        config.rate = rate;
        config
    }

    pub fn initiate_measurement1(self, initiate: bool) -> (r: Self)
        ensures
            r == (FDCConfiguration { initiate_measurement1: initiate, ..self }),
    {
        let mut config = self;
        config.initiate_measurement1 = initiate;
        config
    }

    pub fn initiate_measurement2(self, initiate: bool) -> (r: Self)
        ensures
            r == (FDCConfiguration { initiate_measurement2: initiate, ..self }),
    {
        let mut config = self;
        config.initiate_measurement2 = initiate;
        config
    }

    pub fn initiate_measurement3(self, initiate: bool) -> (r: Self)
        ensures
            r == (FDCConfiguration { initiate_measurement3: initiate, ..self }),
    {
        let mut config = self;
        config.initiate_measurement3 = initiate;
        config
    }

    pub fn initiate_measurement4(self, initiate: bool) -> (r: Self)
        ensures
            r == (FDCConfiguration { initiate_measurement4: initiate, ..self }),
    {
        let mut config = self;
        config.initiate_measurement4 = initiate;
        config
    }

    pub fn reset(self, reset: bool) -> (r: Self)
        ensures
            r == (FDCConfiguration { reset, ..self }),
    {
        let mut config = self;
        config.reset = reset;
        config
    }

    pub fn repeat(self, repeat: bool) -> (r: Self)
        ensures
            r == (FDCConfiguration { repeat, ..self }),
    {
        let mut config = self;
        config.repeat = repeat;
        config
    }

    pub fn to_u16(&self) -> (r: u16)
        ensures
            r == self.word(),
    {
        let reset: u16 = if self.reset { 0x8000 } else { 0x0000 };
        let rate: u16 = match self.rate {
            OutputRate::SPS100 => 0x0400,
            OutputRate::SPS200 => 0x0800,
            OutputRate::SPS400 => 0x0C00,
        };
        let repeat: u16 = if self.repeat { 0x100 } else { 0x0000 };
        let start1: u16 = if self.initiate_measurement1 { 0x80 } else { 0x0000 };
        let start2: u16 = if self.initiate_measurement2 { 0x40 } else { 0x0000 };
        let start3: u16 = if self.initiate_measurement3 { 0x20 } else { 0x0000 };
        let start4: u16 = if self.initiate_measurement4 { 0x10 } else { 0x0000 };
        let done1: u16 = if self.measurement1_done { 0x8 } else { 0x0000 };
        let done2: u16 = if self.measurement2_done { 0x4 } else { 0x0000 };
        let done3: u16 = if self.measurement3_done { 0x2 } else { 0x0000 };
        let done4: u16 = if self.measurement4_done { 0x1 } else { 0x0000 };
        let val: u16 = reset | rate | repeat | start1 | start2 | start3 | start4 | done1 | done2
            | done3 | done4;
        assert(val == reset + rate + repeat + start1 + start2 + start3 + start4 + done1 + done2
            + done3 + done4) by (bit_vector)
            requires
                val == reset | rate | repeat | start1 | start2 | start3 | start4 | done1 | done2
                    | done3 | done4,
                reset % 0x8000 == 0,
                rate % 0x400 == 0 && rate < 0x1000,
                repeat % 0x100 == 0 && repeat < 0x200,
                start1 % 0x80 == 0 && start1 < 0x100,
                start2 % 0x40 == 0 && start2 < 0x80,
                start3 % 0x20 == 0 && start3 < 0x40,
                start4 % 0x10 == 0 && start4 < 0x20,
                done1 % 0x8 == 0 && done1 < 0x10,
                done2 % 0x4 == 0 && done2 < 0x8,
                done3 % 0x2 == 0 && done3 < 0x4,
                done4 < 0x2,
        ;
        val
    }
}

/// Each group of bits of a packed trigger register holds what was put
/// there.
proof fn lemma_places(
    reset: u16,
    rate: u16,
    repeat: u16,
    start1: u16,
    start2: u16,
    start3: u16,
    start4: u16,
    done1: u16,
    done2: u16,
    done3: u16,
    done4: u16,
) by (bit_vector)
    requires
        reset < 2,
        rate < 4,
        repeat < 2,
        start1 < 2,
        start2 < 2,
        start3 < 2,
        start4 < 2,
        done1 < 2,
        done2 < 2,
        done3 < 2,
        done4 < 2,
    ensures
        ({
            let word = reset * 0x8000 + rate * 0x400 + repeat * 0x100 + start1 * 0x80 + start2
                * 0x40 + start3 * 0x20 + start4 * 0x10 + done1 * 0x8 + done2 * 0x4 + done3 * 0x2
                + done4;
            &&& word < 0x1_0000
            &&& (word / 0x8000) % 2 == reset
            &&& (word / 0x400) % 4 == rate
            &&& (word / 0x100) % 2 == repeat
            &&& (word / 0x80) % 2 == start1
            &&& (word / 0x40) % 2 == start2
            &&& (word / 0x20) % 2 == start3
            &&& (word / 0x10) % 2 == start4
            &&& (word / 0x8) % 2 == done1
            &&& (word / 0x4) % 2 == done2
            &&& (word / 0x2) % 2 == done3
            &&& (word / 1) % 2 == done4
        }),
{
}

/// The same over the integers, in the words of `field`.
proof fn lemma_fields_of_sum(
    word: int,
    reset: int,
    rate: int,
    repeat: int,
    start1: int,
    start2: int,
    start3: int,
    start4: int,
    done1: int,
    done2: int,
    done3: int,
    done4: int,
)
    requires
        0 <= reset < 2,
        0 <= rate < 4,
        0 <= repeat < 2,
        0 <= start1 < 2,
        0 <= start2 < 2,
        0 <= start3 < 2,
        0 <= start4 < 2,
        0 <= done1 < 2,
        0 <= done2 < 2,
        0 <= done3 < 2,
        0 <= done4 < 2,
        word == reset * 0x8000 + rate * 0x400 + repeat * 0x100 + start1 * 0x80 + start2 * 0x40
            + start3 * 0x20 + start4 * 0x10 + done1 * 0x8 + done2 * 0x4 + done3 * 0x2 + done4,
    ensures
        0 <= word < 0x1_0000,
        field(word, 0x8000, 2) == reset,
        field(word, 0x400, 4) == rate,
        field(word, 0x100, 2) == repeat,
        field(word, 0x80, 2) == start1,
        field(word, 0x40, 2) == start2,
        field(word, 0x20, 2) == start3,
        field(word, 0x10, 2) == start4,
        field(word, 0x8, 2) == done1,
        field(word, 0x4, 2) == done2,
        field(word, 0x2, 2) == done3,
        field(word, 1, 2) == done4,
{
    reveal(field);
    lemma_places(
        reset as u16,
        rate as u16,
        repeat as u16,
        start1 as u16,
        start2 as u16,
        start3 as u16,
        start4 as u16,
        done1 as u16,
        done2 as u16,
        done3 as u16,
        done4 as u16,
    );
}

/// Packing the content of the trigger register and unpacking the result
/// gives the same content back, whatever the flags and the rate.
pub proof fn lemma_trigger_round_trip(config: FDCConfiguration)
    ensures
        0 <= config.word() < 0x1_0000,
        FDCConfiguration::of_word(config.word()) == config,
{
    lemma_fields_of_sum(
        config.word(),
        flag(config.reset),
        config.rate.code(),
        flag(config.repeat),
        flag(config.initiate_measurement1),
        flag(config.initiate_measurement2),
        flag(config.initiate_measurement3),
        flag(config.initiate_measurement4),
        flag(config.measurement1_done),
        flag(config.measurement2_done),
        flag(config.measurement3_done),
        flag(config.measurement4_done),
    );
}

/// How a run of the range search ended.
#[derive(Copy, Clone, Debug, PartialEq, Eq, Structural)]
pub enum SuccessfulMeasurement {
    /// The sample lies strictly inside the 24-bit range.
    MeasurementInRange(MeasuredCapacitance),
    /// The last sample sits at the bottom of the range, and the DAC is at
    /// 0 or the search has taken all its samples.
    Underflow,
    /// The last sample sits at the top of the range, and the DAC is at its
    /// highest setting or the search has taken all its samples.
    Overflow,
}

/// What the range search does after one sample.
#[derive(Copy, Clone, Debug, PartialEq, Eq, Structural)]
pub enum RangeStep {
    /// Measure again with this setting of the calibration DAC.
    Retry { capdac: u8 },
    /// The search is over.
    Finished(SuccessfulMeasurement),
}

/// The rule of the range search, for the sample `raw` that was taken with
/// the DAC at `capdac` after `taken` earlier samples.
///
/// A sample strictly inside the range ends the search. A sample at the top
/// of the range raises the DAC by one step, which lowers the next sample;
/// a sample at the bottom lowers the DAC by one step. Where the DAC has no
/// step left in that direction the search ends without a sample. It ends
/// in the same way with its 32nd sample, so that samples which keep
/// changing sides cannot hold it up.
pub open spec fn range_decision(capdac: u8, taken: u8, raw: i32) -> RangeStep {
    if SAMPLE_MIN < raw < SAMPLE_MAX {
        RangeStep::Finished(
            SuccessfulMeasurement::MeasurementInRange(MeasuredCapacitance { value: raw, capdac }),
        )
    } else if taken + 1 >= MAX_MEASUREMENTS {
        if raw >= SAMPLE_MAX {
            RangeStep::Finished(SuccessfulMeasurement::Overflow)
        } else {
            RangeStep::Finished(SuccessfulMeasurement::Underflow)
        }
    } else if raw == SAMPLE_MAX && capdac < CAPDAC_MAX {
        RangeStep::Retry { capdac: (capdac + 1) as u8 }
    } else if raw == SAMPLE_MIN && capdac > 0 {
        RangeStep::Retry { capdac: (capdac - 1) as u8 }
    } else if capdac == 0 {
        RangeStep::Finished(SuccessfulMeasurement::Underflow)
    } else {
        RangeStep::Finished(SuccessfulMeasurement::Overflow)
    }
}

/// The outcome of the range search that has taken `taken` samples, has
/// the DAC at `capdac` and is handed `readings` one after the other, or
/// `None` where the readings are used up before the search ends.
pub open spec fn range_search_from(readings: Seq<i32>, capdac: u8, taken: u8) -> Option<
    SuccessfulMeasurement,
>
    decreases readings.len(),
{
    if readings.len() == 0 {
        None
    } else {
        match range_decision(capdac, taken, readings[0]) {
            RangeStep::Finished(outcome) => Some(outcome),
            RangeStep::Retry { capdac: next } => range_search_from(
                readings.drop_first(),
                next,
                (taken + 1) as u8,
            ),
        }
    }
}

/// The outcome of a range search that starts with the DAC at `capdac` and
/// is handed `readings` one after the other, or `None` where the readings
/// are used up before the search ends.
pub open spec fn range_search(readings: Seq<i32>, capdac: u8) -> Option<SuccessfulMeasurement> {
    range_search_from(readings, capdac, 0)
}

/// A wait or a transfer on the bus.
#[derive(Copy, Clone, Debug, PartialEq, Eq, Structural)]
pub enum Transfer {
    /// Write `data` to `register`.
    Write { register: Register, data: u16 },
    /// Let `millis` milliseconds pass.
    Settle { millis: u64 },
    /// Read `register` and hand its value to the next step.
    Read { register: Register },
}

/// How far the read-out of a measurement has come.
#[derive(Copy, Clone, Debug, PartialEq, Eq, Structural)]
pub enum ReadState {
    /// Nothing has been read.
    Start,
    /// The status register is being read.
    Status,
    /// The upper sample register is being read.
    Msb,
    /// The lower sample register is being read; `msb` is what the upper
    /// one held.
    Lsb { msb: u16 },
}

/// What the read-out of a measurement asks for next.
#[derive(Debug)]
pub enum ReadStep<E> {
    /// Read `register`, then call again in state `then` with its value.
    Read { register: Register, then: ReadState },
    /// The read-out is over.
    Finished { result: Result<i32, FDCError<E>> },
}

/// How far a measurement has come.
#[derive(Copy, Clone, Debug, PartialEq, Eq, Structural)]
pub enum MeasureState {
    /// Nothing has been done.
    Start,
    /// The set-up is being written.
    Configured,
    /// The trigger is being written.
    Triggered,
    /// The sample has been waited for and is being read out.
    Reading(ReadState),
}

/// What a measurement asks for next.
#[derive(Debug)]
pub enum MeasureStep<E> {
    /// Do `transfer`, then call again in state `then`, with the value read
    /// if the transfer was a read.
    Next { transfer: Transfer, then: MeasureState },
    /// The measurement is over.
    Finished { result: Result<i32, FDCError<E>> },
}

/// The rule of the read-out. The status register comes first. If it does
/// not show the measurement as done, the read-out fails and no sample
/// register is touched. Else the upper and then the lower sample register
/// are read and put together.
pub open spec fn read_step<E>(measurement: Measurement, state: ReadState, reply: u16) -> ReadStep<
    E,
> {
    match state {
        ReadState::Start => ReadStep::Read { register: Register::FdcConf, then: ReadState::Status },
        ReadState::Status => if FDCConfiguration::of_word(reply as int).done(measurement) {
            ReadStep::Read { register: measurement.msb_register(), then: ReadState::Msb }
        } else {
            ReadStep::Finished { result: Err(FDCError::MeasurementNotComplete) }
        },
        ReadState::Msb => ReadStep::Read {
            register: measurement.lsb_register(),
            then: ReadState::Lsb { msb: reply },
        },
        ReadState::Lsb { msb } => ReadStep::Finished {
            result: Ok(sample_of_registers(msb as int, reply as int) as i32),
        },
    }
}

/// The write that begins a measurement of `channel`: the channel is set
/// up against the calibration DAC at `capdac`, in the measurement that
/// belongs to the channel.
pub open spec fn configure_transfer(channel: Channel, capdac: u8) -> Transfer {
    Transfer::Write {
        register: Measurement::of_channel(channel).config_register(),
        data: (MeasurementConfiguration {
            channel_a: channel,
            channel_b: Channel::CAPDAC,
            offset_capacitance: capdac,
        }).word() as u16,
    }
}

/// The rule of a measurement: write the set-up, write the trigger, wait
/// for the sample, read it out.
pub open spec fn measure_step<E>(
    rate: OutputRate,
    channel: Channel,
    capdac: u8,
    state: MeasureState,
    reply: u16,
) -> MeasureStep<E> {
    let measurement = Measurement::of_channel(channel);
    match state {
        MeasureState::Start => MeasureStep::Next {
            transfer: configure_transfer(channel, capdac),
            then: MeasureState::Configured,
        },
        MeasureState::Configured => MeasureStep::Next {
            transfer: Transfer::Write {
                register: Register::FdcConf,
                data: FDCConfiguration::trigger(rate, measurement).word() as u16,
            },
            then: MeasureState::Triggered,
        },
        MeasureState::Triggered => MeasureStep::Next {
            transfer: Transfer::Settle { millis: rate.settle_millis() as u64 },
            then: MeasureState::Reading(ReadState::Start),
        },
        MeasureState::Reading(read) => match read_step::<E>(measurement, read, reply) {
            ReadStep::Read { register, then } => MeasureStep::Next {
                transfer: Transfer::Read { register },
                then: MeasureState::Reading(then),
            },
            ReadStep::Finished { result } => MeasureStep::Finished { result },
        },
    }
}

/// How far a range search has come: the setting of the calibration DAC
/// that is being tried, the number of samples taken before the one that
/// is being taken, and how far the measurement has come.
#[derive(Copy, Clone, Debug, PartialEq, Eq, Structural)]
pub struct SearchState {
    pub capdac: u8,
    pub taken: u8,
    pub measure: MeasureState,
}

/// What a range search asks for next.
#[derive(Debug)]
pub enum SearchStep<E> {
    /// Do `transfer`, then call again in state `then`, with the value read
    /// if the transfer was a read.
    Next { transfer: Transfer, then: SearchState },
    /// The search is over: with its outcome, or with the failure of one of
    /// its measurements.
    Finished { result: Result<SuccessfulMeasurement, FDCError<E>> },
}

impl SearchState {
    /// Where every range search starts: nothing done, the DAC at 0.
    pub open spec fn start() -> SearchState {
        SearchState { capdac: 0, taken: 0, measure: MeasureState::Start }
    }

    /// The state in which a range search is started.
    pub fn new() -> (r: Self)
        ensures
            r == SearchState::start(),
    {
        SearchState { capdac: 0, taken: 0, measure: MeasureState::Start }
    }
}

/// The rule of the range search on the bus. The measurement with the
/// current DAC setting is taken step by step. Its sample is judged by
/// `range_decision`: the search ends with it, or the next measurement is
/// begun at once with the DAC one step further and one more sample
/// counted. A measurement that fails ends the search with its failure.
pub open spec fn search_step<E>(
    rate: OutputRate,
    channel: Channel,
    state: SearchState,
    reply: u16,
) -> SearchStep<E> {
    match measure_step::<E>(rate, channel, state.capdac, state.measure, reply) {
        MeasureStep::Next { transfer, then } => SearchStep::Next {
            transfer,
            then: SearchState { capdac: state.capdac, taken: state.taken, measure: then },
        },
        MeasureStep::Finished { result: Err(e) } => SearchStep::Finished { result: Err(e) },
        MeasureStep::Finished { result: Ok(raw) } => match range_decision(
            state.capdac,
            state.taken,
            raw,
        ) {
            RangeStep::Finished(outcome) => SearchStep::Finished { result: Ok(outcome) },
            RangeStep::Retry { capdac } => SearchStep::Next {
                transfer: configure_transfer(channel, capdac),
                then: SearchState {
                    capdac,
                    taken: (state.taken + 1) as u8,
                    measure: MeasureState::Configured,
                },
            },
        },
    }
}

/// One device on the bus.
pub struct FDC1004 {
    address: u8,
    output_rate: OutputRate,
}

impl FDC1004 {
    /// The bus address of the device.
    pub closed spec fn spec_address(&self) -> u8 {
        self.address
    }

    /// The rate at which the device is asked to sample.
    pub closed spec fn spec_output_rate(&self) -> OutputRate {
        self.output_rate
    }

    pub fn new(address: u8, output_rate: OutputRate) -> (r: Self)
        ensures
            r.spec_address() == address,
            r.spec_output_rate() == output_rate,
    {
        FDC1004 { address, output_rate }
    }

    /// The bus address to use for every transfer with this device.
    #[verifier::when_used_as_spec(spec_address)]
    pub fn address(&self) -> (a: u8)
        ensures
            a == self.spec_address(),
    {
        self.address
    }

    /// The rate at which the device is asked to sample.
    #[verifier::when_used_as_spec(spec_output_rate)]
    pub fn output_rate(&self) -> (r: OutputRate)
        ensures
            r == self.spec_output_rate(),
    {
        self.output_rate
    }

    /// The measurement that is used for `channel`.
    pub fn measurement_for(channel: Channel) -> (m: Measurement)
        ensures
            m == Measurement::of_channel(channel),
    {
        match channel {
            Channel::CIN1 => Measurement::Measurement1,
            Channel::CIN2 => Measurement::Measurement2,
            Channel::CIN3 => Measurement::Measurement3,
            Channel::CIN4 => Measurement::Measurement4,
            _ => Measurement::Measurement1,
        }
    }

    /// The decision of the range search after the sample `raw` was taken
    /// with the calibration DAC at `capdac`, as the sample after `taken`
    /// earlier ones.
    pub fn range_step(capdac: u8, taken: u8, raw: i32) -> (r: RangeStep)
        requires
            capdac <= CAPDAC_MAX,
            fits_i24(raw as int),
        ensures
            r == range_decision(capdac, taken, raw),
            (r matches RangeStep::Retry { capdac: next } ==> next <= CAPDAC_MAX && taken + 1
                < MAX_MEASUREMENTS),
            (r matches RangeStep::Finished(SuccessfulMeasurement::MeasurementInRange(m))
                ==> m.wf()),
    {
        let top: i32 = i24_max_value();
        let bottom: i32 = i24_min_value();
        if raw < top && raw > bottom {
            return RangeStep::Finished(
                SuccessfulMeasurement::MeasurementInRange(MeasuredCapacitance::new(raw, capdac)),
            );
        }
        if taken >= MAX_MEASUREMENTS - 1 {
            return if raw == top {
                RangeStep::Finished(SuccessfulMeasurement::Overflow)
            } else {
                RangeStep::Finished(SuccessfulMeasurement::Underflow)
            };
        }
        if raw == top && capdac < CAPDAC_MAX {
            RangeStep::Retry { capdac: capdac + 1 }
        } else if raw == bottom && capdac > 0 {
            RangeStep::Retry { capdac: capdac - 1 }
        } else {
            match capdac {
                0 => RangeStep::Finished(SuccessfulMeasurement::Underflow),
                _ => RangeStep::Finished(SuccessfulMeasurement::Overflow),
            }
        }
    }

    /// One step of the range search on `channel`. The first call is made
    /// in the state `SearchState::new()`; each later call in the state
    /// that the step before named, with the value that was read if that
    /// step was a read. The search takes 32 samples at most.
    pub fn read_capacitance<E>(&self, channel: Channel, state: SearchState, reply: u16) -> (r:
        SearchStep<E>)
        requires
            state.capdac <= CAPDAC_MAX,
        ensures
            r == search_step::<E>(self.spec_output_rate(), channel, state, reply),
            (r matches SearchStep::Next { then, .. } ==> then.capdac <= CAPDAC_MAX
                && state.taken <= then.taken <= state.taken + 1 && (then.taken < MAX_MEASUREMENTS
                || then.taken == state.taken)),
    {
        match self.measure_channel::<E>(channel, state.capdac, state.measure, reply) {
            MeasureStep::Next { transfer, then } => SearchStep::Next {
                transfer,
                then: SearchState { capdac: state.capdac, taken: state.taken, measure: then },
            },
            MeasureStep::Finished { result: Err(e) } => SearchStep::Finished { result: Err(e) },
            MeasureStep::Finished { result: Ok(raw) } => {
                proof {
                    lemma_measurement_ends_with_sample::<E>(
                        self.spec_output_rate(),
                        channel,
                        state.capdac,
                        state.measure,
                        reply,
                    );
                }
                match FDC1004::range_step(state.capdac, state.taken, raw) {
                    RangeStep::Finished(outcome) => SearchStep::Finished { result: Ok(outcome) },
                    RangeStep::Retry { capdac } => {
                        let (register, data) = self.configure_single_measurement(
                            channel,
                            FDC1004::measurement_for(channel),
                            capdac,
                        );
                        SearchStep::Next {
                            transfer: Transfer::Write { register, data },
                            then: SearchState {
                                capdac,
                                taken: state.taken + 1,
                                measure: MeasureState::Configured,
                            },
                        }
                    },
                }
            },
        }
    }

    /// One step of a measurement of `channel` with the calibration DAC at
    /// `capdac`. The first call is made in `MeasureState::Start`; each
    /// later call in the state that the step before named, with the value
    /// that was read if that step was a read.
    pub fn measure_channel<E>(
        &self,
        channel: Channel,
        capdac: u8,
        state: MeasureState,
        reply: u16,
    ) -> (r: MeasureStep<E>)
        requires
            capdac <= CAPDAC_MAX,
        ensures
            r == measure_step::<E>(self.spec_output_rate(), channel, capdac, state, reply),
    {
        let measurement = FDC1004::measurement_for(channel);
        match state {
            MeasureState::Start => {
                let (register, data) = self.configure_single_measurement(
                    channel,
                    measurement,
                    capdac,
                );
                MeasureStep::Next {
                    transfer: Transfer::Write { register, data },
                    then: MeasureState::Configured,
                }
            },
            MeasureState::Configured => {
                let (register, data) = self.trigger_single_measurement(measurement);
                MeasureStep::Next {
                    transfer: Transfer::Write { register, data },
                    then: MeasureState::Triggered,
                }
            },
            MeasureState::Triggered => MeasureStep::Next {
                transfer: Transfer::Settle { millis: self.sample_delay() },
                then: MeasureState::Reading(ReadState::Start),
            },
            MeasureState::Reading(read) => match FDC1004::read_measurement(
                measurement,
                read,
                reply,
            ) {
                ReadStep::Read { register, then } => MeasureStep::Next {
                    transfer: Transfer::Read { register },
                    then: MeasureState::Reading(then),
                },
                ReadStep::Finished { result } => MeasureStep::Finished { result },
            },
        }
    }

    /// The register write that sets `measurement` up to measure `channel`
    /// against the calibration DAC at `capdac`.
    pub fn configure_single_measurement(
        &self,
        channel: Channel,
        measurement: Measurement,
        capdac: u8,
    ) -> (r: (Register, u16))
        requires
            capdac <= CAPDAC_MAX,
        ensures
            r.0 == measurement.config_register(),
            r.1 == (MeasurementConfiguration {
                channel_a: channel,
                channel_b: Channel::CAPDAC,
                offset_capacitance: capdac,
            }).word(),
    {
        let config = MeasurementConfiguration::new(channel, Channel::CAPDAC, capdac);
        let reg = match measurement {
            Measurement::Measurement1 => Register::Measurement1Config,
            Measurement::Measurement2 => Register::Measurement2Config,
            Measurement::Measurement3 => Register::Measurement3Config,
            Measurement::Measurement4 => Register::Measurement4Config,
        };
        (reg, config.to_u16())
    }

    /// The register write that starts `measurement` once.
    pub fn trigger_single_measurement(&self, measurement: Measurement) -> (r: (Register, u16))
        ensures
            r.0 == Register::FdcConf,
            r.1 == FDCConfiguration::trigger(self.spec_output_rate(), measurement).word(),
    {
        let config = FDCConfiguration::default().rate(self.output_rate);
        let config = match measurement {
            Measurement::Measurement1 => config.initiate_measurement1(true),
            Measurement::Measurement2 => config.initiate_measurement2(true),
            Measurement::Measurement3 => config.initiate_measurement3(true),
            Measurement::Measurement4 => config.initiate_measurement4(true),
        };
        (Register::FdcConf, config.to_u16())
    }

    /// One step of the read-out of `measurement`. The first call is made
    /// in `ReadState::Start`; each later call in the state that the step
    /// before named, with the value that was read.
    pub fn read_measurement<E>(measurement: Measurement, state: ReadState, reply: u16) -> (r:
        ReadStep<E>)
        ensures
            r == read_step::<E>(measurement, state, reply),
    {
        match state {
            ReadState::Start => ReadStep::Read {
                register: Register::FdcConf,
                then: ReadState::Status,
            },
            ReadState::Status => {
                let config = FDCConfiguration::from_u16(reply);
                let ready = match measurement {
                    Measurement::Measurement1 => config.measurement1_done,
                    Measurement::Measurement2 => config.measurement2_done,
                    Measurement::Measurement3 => config.measurement3_done,
                    Measurement::Measurement4 => config.measurement4_done,
                };
                if !ready {
                    return ReadStep::Finished { result: Err(FDCError::MeasurementNotComplete) };
                }
                ReadStep::Read {
                    register: match measurement {
                        Measurement::Measurement1 => Register::Measurement1MSB,
                        Measurement::Measurement2 => Register::Measurement2MSB,
                        Measurement::Measurement3 => Register::Measurement3MSB,
                        Measurement::Measurement4 => Register::Measurement4MSB,
                    },
                    then: ReadState::Msb,
                }
            },
            ReadState::Msb => ReadStep::Read {
                register: match measurement {
                    Measurement::Measurement1 => Register::Measurement1LSB,
                    Measurement::Measurement2 => Register::Measurement2LSB,
                    Measurement::Measurement3 => Register::Measurement3LSB,
                    Measurement::Measurement4 => Register::Measurement4LSB,
                },
                then: ReadState::Lsb { msb: reply },
            },
            ReadState::Lsb { msb } => ReadStep::Finished {
                result: Ok(sample_from_registers(msb, reply)),
            },
        }
    }

    /// The three bytes that write `data` to the register `reg`.
    pub fn write_u16(reg: Register, data: u16) -> (frame: [u8; 3])
        ensures
            frame@ == write_frame_of(reg.address() as u8, data as int),
    {
        write_frame(reg.to_u8(), data)
    }

    /// The value of a register, from the two bytes that reading it gave.
    pub fn read_u16(response: [u8; 2]) -> (r: u16)
        ensures
            r == word_of_bytes(response@),
    {
        read_word(response)
    }

    /// The time that one sample takes at the device's rate, in
    /// milliseconds.
    pub fn sample_delay(&self) -> (r: u64)
        ensures
            r == self.spec_output_rate().settle_millis(),
    {
        match self.output_rate {
            OutputRate::SPS100 => 11,
            OutputRate::SPS200 => 6,
            OutputRate::SPS400 => 3,
        }
    }
}

/// Every step of the range search goes the way the sample points: a
/// retry follows a sample at the top of the range with the DAC one step
/// higher, or a sample at the bottom with the DAC one step lower, and the
/// DAC stays within its 32 settings. No retry follows the 32nd sample. The
/// search gives up at the top with the DAC at its highest setting or with
/// its 32nd sample, and at the bottom with the DAC at 0 or with its 32nd
/// sample.
pub proof fn lemma_range_step_follows_saturation(capdac: u8, taken: u8, raw: i32)
    requires
        capdac <= CAPDAC_MAX,
        fits_i24(raw as int),
    ensures
        (match range_decision(capdac, taken, raw) {
            RangeStep::Retry { capdac: next } => {
                &&& taken + 1 < MAX_MEASUREMENTS
                &&& {
                    ||| raw == SAMPLE_MAX && next == capdac + 1 && next <= CAPDAC_MAX
                    ||| raw == SAMPLE_MIN && next == capdac - 1
                }
            },
            RangeStep::Finished(SuccessfulMeasurement::MeasurementInRange(m)) => {
                &&& SAMPLE_MIN < raw < SAMPLE_MAX
                &&& m.value == raw
                &&& m.capdac == capdac
            },
            RangeStep::Finished(SuccessfulMeasurement::Underflow) => raw == SAMPLE_MIN && (capdac
                == 0 || taken + 1 >= MAX_MEASUREMENTS),
            RangeStep::Finished(SuccessfulMeasurement::Overflow) => raw == SAMPLE_MAX && (capdac
                == CAPDAC_MAX || taken + 1 >= MAX_MEASUREMENTS),
        }),
{
}

/// A search that has taken `taken` samples ends within the samples that
/// are left of its 32, whatever they are and in whatever order they come.
pub proof fn lemma_search_ends_from(readings: Seq<i32>, capdac: u8, taken: u8)
    requires
        taken < MAX_MEASUREMENTS,
        readings.len() >= MAX_MEASUREMENTS - taken,
    ensures
        range_search_from(readings.take(MAX_MEASUREMENTS - taken), capdac, taken) is Some,
    decreases MAX_MEASUREMENTS - taken,
{
    let window = readings.take(MAX_MEASUREMENTS - taken);
    assert(window[0] == readings[0]);
    match range_decision(capdac, taken, window[0]) {
        RangeStep::Finished(_) => {},
        RangeStep::Retry { capdac: next } => {
            let rest = readings.drop_first();
            assert(window.drop_first() =~= rest.take(MAX_MEASUREMENTS - (taken + 1)));
            lemma_search_ends_from(rest, next, (taken + 1) as u8);
        },
    }
}

/// The range search ends within 32 samples, whatever the samples are and
/// in whatever order they come.
pub proof fn lemma_search_terminates(readings: Seq<i32>, capdac: u8)
    requires
        readings.len() >= 32,
    ensures
        range_search(readings.take(32), capdac) is Some,
{
    lemma_search_ends_from(readings, capdac, 0);
}

/// Sustained saturation at the top ends as an overflow: a search that
/// only sees samples at the top, and is handed as many as it has left to
/// take, reports `Overflow`.
pub proof fn lemma_sustained_top_overflows(readings: Seq<i32>, capdac: u8, taken: u8)
    requires
        capdac <= CAPDAC_MAX,
        taken < MAX_MEASUREMENTS,
        readings.len() >= MAX_MEASUREMENTS - taken,
        forall|i: int| 0 <= i < readings.len() ==> #[trigger] readings[i] == SAMPLE_MAX,
    ensures
        range_search_from(readings, capdac, taken) == Some(SuccessfulMeasurement::Overflow),
    decreases readings.len(),
{
    match range_decision(capdac, taken, readings[0]) {
        RangeStep::Finished(_) => {},
        RangeStep::Retry { capdac: next } => {
            let rest = readings.drop_first();
            assert forall|i: int| 0 <= i < rest.len() implies #[trigger] rest[i] == SAMPLE_MAX by {
                assert(rest[i] == readings[i + 1]);
            }
            lemma_sustained_top_overflows(rest, next, (taken + 1) as u8);
        },
    }
}

/// What a measurement does from `state` on when its steps are handed
/// `replies` one after the other: the transfers it asks for, in order, and
/// its result, or `None` where the replies are used up before it is over.
pub open spec fn measure_run<E>(
    rate: OutputRate,
    channel: Channel,
    capdac: u8,
    state: MeasureState,
    replies: Seq<u16>,
) -> (Seq<Transfer>, Option<Result<i32, FDCError<E>>>)
    decreases replies.len(),
{
    if replies.len() == 0 {
        (Seq::empty(), None)
    } else {
        match measure_step::<E>(rate, channel, capdac, state, replies[0]) {
            MeasureStep::Finished { result } => (Seq::empty(), Some(result)),
            MeasureStep::Next { transfer, then } => {
                let rest = measure_run::<E>(rate, channel, capdac, then, replies.drop_first());
                (seq![transfer] + rest.0, rest.1)
            },
        }
    }
}

/// A whole measurement, whatever the device answers. It writes the set-up
/// of the measurement, writes the trigger, waits for the time a sample
/// takes and reads the status register. If the measurement shows as done
/// there, the two sample registers are read and the sample is the result.
/// If not, nothing more is read and the measurement fails as not complete.
///
/// `status`, `msb` and `lsb` are what the three reads return; `other` is
/// handed to the steps that follow no read.
pub proof fn lemma_measurement_transcript<E>(
    rate: OutputRate,
    channel: Channel,
    capdac: u8,
    other: u16,
    status: u16,
    msb: u16,
    lsb: u16,
)
    ensures
        ({
            let measurement = Measurement::of_channel(channel);
            let replies = seq![other, other, other, other, status, msb, lsb];
            let run = measure_run::<E>(rate, channel, capdac, MeasureState::Start, replies);
            let opening = seq![
                configure_transfer(channel, capdac),
                Transfer::Write {
                    register: Register::FdcConf,
                    data: FDCConfiguration::trigger(rate, measurement).word() as u16,
                },
                Transfer::Settle { millis: rate.settle_millis() as u64 },
                Transfer::Read { register: Register::FdcConf },
            ];
            if FDCConfiguration::of_word(status as int).done(measurement) {
                &&& run.0 == opening + seq![
                    Transfer::Read { register: measurement.msb_register() },
                    Transfer::Read { register: measurement.lsb_register() },
                ]
                &&& run.1 == Some(
                    Ok::<i32, FDCError<E>>(sample_of_registers(msb as int, lsb as int) as i32),
                )
            } else {
                &&& run.0 == opening
                &&& run.1 == Some(Err::<i32, FDCError<E>>(FDCError::MeasurementNotComplete))
            }
        }),
{
    let r0 = seq![other, other, other, other, status, msb, lsb];
    let r1 = r0.drop_first();
    let r2 = r1.drop_first();
    let r3 = r2.drop_first();
    let r4 = r3.drop_first();
    let r5 = r4.drop_first();
    let r6 = r5.drop_first();
    assert(r4[0] == status && r5[0] == msb && r6[0] == lsb);
    assert(r6.drop_first().len() == 0);
    let measurement = Measurement::of_channel(channel);
    let run6 = measure_run::<E>(
        rate,
        channel,
        capdac,
        MeasureState::Reading(ReadState::Lsb { msb }),
        r6,
    );
    assert(run6.0 =~= Seq::empty());
    let run5 = measure_run::<E>(rate, channel, capdac, MeasureState::Reading(ReadState::Msb), r5);
    assert(run5.0 =~= seq![Transfer::Read { register: measurement.lsb_register() }]);
    let run4 = measure_run::<E>(
        rate,
        channel,
        capdac,
        MeasureState::Reading(ReadState::Status),
        r4,
    );
    let run3 = measure_run::<E>(
        rate,
        channel,
        capdac,
        MeasureState::Reading(ReadState::Start),
        r3,
    );
    let run2 = measure_run::<E>(rate, channel, capdac, MeasureState::Triggered, r2);
    let run1 = measure_run::<E>(rate, channel, capdac, MeasureState::Configured, r1);
    let run0 = measure_run::<E>(rate, channel, capdac, MeasureState::Start, r0);
    if FDCConfiguration::of_word(status as int).done(measurement) {
        assert(run4.0 =~= seq![
            Transfer::Read { register: measurement.msb_register() },
            Transfer::Read { register: measurement.lsb_register() },
        ]);
    } else {
        assert(run4.0 =~= Seq::empty());
    }
    assert(run3.0 =~= seq![Transfer::Read { register: Register::FdcConf }] + run4.0);
    assert(run2.0 =~= seq![Transfer::Settle { millis: rate.settle_millis() as u64 }] + run3.0);
    assert(run1.0 =~= seq![
        Transfer::Write {
            register: Register::FdcConf,
            data: FDCConfiguration::trigger(rate, measurement).word() as u16,
        },
    ] + run2.0);
    assert(run0.0 =~= seq![configure_transfer(channel, capdac)] + run1.0);
}

/// Whatever a measurement ends with as its sample lies in the 24-bit
/// range.
pub proof fn lemma_measurement_ends_with_sample<E>(
    rate: OutputRate,
    channel: Channel,
    capdac: u8,
    state: MeasureState,
    reply: u16,
)
    ensures
        (measure_step::<E>(rate, channel, capdac, state, reply) matches MeasureStep::Finished {
            result: Ok(raw),
        } ==> fits_i24(raw as int)),
{
}

} // verus!
