//! A four-input, 16-bit voltage converter with a programmable gain stage.
//!
//! The device is set up through one 16-bit configuration register. Each
//! setting occupies a fixed group of bits in it:
//!
//! | bits  | setting                                   |
//! |-------|-------------------------------------------|
//! | 15    | start (when written), idle (when read)    |
//! | 14-12 | input multiplexer                         |
//! | 11-9  | gain                                      |
//! | 8     | operating mode                            |
//! | 7-5   | data rate                                 |
//! | 4     | comparator mode                           |
//! | 3     | comparator polarity                       |
//! | 2     | comparator latching                       |
//! | 1-0   | comparator queue                          |
//!
//! The codes and places below are the model that every contract in this
//! file is stated over: a setting is a small number (`code`), the register
//! is the sum of the codes, each multiplied by the weight of its place.

use super::{
    field, from_signed, read_word, signed_of_word, to_signed, word_of_bytes, word_of_signed, write_frame,
    write_frame_of,
};
use vstd::prelude::*;

verus! {

/// Address of the register that holds the last conversion.
pub const CONVERSION_REGISTER: u8 = 0b00;

/// Address of the configuration register.
pub const CONFIG_REGISTER: u8 = 0b01;

/// Address of the comparator's low threshold.
pub const LO_THRESH_REGISTER: u8 = 0b10;

/// Address of the comparator's high threshold.
pub const HI_THRESH_REGISTER: u8 = 0b11;

#[derive(Debug, Clone, Copy, PartialEq, Eq, Structural)]
pub enum ADSError {
    WrongAddress,
    ModeSetToSingle,
}

/// Bit 15 as it is written: a request to start one conversion.
#[derive(Debug, Clone, Copy, PartialEq, Eq, Structural)]
pub enum OSW {
    StartConversion,
    Idle,
}

/// Bit 15 as it is read: whether a conversion is running.
#[derive(Debug, Clone, Copy, PartialEq, Eq, Structural)]
pub enum OSR {
    PerformingConversion,
    DeviceIdle,
}

impl OSW {
    pub open spec fn code(self) -> int {
        match self {
            OSW::StartConversion => 1,
            OSW::Idle => 0,
        }
    }

    pub fn bits(&self) -> (r: u16)
        ensures
            r == self.code() * 0x8000,
    {
        match self {
            OSW::StartConversion => 0x8000,
            OSW::Idle => 0,
        }
    }
}

impl Default for OSW {
    fn default() -> (r: Self)
        ensures
            r == OSW::Idle,
    {
        OSW::Idle
    }
}

impl OSR {
    pub open spec fn of_code(code: int) -> OSR {
        if code == 0 {
            OSR::PerformingConversion
        } else {
            OSR::DeviceIdle
        }
    }

    pub fn from_bits(bits: u16) -> (r: Self)
        ensures
            r == OSR::of_code(field(bits as int, 0x8000, 2)),
    {
        let code: u16 = (bits >> 15) & 0b01;
        assert(code == field(bits as int, 0x8000, 2)) by {
            reveal(field);
            assert(code == (bits / 0x8000) % 2) by (bit_vector)
                requires
                    code == (bits >> 15) & 0b01,
            ;
        }
        match code {
            0 => OSR::PerformingConversion,
            _ => OSR::DeviceIdle,
        }
    }
}

impl Default for OSR {
    fn default() -> (r: Self)
        ensures
            r == OSR::DeviceIdle,
    {
        OSR::DeviceIdle
    }
}

/// Which pair of inputs the converter measures between.
#[derive(Debug, Clone, Copy, PartialEq, Eq, Structural)]
pub enum InputMultiplexer {
    AIN0AIN1,
    AIN0AIN3,
    AIN1AIN3,
    AIN2AIN3,
    AIN0GND,
    AIN1GND,
    AIN2GND,
    AIN3GND,
}

impl InputMultiplexer {
    pub open spec fn code(self) -> int {
        match self {
            InputMultiplexer::AIN0AIN1 => 0,
            InputMultiplexer::AIN0AIN3 => 1,
            InputMultiplexer::AIN1AIN3 => 2,
            InputMultiplexer::AIN2AIN3 => 3,
            InputMultiplexer::AIN0GND => 4,
            InputMultiplexer::AIN1GND => 5,
            InputMultiplexer::AIN2GND => 6,
            InputMultiplexer::AIN3GND => 7,
        }
    }

    pub open spec fn of_code(code: int) -> InputMultiplexer {
        if code == 0 {
            InputMultiplexer::AIN0AIN1
        } else if code == 1 {
            InputMultiplexer::AIN0AIN3
        } else if code == 2 {
            InputMultiplexer::AIN1AIN3
        } else if code == 3 {
            InputMultiplexer::AIN2AIN3
        } else if code == 4 {
            InputMultiplexer::AIN0GND
        } else if code == 5 {
            InputMultiplexer::AIN1GND
        } else if code == 6 {
            InputMultiplexer::AIN2GND
        } else {
            InputMultiplexer::AIN3GND
        }
    }

    pub fn bits(&self) -> (r: u16)
        ensures
            r == self.code() * 0x1000,
    {
        match self {
            InputMultiplexer::AIN0AIN1 => 0x0000,
            InputMultiplexer::AIN0AIN3 => 0x1000,
            InputMultiplexer::AIN1AIN3 => 0x2000,
            InputMultiplexer::AIN2AIN3 => 0x3000,
            InputMultiplexer::AIN0GND => 0x4000,
            InputMultiplexer::AIN1GND => 0x5000,
            InputMultiplexer::AIN2GND => 0x6000,
            InputMultiplexer::AIN3GND => 0x7000,
        }
    }

    pub fn from_bits(bits: u16) -> (r: Self)
        ensures
            r == InputMultiplexer::of_code(field(bits as int, 0x1000, 8)),
    {
        let code: u16 = (bits >> 12) & 0b111;
        assert(code == field(bits as int, 0x1000, 8)) by {
            reveal(field);
            assert(code == (bits / 0x1000) % 8) by (bit_vector)
                requires
                    code == (bits >> 12) & 0b111,
            ;
        }
        match code {
            0b000 => InputMultiplexer::AIN0AIN1,
            0b001 => InputMultiplexer::AIN0AIN3,
            0b010 => InputMultiplexer::AIN1AIN3,
            0b011 => InputMultiplexer::AIN2AIN3,
            0b100 => InputMultiplexer::AIN0GND,
            0b101 => InputMultiplexer::AIN1GND,
            0b110 => InputMultiplexer::AIN2GND,
            _ => InputMultiplexer::AIN3GND,
        }
    }
}

impl Default for InputMultiplexer {
    fn default() -> (r: Self)
        ensures
            r == InputMultiplexer::AIN0AIN1,
    {
        InputMultiplexer::AIN0AIN1
    }
}

/// The input span that the converter maps onto its whole output range,
/// named by its positive end in volts.
#[derive(Debug, Clone, Copy, PartialEq, Eq, Structural)]
pub enum ProgramableGainAmplifier {
    V6_144,
    V4_096,
    V2_048,
    V1_024,
    V0_512,
    V0_256,
}

impl ProgramableGainAmplifier {
    pub open spec fn code(self) -> int {
        match self {
            ProgramableGainAmplifier::V6_144 => 0,
            ProgramableGainAmplifier::V4_096 => 1,
            ProgramableGainAmplifier::V2_048 => 2,
            ProgramableGainAmplifier::V1_024 => 3,
            ProgramableGainAmplifier::V0_512 => 4,
            ProgramableGainAmplifier::V0_256 => 5,
        }
    }

    /// The two codes above 5 select the narrowest span as well.
    pub open spec fn of_code(code: int) -> ProgramableGainAmplifier {
        if code == 0 {
            ProgramableGainAmplifier::V6_144
        } else if code == 1 {
            ProgramableGainAmplifier::V4_096
        } else if code == 2 {
            ProgramableGainAmplifier::V2_048
        } else if code == 3 {
            ProgramableGainAmplifier::V1_024
        } else if code == 4 {
            ProgramableGainAmplifier::V0_512
        } else {
            ProgramableGainAmplifier::V0_256
        }
    }

    /// The positive end of the span, in microvolts.
    pub open spec fn full_scale_microvolts(self) -> int {
        match self {
            ProgramableGainAmplifier::V6_144 => 6_144_000,
            ProgramableGainAmplifier::V4_096 => 4_096_000,
            ProgramableGainAmplifier::V2_048 => 2_048_000,
            ProgramableGainAmplifier::V1_024 => 1_024_000,
            ProgramableGainAmplifier::V0_512 => 512_000,
            ProgramableGainAmplifier::V0_256 => 256_000,
        }
    }

    pub fn bits(&self) -> (r: u16)
        ensures
            r == self.code() * 0x200,
    {
        match self {
            ProgramableGainAmplifier::V6_144 => 0x0000,
            ProgramableGainAmplifier::V4_096 => 0x0200,
            ProgramableGainAmplifier::V2_048 => 0x0400,
            ProgramableGainAmplifier::V1_024 => 0x0600,
            ProgramableGainAmplifier::V0_512 => 0x0800,
            ProgramableGainAmplifier::V0_256 => 0x0A00,
        }
    }

    pub fn from_bits(bits: u16) -> (r: Self)
        ensures
            r == ProgramableGainAmplifier::of_code(field(bits as int, 0x200, 8)),
    {
        let code: u16 = (bits >> 9) & 0b111;
        assert(code == field(bits as int, 0x200, 8)) by {
            reveal(field);
            assert(code == (bits / 0x200) % 8) by (bit_vector)
                requires
                    code == (bits >> 9) & 0b111,
            ;
        }
        match code {
            0b000 => ProgramableGainAmplifier::V6_144,
            0b001 => ProgramableGainAmplifier::V4_096,
            0b010 => ProgramableGainAmplifier::V2_048,
            0b011 => ProgramableGainAmplifier::V1_024,
            0b100 => ProgramableGainAmplifier::V0_512,
            _ => ProgramableGainAmplifier::V0_256,
        }
    }

    /// The positive end of the span, in microvolts.
    pub fn full_scale(&self) -> (r: u32)
        ensures
            r == self.full_scale_microvolts(),
    {
        match self {
            ProgramableGainAmplifier::V6_144 => 6_144_000,
            ProgramableGainAmplifier::V4_096 => 4_096_000,
            ProgramableGainAmplifier::V2_048 => 2_048_000,
            ProgramableGainAmplifier::V1_024 => 1_024_000,
            ProgramableGainAmplifier::V0_512 => 512_000,
            ProgramableGainAmplifier::V0_256 => 256_000,
        }
    }
}

impl Default for ProgramableGainAmplifier {
    fn default() -> (r: Self)
        ensures
            r == ProgramableGainAmplifier::V2_048,
    {
        ProgramableGainAmplifier::V2_048
    }
}

/// Whether the device converts all the time or once per request.
#[derive(Debug, Clone, Copy, PartialEq, Eq, Structural)]
pub enum Mode {
    Continuous,
    Signle,
}

impl Mode {
    pub open spec fn code(self) -> int {
        match self {
            Mode::Continuous => 0,
            Mode::Signle => 1,
        }
    }

    pub open spec fn of_code(code: int) -> Mode {
        if code == 1 {
            Mode::Signle
        } else {
            Mode::Continuous
        }
    }

    pub fn bits(&self) -> (r: u16)
        ensures
            r == self.code() * 0x100,
    {
        match self {
            Mode::Continuous => 0,
            Mode::Signle => 0x100,
        }
    }

    pub fn from_bits(bits: u16) -> (r: Self)
        ensures
            r == Mode::of_code(field(bits as int, 0x100, 2)),
    {
        let code: u16 = (bits >> 8) & 0b01;
        assert(code == field(bits as int, 0x100, 2)) by {
            reveal(field);
            assert(code == (bits / 0x100) % 2) by (bit_vector)
                requires
                    code == (bits >> 8) & 0b01,
            ;
        }
        match code {
            1 => Mode::Signle,
            _ => Mode::Continuous,
        }
    }
}

impl Default for Mode {
    fn default() -> (r: Self)
        ensures
            r == Mode::Signle,
    {
        Mode::Signle
    }
}

/// Conversions per second.
#[derive(Debug, Clone, Copy, PartialEq, Eq, Structural)]
pub enum DataRate {
    SPS8,
    SPS16,
    SPS32,
    SPS64,
    SPS128,
    SPS250,
    SPS475,
    SPS860,
}

impl DataRate {
    pub open spec fn code(self) -> int {
        match self {
            DataRate::SPS8 => 0,
            DataRate::SPS16 => 1,
            DataRate::SPS32 => 2,
            DataRate::SPS64 => 3,
            DataRate::SPS128 => 4,
            DataRate::SPS250 => 5,
            DataRate::SPS475 => 6,
            DataRate::SPS860 => 7,
        }
    }

    pub open spec fn of_code(code: int) -> DataRate {
        if code == 0 {
            DataRate::SPS8
        } else if code == 1 {
            DataRate::SPS16
        } else if code == 2 {
            DataRate::SPS32
        } else if code == 3 {
            DataRate::SPS64
        } else if code == 4 {
            DataRate::SPS128
        } else if code == 5 {
            DataRate::SPS250
        } else if code == 6 {
            DataRate::SPS475
        } else {
            DataRate::SPS860
        }
    }

    pub fn bits(&self) -> (r: u16)
        ensures
            r == self.code() * 0x20,
    {
        match self {
            DataRate::SPS8 => 0x00,
            DataRate::SPS16 => 0x20,
            DataRate::SPS32 => 0x40,
            DataRate::SPS64 => 0x60,
            DataRate::SPS128 => 0x80,
            DataRate::SPS250 => 0xA0,
            DataRate::SPS475 => 0xC0,
            DataRate::SPS860 => 0xE0,
        }
    }

    pub fn from_bits(bits: u16) -> (r: Self)
        ensures
            r == DataRate::of_code(field(bits as int, 0x20, 8)),
    {
        let code: u16 = (bits >> 5) & 0b111;
        assert(code == field(bits as int, 0x20, 8)) by {
            reveal(field);
            assert(code == (bits / 0x20) % 8) by (bit_vector)
                requires
                    code == (bits >> 5) & 0b111,
            ;
        }
        match code {
            0b000 => DataRate::SPS8,
            0b001 => DataRate::SPS16,
            0b010 => DataRate::SPS32,
            0b011 => DataRate::SPS64,
            0b100 => DataRate::SPS128,
            0b101 => DataRate::SPS250,
            0b110 => DataRate::SPS475,
            _ => DataRate::SPS860,
        }
    }
}

impl Default for DataRate {
    fn default() -> (r: Self)
        ensures
            r == DataRate::SPS128,
    {
        DataRate::SPS128
    }
}

/// Whether the comparator watches one threshold or a window of two.
#[derive(Debug, Clone, Copy, PartialEq, Eq, Structural)]
pub enum ComparatorMode {
    Traditional,
    Window,
}

impl ComparatorMode {
    pub open spec fn code(self) -> int {
        match self {
            ComparatorMode::Traditional => 0,
            ComparatorMode::Window => 1,
        }
    }

    pub open spec fn of_code(code: int) -> ComparatorMode {
        if code == 1 {
            ComparatorMode::Window
        } else {
            ComparatorMode::Traditional
        }
    }

    pub fn bits(&self) -> (r: u16)
        ensures
            r == self.code() * 0x10,
    {
        match self {
            ComparatorMode::Traditional => 0,
            ComparatorMode::Window => 0x10,
        }
    }

    pub fn from_bits(bits: u16) -> (r: Self)
        ensures
            r == ComparatorMode::of_code(field(bits as int, 0x10, 2)),
    {
        let code: u16 = (bits >> 4) & 0b01;
        assert(code == field(bits as int, 0x10, 2)) by {
            reveal(field);
            assert(code == (bits / 0x10) % 2) by (bit_vector)
                requires
                    code == (bits >> 4) & 0b01,
            ;
        }
        match code {
            1 => ComparatorMode::Window,
            _ => ComparatorMode::Traditional,
        }
    }
}

impl Default for ComparatorMode {
    fn default() -> (r: Self)
        ensures
            r == ComparatorMode::Traditional,
    {
        ComparatorMode::Traditional
    }
}

/// The level of the alert pin while the comparator is active.
#[derive(Debug, Clone, Copy, PartialEq, Eq, Structural)]
pub enum ComparatorPolarity {
    ActiveLow,
    ActiveHigh,
}

impl ComparatorPolarity {
    pub open spec fn code(self) -> int {
        match self {
            ComparatorPolarity::ActiveLow => 0,
            ComparatorPolarity::ActiveHigh => 1,
        }
    }

    pub open spec fn of_code(code: int) -> ComparatorPolarity {
        if code == 1 {
            ComparatorPolarity::ActiveHigh
        } else {
            ComparatorPolarity::ActiveLow
        }
    }

    pub fn bits(&self) -> (r: u16)
        ensures
            r == self.code() * 0x8,
    {
        match self {
            ComparatorPolarity::ActiveLow => 0,
            ComparatorPolarity::ActiveHigh => 0x8,
        }
    }

    pub fn from_bits(bits: u16) -> (r: Self)
        ensures
            r == ComparatorPolarity::of_code(field(bits as int, 0x8, 2)),
    {
        let code: u16 = (bits >> 3) & 0b01;
        assert(code == field(bits as int, 0x8, 2)) by {
            reveal(field);
            assert(code == (bits / 0x8) % 2) by (bit_vector)
                requires
                    code == (bits >> 3) & 0b01,
            ;
        }
        match code {
            1 => ComparatorPolarity::ActiveHigh,
            _ => ComparatorPolarity::ActiveLow,
        }
    }
}

impl Default for ComparatorPolarity {
    fn default() -> (r: Self)
        ensures
            r == ComparatorPolarity::ActiveLow,
    {
        ComparatorPolarity::ActiveLow
    }
}

/// Whether the alert pin stays active until the conversion is read.
#[derive(Debug, Clone, Copy, PartialEq, Eq, Structural)]
pub enum LatchingComparator {
    NonLatching,
    Latching,
}

impl LatchingComparator {
    pub open spec fn code(self) -> int {
        match self {
            LatchingComparator::NonLatching => 0,
            LatchingComparator::Latching => 1,
        }
    }

    pub open spec fn of_code(code: int) -> LatchingComparator {
        if code == 1 {
            LatchingComparator::Latching
        } else {
            LatchingComparator::NonLatching
        }
    }

    pub fn bits(&self) -> (r: u16)
        ensures
            r == self.code() * 0x4,
    {
        match self {
            LatchingComparator::NonLatching => 0,
            LatchingComparator::Latching => 0x4,
        }
    }

    pub fn from_bits(bits: u16) -> (r: Self)
        ensures
            r == LatchingComparator::of_code(field(bits as int, 0x4, 2)),
    {
        let code: u16 = (bits >> 2) & 0b01;
        assert(code == field(bits as int, 0x4, 2)) by {
            reveal(field);
            assert(code == (bits / 0x4) % 2) by (bit_vector)
                requires
                    code == (bits >> 2) & 0b01,
            ;
        }
        match code {
            1 => LatchingComparator::Latching,
            _ => LatchingComparator::NonLatching,
        }
    }
}

impl Default for LatchingComparator {
    fn default() -> (r: Self)
        ensures
            r == LatchingComparator::NonLatching,
    {
        LatchingComparator::NonLatching
    }
}

/// How many conversions beyond a threshold raise the alert pin.
#[derive(Debug, Clone, Copy, PartialEq, Eq, Structural)]
pub enum ComparatorQueue {
    AsserAfterOne,
    AsserAfterTwo,
    AsserAfterFour,
    Disable,
}

impl ComparatorQueue {
    pub open spec fn code(self) -> int {
        match self {
            ComparatorQueue::AsserAfterOne => 0,
            ComparatorQueue::AsserAfterTwo => 1,
            ComparatorQueue::AsserAfterFour => 2,
            ComparatorQueue::Disable => 3,
        }
    }

    pub open spec fn of_code(code: int) -> ComparatorQueue {
        if code == 0 {
            ComparatorQueue::AsserAfterOne
        } else if code == 1 {
            ComparatorQueue::AsserAfterTwo
        } else if code == 2 {
            ComparatorQueue::AsserAfterFour
        } else {
            ComparatorQueue::Disable
        }
    }

    pub fn bits(&self) -> (r: u16)
        ensures
            r == self.code(),
    {
        match self {
            ComparatorQueue::AsserAfterOne => 0b00,
            ComparatorQueue::AsserAfterTwo => 0b01,
            ComparatorQueue::AsserAfterFour => 0b10,
            ComparatorQueue::Disable => 0b11,
        }
    }

    pub fn from_bits(bits: u16) -> (r: Self)
        ensures
            r == ComparatorQueue::of_code(field(bits as int, 1, 4)),
    {
        let code: u16 = bits & 0b11;
        assert(code == field(bits as int, 1, 4)) by {
            reveal(field);
            assert(code == bits % 4) by (bit_vector)
                requires
                    code == bits & 0b11,
            ;
        }
        match code {
            0b00 => ComparatorQueue::AsserAfterOne,
            0b01 => ComparatorQueue::AsserAfterTwo,
            0b10 => ComparatorQueue::AsserAfterFour,
            _ => ComparatorQueue::Disable,
        }
    }
}

impl Default for ComparatorQueue {
    fn default() -> (r: Self)
        ensures
            r == ComparatorQueue::Disable,
    {
        ComparatorQueue::Disable
    }
}

/// Everything the configuration register holds.
///
/// `osw` is what the next write puts into bit 15; `osr` is what the last
/// read found there. The other eight settings read back as written.
#[derive(Debug, Clone, Copy, PartialEq, Eq, Structural)]
pub struct ADS111xConfig {
    pub osw: OSW,
    pub osr: OSR,
    pub mux: InputMultiplexer,
    pub pga: ProgramableGainAmplifier,
    pub mode: Mode,
    pub dr: DataRate,
    pub comp_mode: ComparatorMode,
    pub comp_pol: ComparatorPolarity,
    pub comp_lat: LatchingComparator,
    pub comp_que: ComparatorQueue,
}

impl Default for ADS111xConfig {
    fn default() -> (r: Self)
        ensures
            r == ADS111xConfig::power_on(),
    {
        ADS111xConfig {
            osw: OSW::default(),
            osr: OSR::default(),
            mux: InputMultiplexer::default(),
            pga: ProgramableGainAmplifier::default(),
            mode: Mode::default(),
            dr: DataRate::default(),
            comp_mode: ComparatorMode::default(),
            comp_pol: ComparatorPolarity::default(),
            comp_lat: LatchingComparator::default(),
            comp_que: ComparatorQueue::default(),
        }
    }
}

impl ADS111xConfig {
    /// The settings the device starts with.
    pub open spec fn power_on() -> ADS111xConfig {
        ADS111xConfig {
            osw: OSW::Idle,
            osr: OSR::DeviceIdle,
            mux: InputMultiplexer::AIN0AIN1,
            pga: ProgramableGainAmplifier::V2_048,
            mode: Mode::Signle,
            dr: DataRate::SPS128,
            comp_mode: ComparatorMode::Traditional,
            comp_pol: ComparatorPolarity::ActiveLow,
            comp_lat: LatchingComparator::NonLatching,
            comp_que: ComparatorQueue::Disable,
        }
    }

    /// The register value that writes these settings.
    pub open spec fn word(self) -> int {
        self.osw.code() * 0x8000 + self.mux.code() * 0x1000 + self.pga.code() * 0x200
            + self.mode.code() * 0x100 + self.dr.code() * 0x20 + self.comp_mode.code() * 0x10
            + self.comp_pol.code() * 0x8 + self.comp_lat.code() * 0x4 + self.comp_que.code()
    }

    /// The settings that a register value stands for.
    pub open spec fn of_word(word: int) -> ADS111xConfig {
        ADS111xConfig {
            osw: OSW::Idle,
            osr: OSR::of_code(field(word, 0x8000, 2)),
            mux: InputMultiplexer::of_code(field(word, 0x1000, 8)),
            pga: ProgramableGainAmplifier::of_code(field(word, 0x200, 8)),
            mode: Mode::of_code(field(word, 0x100, 2)),
            dr: DataRate::of_code(field(word, 0x20, 8)),
            comp_mode: ComparatorMode::of_code(field(word, 0x10, 2)),
            comp_pol: ComparatorPolarity::of_code(field(word, 0x8, 2)),
            comp_lat: LatchingComparator::of_code(field(word, 0x4, 2)),
            comp_que: ComparatorQueue::of_code(field(word, 1, 4)),
        }
    }

    /// Packs the settings into the register value that writes them.
    pub fn bits(&self) -> (r: u16)
        ensures
            r == self.word(),
    {
        let osw: u16 = self.osw.bits();
        let mux: u16 = self.mux.bits();
        let pga: u16 = self.pga.bits();
        let mode: u16 = self.mode.bits();
        let dr: u16 = self.dr.bits();
        let comp_mode: u16 = self.comp_mode.bits();
        let comp_pol: u16 = self.comp_pol.bits();
        let comp_lat: u16 = self.comp_lat.bits();
        let comp_que: u16 = self.comp_que.bits();
        assert((osw | mux | pga | mode | dr | comp_mode | comp_pol | comp_lat | comp_que) == osw
            + mux + pga + mode + dr + comp_mode + comp_pol + comp_lat + comp_que) by (bit_vector)
            requires
                osw % 0x8000 == 0,
                mux % 0x1000 == 0 && mux < 0x8000,
                pga % 0x200 == 0 && pga < 0x1000,
                mode % 0x100 == 0 && mode < 0x200,
                dr % 0x20 == 0 && dr < 0x100,
                comp_mode % 0x10 == 0 && comp_mode < 0x20,
                comp_pol % 0x8 == 0 && comp_pol < 0x10,
                comp_lat % 0x4 == 0 && comp_lat < 0x8,
                comp_que < 0x4,
        ;
        osw | mux | pga | mode | dr | comp_mode | comp_pol | comp_lat | comp_que
    }

    /// Unpacks a register value that was read from the device.
    pub fn from_bits(bits: u16) -> (r: Self)
        ensures
            r == ADS111xConfig::of_word(bits as int),
    {
        ADS111xConfig {
            osr: OSR::from_bits(bits),
            osw: OSW::default(),
            mux: InputMultiplexer::from_bits(bits),
            pga: ProgramableGainAmplifier::from_bits(bits),
            mode: Mode::from_bits(bits),
            dr: DataRate::from_bits(bits),
            comp_mode: ComparatorMode::from_bits(bits),
            comp_pol: ComparatorPolarity::from_bits(bits),
            comp_lat: LatchingComparator::from_bits(bits),
            comp_que: ComparatorQueue::from_bits(bits),
        }
    }

    pub fn mux(self, mux: InputMultiplexer) -> (r: Self)
        ensures
            r == (ADS111xConfig { mux, ..self }),
    {
        let mut config = self;
        config.mux = mux;
        config
    }

    pub fn pga(self, pga: ProgramableGainAmplifier) -> (r: Self)
        ensures
            r == (ADS111xConfig { pga, ..self }),
    {
        let mut config = self;
        config.pga = pga;
        config
    }

    pub fn mode(self, mode: Mode) -> (r: Self)
        ensures
            r == (ADS111xConfig { mode, ..self }),
    {
        let mut config = self;
        config.mode = mode;
        config
    }

    pub fn dr(self, dr: DataRate) -> (r: Self)
        ensures
            r == (ADS111xConfig { dr, ..self }),
    {
        let mut config = self;
        config.dr = dr;
        config
    }

    pub fn comp_mode(self, cm: ComparatorMode) -> (r: Self)
        ensures
            r == (ADS111xConfig { comp_mode: cm, ..self }),
    {
        let mut config = self;
        config.comp_mode = cm;
        config
    }

    pub fn comp_pol(self, cp: ComparatorPolarity) -> (r: Self)
        ensures
            r == (ADS111xConfig { comp_pol: cp, ..self }),
    {
        let mut config = self;
        config.comp_pol = cp;
        config
    }

    pub fn comp_lat(self, cl: LatchingComparator) -> (r: Self)
        ensures
            r == (ADS111xConfig { comp_lat: cl, ..self }),
    {
        let mut config = self;
        config.comp_lat = cl;
        config
    }

    pub fn comp_que(self, cq: ComparatorQueue) -> (r: Self)
        ensures
            r == (ADS111xConfig { comp_que: cq, ..self }),
    {
        let mut config = self;
        config.comp_que = cq;
        config
    }
}

/// Each group of bits of a packed register holds the code that was put there.
proof fn lemma_places(
    osw: u16,
    mux: u16,
    pga: u16,
    mode: u16,
    dr: u16,
    comp_mode: u16,
    comp_pol: u16,
    comp_lat: u16,
    comp_que: u16,
) by (bit_vector)
    requires
        osw < 2,
        mux < 8,
        pga < 8,
        mode < 2,
        dr < 8,
        comp_mode < 2,
        comp_pol < 2,
        comp_lat < 2,
        comp_que < 4,
    ensures
        ({
            let word = osw * 0x8000 + mux * 0x1000 + pga * 0x200 + mode * 0x100 + dr * 0x20
                + comp_mode * 0x10 + comp_pol * 0x8 + comp_lat * 0x4 + comp_que;
            &&& word < 0x1_0000
            &&& (word / 0x8000) % 2 == osw
            &&& (word / 0x1000) % 8 == mux
            &&& (word / 0x200) % 8 == pga
            &&& (word / 0x100) % 2 == mode
            &&& (word / 0x20) % 8 == dr
            &&& (word / 0x10) % 2 == comp_mode
            &&& (word / 0x8) % 2 == comp_pol
            &&& (word / 0x4) % 2 == comp_lat
            &&& (word / 1) % 4 == comp_que
        }),
{
}

/// The same over the integers, in the words of `field`.
proof fn lemma_fields_of_sum(
    osw: int,
    mux: int,
    pga: int,
    mode: int,
    dr: int,
    comp_mode: int,
    comp_pol: int,
    comp_lat: int,
    comp_que: int,
)
    requires
        0 <= osw < 2,
        0 <= mux < 8,
        0 <= pga < 8,
        0 <= mode < 2,
        0 <= dr < 8,
        0 <= comp_mode < 2,
        0 <= comp_pol < 2,
        0 <= comp_lat < 2,
        0 <= comp_que < 4,
    ensures
        ({
            let word = osw * 0x8000 + mux * 0x1000 + pga * 0x200 + mode * 0x100 + dr * 0x20
                + comp_mode * 0x10 + comp_pol * 0x8 + comp_lat * 0x4 + comp_que;
            &&& 0 <= word < 0x1_0000
            &&& field(word, 0x8000, 2) == osw
            &&& field(word, 0x1000, 8) == mux
            &&& field(word, 0x200, 8) == pga
            &&& field(word, 0x100, 2) == mode
            &&& field(word, 0x20, 8) == dr
            &&& field(word, 0x10, 2) == comp_mode
            &&& field(word, 0x8, 2) == comp_pol
            &&& field(word, 0x4, 2) == comp_lat
            &&& field(word, 1, 4) == comp_que
        }),
{
    reveal(field);
    lemma_places(
        osw as u16,
        mux as u16,
        pga as u16,
        mode as u16,
        dr as u16,
        comp_mode as u16,
        comp_pol as u16,
        comp_lat as u16,
        comp_que as u16,
    );
}

/// Packing the settings and unpacking the result gives the eight writable
/// settings back. The start request is never read back: it unpacks as idle,
/// and the bit that carried it is read as the conversion status.
pub proof fn lemma_config_round_trip(config: ADS111xConfig)
    ensures
        0 <= config.word() < 0x1_0000,
        ADS111xConfig::of_word(config.word()) == (ADS111xConfig {
            osw: OSW::Idle,
            osr: if config.osw == OSW::StartConversion {
                OSR::DeviceIdle
            } else {
                OSR::PerformingConversion
            },
            ..config
        }),
{
    lemma_settings_read_back(config);
}

/// The round trip, one setting at a time.
proof fn lemma_settings_read_back(config: ADS111xConfig)
    ensures
        ADS111xConfig::of_word(config.word()).osw == OSW::Idle,
        ADS111xConfig::of_word(config.word()).osr == OSR::of_code(config.osw.code()),
        ADS111xConfig::of_word(config.word()).mux == config.mux,
        ADS111xConfig::of_word(config.word()).pga == config.pga,
        ADS111xConfig::of_word(config.word()).mode == config.mode,
        ADS111xConfig::of_word(config.word()).dr == config.dr,
        ADS111xConfig::of_word(config.word()).comp_mode == config.comp_mode,
        ADS111xConfig::of_word(config.word()).comp_pol == config.comp_pol,
        ADS111xConfig::of_word(config.word()).comp_lat == config.comp_lat,
        ADS111xConfig::of_word(config.word()).comp_que == config.comp_que,
{
    let osw = config.osw.code();
    let mux = config.mux.code();
    let pga = config.pga.code();
    let mode = config.mode.code();
    let dr = config.dr.code();
    let comp_mode = config.comp_mode.code();
    let comp_pol = config.comp_pol.code();
    let comp_lat = config.comp_lat.code();
    let comp_que = config.comp_que.code();
    lemma_read_back_codes(config.word(), osw, mux, pga, mode, dr, comp_mode, comp_pol, comp_lat, comp_que);
}

proof fn lemma_read_back_codes(
    word: int,
    osw: int,
    mux: int,
    pga: int,
    mode: int,
    dr: int,
    comp_mode: int,
    comp_pol: int,
    comp_lat: int,
    comp_que: int,
)
    requires
        0 <= osw < 2,
        0 <= mux < 8,
        0 <= pga < 6,
        0 <= mode < 2,
        0 <= dr < 8,
        0 <= comp_mode < 2,
        0 <= comp_pol < 2,
        0 <= comp_lat < 2,
        0 <= comp_que < 4,
        word == osw * 0x8000 + mux * 0x1000 + pga * 0x200 + mode * 0x100 + dr * 0x20 + comp_mode
            * 0x10 + comp_pol * 0x8 + comp_lat * 0x4 + comp_que,
    ensures
        ADS111xConfig::of_word(word).osw == OSW::Idle,
        ADS111xConfig::of_word(word).osr == OSR::of_code(osw),
        ADS111xConfig::of_word(word).mux.code() == mux,
        ADS111xConfig::of_word(word).pga.code() == pga,
        ADS111xConfig::of_word(word).mode.code() == mode,
        ADS111xConfig::of_word(word).dr.code() == dr,
        ADS111xConfig::of_word(word).comp_mode.code() == comp_mode,
        ADS111xConfig::of_word(word).comp_pol.code() == comp_pol,
        ADS111xConfig::of_word(word).comp_lat.code() == comp_lat,
        ADS111xConfig::of_word(word).comp_que.code() == comp_que,
{
    lemma_fields_of_sum(osw, mux, pga, mode, dr, comp_mode, comp_pol, comp_lat, comp_que);
}

/// One conversion as it was read: the raw sample and the gain it was taken
/// with.
#[derive(Debug, Clone, Copy, PartialEq, Eq, Structural)]
pub struct ConversionResult {
    pub raw: i16,
    pub gain: ProgramableGainAmplifier,
}

/// The voltage that a raw sample stands for, in picovolts:
/// raw × full scale / 32768.
pub open spec fn scaled_picovolts(raw: int, gain: ProgramableGainAmplifier) -> int {
    raw * (gain.full_scale_microvolts() * 1_000_000) / 32768
}

impl ProgramableGainAmplifier {
    /// The voltage of one step of the raw sample, in picovolts.
    pub open spec fn step_picovolts(self) -> int {
        match self {
            ProgramableGainAmplifier::V6_144 => 187_500_000,
            ProgramableGainAmplifier::V4_096 => 125_000_000,
            ProgramableGainAmplifier::V2_048 => 62_500_000,
            ProgramableGainAmplifier::V1_024 => 31_250_000,
            ProgramableGainAmplifier::V0_512 => 15_625_000,
            ProgramableGainAmplifier::V0_256 => 7_812_500,
        }
    }
}

/// The scaled voltage is a whole number of picovolts for every sample and
/// every gain, so nothing is lost by the division.
pub proof fn lemma_scaled_voltage_is_exact(raw: int, gain: ProgramableGainAmplifier)
    ensures
        gain.full_scale_microvolts() * 1_000_000 == gain.step_picovolts() * 32768,
        scaled_picovolts(raw, gain) == raw * gain.step_picovolts(),
        scaled_picovolts(raw, gain) * 32768 == raw * gain.full_scale_microvolts() * 1_000_000,
{
    let step = gain.step_picovolts();
    assert(gain.full_scale_microvolts() * 1_000_000 == step * 32768);
    assert(raw * (step * 32768) == (raw * step) * 32768) by (nonlinear_arith);
    assert(((raw * step) * 32768) / 32768 == raw * step);
    assert(raw * gain.full_scale_microvolts() * 1_000_000 == raw * (gain.full_scale_microvolts()
        * 1_000_000)) by (nonlinear_arith);
}

impl ConversionResult {
    /// The measured voltage in picovolts.
    pub fn picovolts(&self) -> (r: i64)
        ensures
            r == scaled_picovolts(self.raw as int, self.gain),
    {
        let step: i64 = match self.gain {
            ProgramableGainAmplifier::V6_144 => 187_500_000,
            ProgramableGainAmplifier::V4_096 => 125_000_000,
            ProgramableGainAmplifier::V2_048 => 62_500_000,
            ProgramableGainAmplifier::V1_024 => 31_250_000,
            ProgramableGainAmplifier::V0_512 => 15_625_000,
            ProgramableGainAmplifier::V0_256 => 7_812_500,
        };
        proof {
            lemma_scaled_voltage_is_exact(self.raw as int, self.gain);
            assert(-32768 * step <= self.raw * step <= 32767 * step) by (nonlinear_arith)
                requires
                    -32768 <= self.raw <= 32767,
                    0 <= step,
            ;
        }
        (self.raw as i64) * step
    }
}

/// Whether a 7-bit bus address is one of the four that the device's address
/// pin can select.
pub open spec fn valid_address(address: u8) -> bool {
    0x48 <= address <= 0x4B
}

/// Whether the two bytes read from the configuration register say that no
/// conversion is running.
pub open spec fn conversion_done(status: Seq<u8>) -> bool {
    ADS111xConfig::of_word(word_of_bytes(status)).osr == OSR::DeviceIdle
}

/// The status is the top bit of the first byte.
pub proof fn lemma_conversion_done_is_top_bit(status: Seq<u8>)
    requires
        status.len() == 2,
    ensures
        conversion_done(status) <==> status[0] >= 0x80,
{
    reveal(field);
}

/// What to do after a look at the configuration register while a single
/// conversion is awaited.
#[derive(Debug, Clone, Copy, PartialEq, Eq, Structural)]
pub enum ConversionPoll {
    /// The device is idle: the conversion register holds the result.
    Ready,
    /// The device is still converting: read the configuration register
    /// again. `retries_left` is the allowance for the reads after that one.
    Again { retries_left: Option<u32> },
    /// The device is still converting and the allowance is used up.
    GaveUp,
}

/// The decision that `ADS111x::poll_conversion` takes.
pub open spec fn poll_decision(status: Seq<u8>, retries_left: Option<u32>) -> ConversionPoll {
    if conversion_done(status) {
        ConversionPoll::Ready
    } else {
        match retries_left {
            None => ConversionPoll::Again { retries_left: None },
            Some(n) => if n > 0 {
                ConversionPoll::Again { retries_left: Some((n - 1) as u32) }
            } else {
                ConversionPoll::GaveUp
            },
        }
    }
}

/// How a wait for a conversion ends when the reads of the status return
/// `statuses` one after the other: `Some(true)` with the device idle,
/// `Some(false)` given up, `None` where the statuses are used up before
/// either.
pub open spec fn poll_outcome(statuses: Seq<Seq<u8>>, retries_left: Option<u32>) -> Option<bool>
    decreases statuses.len(),
{
    if statuses.len() == 0 {
        None
    } else {
        match poll_decision(statuses[0], retries_left) {
            ConversionPoll::Ready => Some(true),
            ConversionPoll::GaveUp => Some(false),
            ConversionPoll::Again { retries_left: left } => poll_outcome(
                statuses.drop_first(),
                left,
            ),
        }
    }
}

/// A wait with a bound ends: with `retries` reads allowed after the first
/// status, it is over after `retries + 1` statuses at the latest, whatever
/// the device reports.
pub proof fn lemma_bounded_wait_ends(statuses: Seq<Seq<u8>>, retries: u32)
    requires
        statuses.len() > retries,
    ensures
        poll_outcome(statuses, Some(retries)) is Some,
    decreases retries,
{
    if let ConversionPoll::Again { retries_left: left } = poll_decision(
        statuses[0],
        Some(retries),
    ) {
        lemma_bounded_wait_ends(statuses.drop_first(), (retries - 1) as u32);
    }
}

/// A wait without a bound lasts as long as the device reports that it
/// converts.
pub proof fn lemma_unbounded_wait_goes_on(statuses: Seq<Seq<u8>>)
    requires
        forall|i: int| 0 <= i < statuses.len() ==> !conversion_done(#[trigger] statuses[i]),
    ensures
        poll_outcome(statuses, None) is None,
    decreases statuses.len(),
{
    if statuses.len() > 0 {
        let rest = statuses.drop_first();
        assert forall|i: int| 0 <= i < rest.len() implies !conversion_done(#[trigger] rest[i]) by {
            assert(rest[i] == statuses[i + 1]);
        }
        lemma_unbounded_wait_goes_on(rest);
    }
}

/// How far a single conversion has come.
#[derive(Debug, Clone, Copy, PartialEq, Eq, Structural)]
pub enum SingleShot {
    /// Nothing has been sent. `retries` is the number of times that the
    /// status may be read again while the device converts; `None` sets no
    /// bound.
    Start { retries: Option<u32> },
    /// The status is being read.
    Polling { retries_left: Option<u32> },
    /// The conversion register is being read.
    Reading,
}

/// What a single conversion asks for next.
#[derive(Debug, Clone, Copy, PartialEq, Eq, Structural)]
pub enum SingleShotStep {
    /// Write `word` to `register` and read two bytes in the same
    /// transfer, then call again in state `then` with those bytes.
    WriteThenRead { register: u8, word: u16, then: SingleShot },
    /// Read the two bytes of `register`, then call again in state `then`
    /// with them.
    Read { register: u8, then: SingleShot },
    /// The conversion is over. `None` says that the device was still
    /// converting when the allowed number of reads was used up.
    Finished { result: Option<ConversionResult> },
}

/// The settings that the driver holds after a step of a single conversion.
/// The first step sets the start request and takes `mux` as the inputs to
/// convert, if one is given. The later steps change nothing.
pub open spec fn single_shot_settings(
    config: ADS111xConfig,
    mux: Option<InputMultiplexer>,
    state: SingleShot,
) -> ADS111xConfig {
    if state is Start {
        ADS111xConfig {
            osw: OSW::StartConversion,
            mux: match mux {
                Some(m) => m,
                None => config.mux,
            },
            ..config
        }
    } else {
        config
    }
}

/// The rule of a single conversion. The settings are written with the
/// start request set. The status that comes back, and every status read
/// after it, decides as `poll_decision` says: the conversion register is
/// read once the device is idle, the status is read again while it
/// converts and reads are left, and the conversion is given up when none
/// is left. What the conversion register holds is the result, with the
/// gain of the settings.
pub open spec fn single_shot_step(
    config: ADS111xConfig,
    state: SingleShot,
    reply: Seq<u8>,
) -> SingleShotStep {
    match state {
        SingleShot::Start { retries } => SingleShotStep::WriteThenRead {
            register: CONFIG_REGISTER,
            word: config.word() as u16,
            then: SingleShot::Polling { retries_left: retries },
        },
        SingleShot::Polling { retries_left } => match poll_decision(reply, retries_left) {
            ConversionPoll::Ready => SingleShotStep::Read {
                register: CONVERSION_REGISTER,
                then: SingleShot::Reading,
            },
            ConversionPoll::Again { retries_left: left } => SingleShotStep::Read {
                register: CONFIG_REGISTER,
                then: SingleShot::Polling { retries_left: left },
            },
            ConversionPoll::GaveUp => SingleShotStep::Finished { result: None },
        },
        SingleShot::Reading => SingleShotStep::Finished {
            result: Some(
                ConversionResult {
                    raw: signed_of_word(word_of_bytes(reply)) as i16,
                    gain: config.pga,
                },
            ),
        },
    }
}

/// One device on the bus, with the settings last handed to it.
pub struct ADS111x {
    address: u8,
    config: ADS111xConfig,
}

impl ADS111x {
    #[verifier::type_invariant]
    spec fn strapped(self) -> bool {
        valid_address(self.address)
    }

    /// The bus address of the device.
    pub closed spec fn spec_address(&self) -> u8 {
        self.address
    }

    /// The settings that the driver holds for the device.
    pub closed spec fn spec_config(&self) -> ADS111xConfig {
        self.config
    }

    /// A driver for the device at `address`. Only the four addresses that
    /// the hardware can take are accepted.
    pub fn new(address: u8, config: ADS111xConfig) -> (r: Result<Self, ADSError>)
        ensures
            r is Ok <==> valid_address(address),
            r matches Ok(device) ==> device.spec_address() == address && device.spec_config()
                == config,
            r matches Err(e) ==> e == ADSError::WrongAddress,
    {
        match address {
            0b1001000 => {},
            0b1001001 => {},
            0b1001010 => {},
            0b1001011 => {},
            _ => return Err(ADSError::WrongAddress),
        }
        Ok(ADS111x { address, config })
    }

    /// The bus address to use for every transfer with this device.
    #[verifier::when_used_as_spec(spec_address)]
    pub fn address(&self) -> (a: u8)
        ensures
            a == self.spec_address(),
            valid_address(a),
    {
        proof {
            use_type_invariant(self);
        }
        self.address
    }

    /// The settings that the driver holds for the device.
    #[verifier::when_used_as_spec(spec_config)]
    pub fn config(&self) -> (c: ADS111xConfig)
        ensures
            c == self.spec_config(),
    {
        self.config
    }

    /// Takes `config` as the new settings, if one is given, and returns the
    /// bytes to write to the device. The start request is cleared first, so
    /// that writing settings never starts a conversion.
    pub fn write_config(&mut self, config: Option<ADS111xConfig>) -> (frame: [u8; 3])
        ensures
            final(self).spec_address() == old(self).spec_address(),
            final(self).spec_config() == (ADS111xConfig {
                osw: OSW::Idle,
                ..match config {
                    Some(c) => c,
                    None => old(self).spec_config(),
                }
            }),
            frame@ == write_frame_of(CONFIG_REGISTER, final(self).spec_config().word()),
            frame@[1] < 0x80,
    {
        proof {
            use_type_invariant(&*self);
        }
        if let Some(conf) = config {
            self.config = conf;
        }
        self.config.osw = OSW::Idle;
        proof {
            lemma_config_round_trip(self.config);
        }
        write_frame(CONFIG_REGISTER, self.config.bits())
    }

    /// Unpacks the two bytes read from the configuration register. The
    /// start request held by the driver is cleared.
    pub fn read_config(&mut self, response: [u8; 2]) -> (r: ADS111xConfig)
        ensures
            final(self).spec_address() == old(self).spec_address(),
            final(self).spec_config() == (ADS111xConfig { osw: OSW::Idle, ..old(self).spec_config() }),
            r == ADS111xConfig::of_word(word_of_bytes(response@)),
    {
        proof {
            use_type_invariant(&*self);
        }
        self.config.osw = OSW::Idle;
        ADS111xConfig::from_bits(read_word(response))
    }

    /// One step of a single conversion. The first call is made in
    /// `SingleShot::Start`; each later call in the state that the step
    /// before named, with the two bytes that were read.
    ///
    /// The first step takes `mux` as the inputs to convert, if one is
    /// given, and sets the start request in the settings that the driver
    /// holds. The later steps leave the settings alone.
    pub fn read_single_voltage(
        &mut self,
        mux: Option<InputMultiplexer>,
        state: SingleShot,
        reply: [u8; 2],
    ) -> (r: SingleShotStep)
        ensures
            final(self).spec_address() == old(self).spec_address(),
            final(self).spec_config() == single_shot_settings(old(self).spec_config(), mux, state),
            r == single_shot_step(final(self).spec_config(), state, reply@),
            (r matches SingleShotStep::WriteThenRead { word, .. } ==> word >= 0x8000),
    {
        proof {
            use_type_invariant(&*self);
        }
        match state {
            SingleShot::Start { retries } => {
                if let Some(m) = mux {
                    self.config.mux = m;
                }
                self.config.osw = OSW::StartConversion;
                SingleShotStep::WriteThenRead {
                    register: CONFIG_REGISTER,
                    word: self.config.bits(),
                    then: SingleShot::Polling { retries_left: retries },
                }
            },
            SingleShot::Polling { retries_left } => match ADS111x::poll_conversion(
                reply,
                retries_left,
            ) {
                ConversionPoll::Ready => SingleShotStep::Read {
                    register: CONVERSION_REGISTER,
                    then: SingleShot::Reading,
                },
                ConversionPoll::Again { retries_left: left } => SingleShotStep::Read {
                    register: CONFIG_REGISTER,
                    then: SingleShot::Polling { retries_left: left },
                },
                ConversionPoll::GaveUp => SingleShotStep::Finished { result: None },
            },
            SingleShot::Reading => SingleShotStep::Finished {
                result: Some(self.read_voltage(reply)),
            },
        }
    }

    /// Decides, from the two bytes last read from the configuration
    /// register, whether the conversion can be read, has to be awaited
    /// further, or is given up.
    ///
    /// `retries_left` bounds the number of further reads. With `None` there
    /// is no bound, and a device that never reports idle is polled for ever.
    pub fn poll_conversion(status: [u8; 2], retries_left: Option<u32>) -> (r: ConversionPoll)
        ensures
            r == poll_decision(status@, retries_left),
    {
        let word: u16 = read_word(status);
        if OSR::from_bits(word) == OSR::PerformingConversion {
            match retries_left {
                None => ConversionPoll::Again { retries_left: None },
                Some(n) => {
                    if n > 0 {
                        ConversionPoll::Again { retries_left: Some(n - 1) }
                    } else {
                        ConversionPoll::GaveUp
                    }
                },
            }
        } else {
            ConversionPoll::Ready
        }
    }

    /// Whether the two bytes read from the configuration register say that
    /// the last conversion is complete.
    pub fn check_cnversion_ready(&mut self, response: [u8; 2]) -> (ready: bool)
        ensures
            final(self).spec_address() == old(self).spec_address(),
            final(self).spec_config() == (ADS111xConfig { osw: OSW::Idle, ..old(self).spec_config() }),
            ready == conversion_done(response@),
    {
        self.read_config(response).osr == OSR::DeviceIdle
    }

    /// Reads the two bytes of the conversion register as a sample taken
    /// with the gain that the driver holds. Nothing here tells whether the
    /// device had finished converting: that is what its status is for.
    pub fn read_voltage(&self, response: [u8; 2]) -> (r: ConversionResult)
        ensures
            r.raw == signed_of_word(word_of_bytes(response@)),
            r.gain == self.spec_config().pga,
    {
        ConversionResult { raw: to_signed(read_word(response)), gain: self.config.pga }
    }

    /// The bytes that write the comparator's low threshold.
    pub fn set_low_treshold(&self, low_tresh: i16) -> (frame: [u8; 3])
        ensures
            frame@ == write_frame_of(LO_THRESH_REGISTER, word_of_signed(low_tresh as int)),
    {
        write_frame(LO_THRESH_REGISTER, from_signed(low_tresh))
    }

    /// The bytes that write the comparator's high threshold.
    pub fn set_high_treshold(&self, high_tresh: i16) -> (frame: [u8; 3])
        ensures
            frame@ == write_frame_of(HI_THRESH_REGISTER, word_of_signed(high_tresh as int)),
    {
        write_frame(HI_THRESH_REGISTER, from_signed(high_tresh))
    }
}

} // verus!
