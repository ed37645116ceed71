use io_expander::iox::analog_input::ads1115::{
    ADS111x, ADS111xConfig, ADSError, ComparatorMode, ComparatorPolarity, ComparatorQueue,
    ConversionPoll, ConversionResult, DataRate, InputMultiplexer, LatchingComparator, Mode,
    ProgramableGainAmplifier, SingleShot, SingleShotStep, CONFIG_REGISTER, CONVERSION_REGISTER,
    HI_THRESH_REGISTER, LO_THRESH_REGISTER, OSR, OSW,
};
use io_expander::iox::analog_input::{from_signed, read_word, to_signed, write_frame};

const MUXES: [InputMultiplexer; 8] = [
    InputMultiplexer::AIN0AIN1,
    InputMultiplexer::AIN0AIN3,
    InputMultiplexer::AIN1AIN3,
    InputMultiplexer::AIN2AIN3,
    InputMultiplexer::AIN0GND,
    InputMultiplexer::AIN1GND,
    InputMultiplexer::AIN2GND,
    InputMultiplexer::AIN3GND,
];

const GAINS: [ProgramableGainAmplifier; 6] = [
    ProgramableGainAmplifier::V6_144,
    ProgramableGainAmplifier::V4_096,
    ProgramableGainAmplifier::V2_048,
    ProgramableGainAmplifier::V1_024,
    ProgramableGainAmplifier::V0_512,
    ProgramableGainAmplifier::V0_256,
];

const RATES: [DataRate; 8] = [
    DataRate::SPS8,
    DataRate::SPS16,
    DataRate::SPS32,
    DataRate::SPS64,
    DataRate::SPS128,
    DataRate::SPS250,
    DataRate::SPS475,
    DataRate::SPS860,
];

const QUEUES: [ComparatorQueue; 4] = [
    ComparatorQueue::AsserAfterOne,
    ComparatorQueue::AsserAfterTwo,
    ComparatorQueue::AsserAfterFour,
    ComparatorQueue::Disable,
];

fn device(address: u8, config: ADS111xConfig) -> ADS111x {
    match ADS111x::new(address, config) {
        Ok(device) => device,
        Err(e) => panic!("address {:#x} refused: {:?}", address, e),
    }
}

#[test]
fn register_addresses() {
    assert_eq!(CONVERSION_REGISTER, 0);
    assert_eq!(CONFIG_REGISTER, 1);
    assert_eq!(LO_THRESH_REGISTER, 2);
    assert_eq!(HI_THRESH_REGISTER, 3);
}

#[test]
fn default_config_is_the_power_on_value() {
    let config = ADS111xConfig::default();
    assert_eq!(config.osw, OSW::Idle);
    assert_eq!(config.osr, OSR::DeviceIdle);
    assert_eq!(config.mux, InputMultiplexer::AIN0AIN1);
    assert_eq!(config.pga, ProgramableGainAmplifier::V2_048);
    assert_eq!(config.mode, Mode::Signle);
    assert_eq!(config.dr, DataRate::SPS128);
    assert_eq!(config.comp_mode, ComparatorMode::Traditional);
    assert_eq!(config.comp_pol, ComparatorPolarity::ActiveLow);
    assert_eq!(config.comp_lat, LatchingComparator::NonLatching);
    assert_eq!(config.comp_que, ComparatorQueue::Disable);
    assert_eq!(config.bits(), 0x0583);
}

#[test]
fn field_bits_sit_at_their_places() {
    assert_eq!(OSW::StartConversion.bits(), 1 << 15);
    assert_eq!(OSW::Idle.bits(), 0);
    for (code, mux) in MUXES.iter().enumerate() {
        assert_eq!(mux.bits(), (code as u16) << 12);
    }
    for (code, gain) in GAINS.iter().enumerate() {
        assert_eq!(gain.bits(), (code as u16) << 9);
    }
    assert_eq!(Mode::Continuous.bits(), 0);
    assert_eq!(Mode::Signle.bits(), 1 << 8);
    for (code, rate) in RATES.iter().enumerate() {
        assert_eq!(rate.bits(), (code as u16) << 5);
    }
    assert_eq!(ComparatorMode::Traditional.bits(), 0);
    assert_eq!(ComparatorMode::Window.bits(), 1 << 4);
    assert_eq!(ComparatorPolarity::ActiveLow.bits(), 0);
    assert_eq!(ComparatorPolarity::ActiveHigh.bits(), 1 << 3);
    assert_eq!(LatchingComparator::NonLatching.bits(), 0);
    assert_eq!(LatchingComparator::Latching.bits(), 1 << 2);
    for (code, queue) in QUEUES.iter().enumerate() {
        assert_eq!(queue.bits(), code as u16);
    }
}

#[test]
fn every_word_decodes_field_by_field() {
    for word in 0..=u16::MAX {
        let config = ADS111xConfig::from_bits(word);
        assert_eq!(config.osw, OSW::Idle);
        assert_eq!(
            config.osr,
            if word & 0x8000 != 0 { OSR::DeviceIdle } else { OSR::PerformingConversion }
        );
        assert_eq!(config.osr, OSR::from_bits(word));
        assert_eq!(config.mux, MUXES[((word >> 12) & 7) as usize]);
        assert_eq!(config.mux, InputMultiplexer::from_bits(word));
        let gain = ((word >> 9) & 7) as usize;
        assert_eq!(config.pga, GAINS[if gain > 5 { 5 } else { gain }]);
        assert_eq!(config.pga, ProgramableGainAmplifier::from_bits(word));
        assert_eq!(config.mode, if word & 0x100 != 0 { Mode::Signle } else { Mode::Continuous });
        assert_eq!(config.mode, Mode::from_bits(word));
        assert_eq!(config.dr, RATES[((word >> 5) & 7) as usize]);
        assert_eq!(config.dr, DataRate::from_bits(word));
        assert_eq!(
            config.comp_mode,
            if word & 0x10 != 0 { ComparatorMode::Window } else { ComparatorMode::Traditional }
        );
        assert_eq!(config.comp_mode, ComparatorMode::from_bits(word));
        assert_eq!(
            config.comp_pol,
            if word & 0x8 != 0 {
                ComparatorPolarity::ActiveHigh
            } else {
                ComparatorPolarity::ActiveLow
            }
        );
        assert_eq!(config.comp_pol, ComparatorPolarity::from_bits(word));
        assert_eq!(
            config.comp_lat,
            if word & 0x4 != 0 {
                LatchingComparator::Latching
            } else {
                LatchingComparator::NonLatching
            }
        );
        assert_eq!(config.comp_lat, LatchingComparator::from_bits(word));
        assert_eq!(config.comp_que, QUEUES[(word & 3) as usize]);
        assert_eq!(config.comp_que, ComparatorQueue::from_bits(word));
    }
}

#[test]
fn every_config_survives_encode_then_decode() {
    let mut count = 0u32;
    for osw in [OSW::Idle, OSW::StartConversion] {
        for mux in MUXES {
            for pga in GAINS {
                for mode in [Mode::Continuous, Mode::Signle] {
                    for dr in RATES {
                        for bits in 0..32u16 {
                            let config = ADS111xConfig {
                                osw,
                                osr: if bits & 16 != 0 {
                                    OSR::DeviceIdle
                                } else {
                                    OSR::PerformingConversion
                                },
                                mux,
                                pga,
                                mode,
                                dr,
                                comp_mode: ComparatorMode::from_bits(bits << 4),
                                comp_pol: ComparatorPolarity::from_bits(bits << 2),
                                comp_lat: LatchingComparator::from_bits(bits),
                                comp_que: ComparatorQueue::from_bits(bits),
                            };
                            let read = ADS111xConfig::from_bits(config.bits());
                            let expected = ADS111xConfig {
                                osw: OSW::Idle,
                                osr: if osw == OSW::StartConversion {
                                    OSR::DeviceIdle
                                } else {
                                    OSR::PerformingConversion
                                },
                                ..config
                            };
                            assert_eq!(read, expected);
                            count += 1;
                        }
                    }
                }
            }
        }
    }
    assert_eq!(count, 2 * 8 * 6 * 2 * 8 * 32);
}

#[test]
fn start_request_always_decodes_as_idle() {
    let config = ADS111xConfig { osw: OSW::StartConversion, ..ADS111xConfig::default() };
    assert_eq!(config.bits(), 0x8583);
    let read = ADS111xConfig::from_bits(config.bits());
    assert_eq!(read.osw, OSW::Idle);
    assert_eq!(read.osr, OSR::DeviceIdle);
}

#[test]
fn builder_changes_one_field_at_a_time() {
    let base = ADS111xConfig::default();
    assert_eq!(
        base.mux(InputMultiplexer::AIN2GND),
        ADS111xConfig { mux: InputMultiplexer::AIN2GND, ..base }
    );
    assert_eq!(
        base.pga(ProgramableGainAmplifier::V6_144),
        ADS111xConfig { pga: ProgramableGainAmplifier::V6_144, ..base }
    );
    assert_eq!(base.mode(Mode::Continuous), ADS111xConfig { mode: Mode::Continuous, ..base });
    assert_eq!(base.dr(DataRate::SPS860), ADS111xConfig { dr: DataRate::SPS860, ..base });
    assert_eq!(
        base.comp_mode(ComparatorMode::Window),
        ADS111xConfig { comp_mode: ComparatorMode::Window, ..base }
    );
    assert_eq!(
        base.comp_pol(ComparatorPolarity::ActiveHigh),
        ADS111xConfig { comp_pol: ComparatorPolarity::ActiveHigh, ..base }
    );
    assert_eq!(
        base.comp_lat(LatchingComparator::Latching),
        ADS111xConfig { comp_lat: LatchingComparator::Latching, ..base }
    );
    assert_eq!(
        base.comp_que(ComparatorQueue::AsserAfterTwo),
        ADS111xConfig { comp_que: ComparatorQueue::AsserAfterTwo, ..base }
    );
    let chained = base
        .mux(InputMultiplexer::AIN0GND)
        .pga(ProgramableGainAmplifier::V6_144)
        .mode(Mode::Continuous)
        .dr(DataRate::SPS8);
    assert_eq!(chained.bits(), 0x4000 | 0x0000 | 0x0000 | 0x0000 | 0x0003);
}

#[test]
fn only_the_four_strapped_addresses_are_accepted() {
    for address in 0..=u8::MAX {
        let result = ADS111x::new(address, ADS111xConfig::default());
        if (0x48..=0x4B).contains(&address) {
            match result {
                Ok(device) => {
                    assert_eq!(device.address(), address);
                    assert_eq!(device.config(), ADS111xConfig::default());
                }
                Err(e) => panic!("address {:#x} refused: {:?}", address, e),
            }
        } else {
            match result {
                Ok(_) => panic!("address {:#x} accepted", address),
                Err(e) => assert_eq!(e, ADSError::WrongAddress),
            }
        }
    }
}

#[test]
fn write_config_clears_the_start_request() {
    let mut adc = device(0x48, ADS111xConfig::default());
    let stale = ADS111xConfig {
        osw: OSW::StartConversion,
        ..ADS111xConfig::default().pga(ProgramableGainAmplifier::V6_144)
    };
    let frame = adc.write_config(Some(stale));
    assert_eq!(frame, [0x01, 0x01, 0x83]);
    assert_eq!(adc.config(), ADS111xConfig { osw: OSW::Idle, ..stale });
    assert_eq!(adc.address(), 0x48);
}

#[test]
fn write_config_without_a_new_config_sends_the_held_one() {
    let held = ADS111xConfig::default().mux(InputMultiplexer::AIN3GND).dr(DataRate::SPS860);
    let mut adc = device(0x49, held);
    let frame = adc.write_config(None);
    assert_eq!(frame, [0x01, 0x75, 0xE3]);
    assert_eq!(adc.config(), held);
}

#[test]
fn write_config_after_a_single_shot_does_not_start_another() {
    let mut adc = device(0x4A, ADS111xConfig::default());
    let start = adc.read_single_voltage(None, SingleShot::Start { retries: None }, [0, 0]);
    assert!(matches!(start, SingleShotStep::WriteThenRead { word, .. } if word & 0x8000 != 0));
    assert_eq!(adc.config().osw, OSW::StartConversion);
    let frame = adc.write_config(None);
    assert_eq!(frame[1] & 0x80, 0);
    assert_eq!(adc.config().osw, OSW::Idle);
}

#[test]
fn read_config_unpacks_the_reply() {
    let mut adc = device(0x4B, ADS111xConfig { osw: OSW::StartConversion, ..ADS111xConfig::default() });
    let read = adc.read_config([0x85, 0x83]);
    assert_eq!(read, ADS111xConfig::default());
    assert_eq!(adc.config(), ADS111xConfig::default());
    let busy = adc.read_config([0x05, 0x83]);
    assert_eq!(busy.osr, OSR::PerformingConversion);
    assert_eq!(busy, ADS111xConfig { osr: OSR::PerformingConversion, ..ADS111xConfig::default() });
}

/// A converter that reports busy for a number of status reads and then
/// idle, and records what it was asked.
struct FakeConverter {
    busy_reads: u32,
    conversion: [u8; 2],
    log: Vec<(u8, Option<u16>)>,
}

impl FakeConverter {
    fn transfer(&mut self, register: u8, written: Option<u16>) -> [u8; 2] {
        self.log.push((register, written));
        if register == CONVERSION_REGISTER {
            self.conversion
        } else if self.busy_reads > 0 {
            self.busy_reads -= 1;
            [0x05, 0x83]
        } else {
            [0x85, 0x83]
        }
    }
}

fn run_single_shot(
    adc: &mut ADS111x,
    converter: &mut FakeConverter,
    mux: Option<InputMultiplexer>,
    retries: Option<u32>,
) -> Option<ConversionResult> {
    let mut state = SingleShot::Start { retries };
    let mut reply = [0xAA, 0xAA];
    for _ in 0..10_000 {
        match adc.read_single_voltage(mux, state, reply) {
            SingleShotStep::WriteThenRead { register, word, then } => {
                reply = converter.transfer(register, Some(word));
                state = then;
            }
            SingleShotStep::Read { register, then } => {
                reply = converter.transfer(register, None);
                state = then;
            }
            SingleShotStep::Finished { result } => return result,
        }
    }
    panic!("the conversion did not end");
}

#[test]
fn single_shot_sets_trigger_and_mux() {
    let mut adc = device(0x48, ADS111xConfig::default().pga(ProgramableGainAmplifier::V6_144));
    let step = adc.read_single_voltage(
        Some(InputMultiplexer::AIN0GND),
        SingleShot::Start { retries: Some(4) },
        [0, 0],
    );
    assert_eq!(
        step,
        SingleShotStep::WriteThenRead {
            register: CONFIG_REGISTER,
            word: 0xC183,
            then: SingleShot::Polling { retries_left: Some(4) }
        }
    );
    assert_eq!(adc.config().mux, InputMultiplexer::AIN0GND);
    assert_eq!(adc.config().osw, OSW::StartConversion);
    let again = adc.read_single_voltage(None, SingleShot::Start { retries: None }, [0, 0]);
    assert_eq!(
        again,
        SingleShotStep::WriteThenRead {
            register: CONFIG_REGISTER,
            word: 0xC183,
            then: SingleShot::Polling { retries_left: None }
        }
    );
}

#[test]
fn single_shot_polls_until_idle_then_reads_the_conversion() {
    let mut adc = device(0x48, ADS111xConfig::default().pga(ProgramableGainAmplifier::V2_048));
    let mut converter = FakeConverter { busy_reads: 3, conversion: [0x40, 0x00], log: Vec::new() };
    let result = run_single_shot(&mut adc, &mut converter, Some(InputMultiplexer::AIN2AIN3), None);
    assert_eq!(
        result,
        Some(ConversionResult { raw: 16384, gain: ProgramableGainAmplifier::V2_048 })
    );
    assert_eq!(
        converter.log,
        vec![
            (CONFIG_REGISTER, Some(0xB583)),
            (CONFIG_REGISTER, None),
            (CONFIG_REGISTER, None),
            (CONFIG_REGISTER, None),
            (CONVERSION_REGISTER, None),
        ]
    );
}

#[test]
fn single_shot_reads_at_once_when_the_first_status_is_idle() {
    let mut adc = device(0x49, ADS111xConfig::default());
    let mut converter = FakeConverter { busy_reads: 0, conversion: [0xFF, 0xFE], log: Vec::new() };
    let result = run_single_shot(&mut adc, &mut converter, None, Some(0));
    assert_eq!(result, Some(ConversionResult { raw: -2, gain: ProgramableGainAmplifier::V2_048 }));
    assert_eq!(converter.log, vec![(CONFIG_REGISTER, Some(0x8583)), (CONVERSION_REGISTER, None)]);
}

#[test]
fn single_shot_with_a_bound_gives_up_on_a_device_that_stays_busy() {
    let mut adc = device(0x48, ADS111xConfig::default());
    let mut converter =
        FakeConverter { busy_reads: u32::MAX, conversion: [0x12, 0x34], log: Vec::new() };
    let result = run_single_shot(&mut adc, &mut converter, None, Some(5));
    assert_eq!(result, None);
    assert_eq!(converter.log.len(), 6);
    assert!(converter.log.iter().all(|(register, _)| *register == CONFIG_REGISTER));
}

#[test]
fn single_shot_with_a_bound_succeeds_when_the_device_is_in_time() {
    let mut adc = device(0x48, ADS111xConfig::default());
    let mut converter = FakeConverter { busy_reads: 5, conversion: [0x12, 0x34], log: Vec::new() };
    let result = run_single_shot(&mut adc, &mut converter, None, Some(5));
    assert_eq!(
        result,
        Some(ConversionResult { raw: 0x1234, gain: ProgramableGainAmplifier::V2_048 })
    );
    assert_eq!(converter.log.len(), 7);
}

#[test]
fn single_shot_steps_after_the_first_leave_the_settings_alone() {
    let mut adc = device(0x48, ADS111xConfig::default());
    let before = adc.config();
    let step = adc.read_single_voltage(
        Some(InputMultiplexer::AIN3GND),
        SingleShot::Polling { retries_left: None },
        [0x00, 0x00],
    );
    assert_eq!(
        step,
        SingleShotStep::Read {
            register: CONFIG_REGISTER,
            then: SingleShot::Polling { retries_left: None }
        }
    );
    assert_eq!(adc.config(), before);
    let step =
        adc.read_single_voltage(Some(InputMultiplexer::AIN3GND), SingleShot::Reading, [0x80, 0x00]);
    assert_eq!(
        step,
        SingleShotStep::Finished {
            result: Some(ConversionResult {
                raw: i16::MIN,
                gain: ProgramableGainAmplifier::V2_048
            })
        }
    );
    assert_eq!(adc.config(), before);
}

#[test]
fn poll_reports_ready_when_the_device_is_idle() {
    assert_eq!(ADS111x::poll_conversion([0x80, 0x00], None), ConversionPoll::Ready);
    assert_eq!(ADS111x::poll_conversion([0xFF, 0xFF], Some(0)), ConversionPoll::Ready);
    assert_eq!(ADS111x::poll_conversion([0x85, 0x83], Some(7)), ConversionPoll::Ready);
}

#[test]
fn poll_without_a_bound_asks_again_for_ever() {
    let mut allowance = None;
    for _ in 0..1000 {
        match ADS111x::poll_conversion([0x05, 0x83], allowance) {
            ConversionPoll::Again { retries_left } => allowance = retries_left,
            other => panic!("unexpected {:?}", other),
        }
    }
    assert_eq!(allowance, None);
}

#[test]
fn poll_with_a_bound_gives_up_after_that_many_reads() {
    let mut allowance = Some(3u32);
    let mut reads = 0;
    loop {
        match ADS111x::poll_conversion([0x7F, 0xFF], allowance) {
            ConversionPoll::Again { retries_left } => {
                reads += 1;
                allowance = retries_left;
            }
            ConversionPoll::GaveUp => break,
            ConversionPoll::Ready => panic!("a busy device was taken for idle"),
        }
    }
    assert_eq!(reads, 3);
    assert_eq!(ADS111x::poll_conversion([0x00, 0x00], Some(0)), ConversionPoll::GaveUp);
    assert_eq!(
        ADS111x::poll_conversion([0x00, 0x00], Some(1)),
        ConversionPoll::Again { retries_left: Some(0) }
    );
}

#[test]
fn conversion_ready_is_the_top_bit() {
    let mut adc = device(0x48, ADS111xConfig::default());
    for high in 0..=u8::MAX {
        assert_eq!(adc.check_cnversion_ready([high, 0x00]), high >= 0x80);
        assert_eq!(adc.check_cnversion_ready([high, 0xFF]), high >= 0x80);
    }
}

#[test]
fn read_voltage_takes_the_sample_and_the_held_gain() {
    let adc = device(0x48, ADS111xConfig::default().pga(ProgramableGainAmplifier::V4_096));
    let result = adc.read_voltage([0x40, 0x00]);
    assert_eq!(result, ConversionResult { raw: 16384, gain: ProgramableGainAmplifier::V4_096 });
    let negative = adc.read_voltage([0xFF, 0xFF]);
    assert_eq!(negative.raw, -1);
    let lowest = adc.read_voltage([0x80, 0x00]);
    assert_eq!(lowest.raw, i16::MIN);
    let zero = adc.read_voltage([0x00, 0x00]);
    assert_eq!(zero.raw, 0);
    assert_eq!(zero.picovolts(), 0);
}

#[test]
fn quarter_scale_at_two_volts_is_1_024_volts() {
    let result = ConversionResult { raw: 16384, gain: ProgramableGainAmplifier::V2_048 };
    assert_eq!(result.picovolts(), 1_024_000_000_000);
    let volts = result.picovolts() as f64 / 1e12;
    assert_eq!(volts, 1.024);
    assert_eq!(volts as f32, 16384f32 * 2.048f32 / 32768f32);
}

#[test]
fn scaled_voltage_is_raw_times_full_scale_over_32768() {
    for gain in GAINS {
        let full_scale = gain.full_scale() as i128;
        for raw in [i16::MIN, -12345, -1, 0, 1, 2, 777, 16384, i16::MAX] {
            let result = ConversionResult { raw, gain };
            let numerator = raw as i128 * full_scale * 1_000_000;
            assert_eq!(numerator % 32768, 0);
            assert_eq!(result.picovolts() as i128, numerator / 32768);
        }
    }
    assert_eq!(ProgramableGainAmplifier::V6_144.full_scale(), 6_144_000);
    assert_eq!(ProgramableGainAmplifier::V4_096.full_scale(), 4_096_000);
    assert_eq!(ProgramableGainAmplifier::V2_048.full_scale(), 2_048_000);
    assert_eq!(ProgramableGainAmplifier::V1_024.full_scale(), 1_024_000);
    assert_eq!(ProgramableGainAmplifier::V0_512.full_scale(), 512_000);
    assert_eq!(ProgramableGainAmplifier::V0_256.full_scale(), 256_000);
    assert_eq!(
        ConversionResult { raw: i16::MAX, gain: ProgramableGainAmplifier::V6_144 }.picovolts(),
        6_143_812_500_000
    );
    assert_eq!(
        ConversionResult { raw: i16::MIN, gain: ProgramableGainAmplifier::V0_256 }.picovolts(),
        -256_000_000_000
    );
}

#[test]
fn threshold_frames_are_big_endian_twos_complement() {
    let adc = device(0x48, ADS111xConfig::default());
    assert_eq!(adc.set_low_treshold(0x1234), [0x02, 0x12, 0x34]);
    assert_eq!(adc.set_high_treshold(0x1234), [0x03, 0x12, 0x34]);
    assert_eq!(adc.set_low_treshold(-1), [0x02, 0xFF, 0xFF]);
    assert_eq!(adc.set_high_treshold(i16::MIN), [0x03, 0x80, 0x00]);
    assert_eq!(adc.set_high_treshold(i16::MAX), [0x03, 0x7F, 0xFF]);
    assert_eq!(adc.set_low_treshold(-2048), [0x02, 0xF8, 0x00]);
}

#[test]
fn bus_words_are_most_significant_byte_first() {
    assert_eq!(write_frame(0x0C, 0xABCD), [0x0C, 0xAB, 0xCD]);
    assert_eq!(read_word([0xAB, 0xCD]), 0xABCD);
    for word in 0..=u16::MAX {
        let frame = write_frame(7, word);
        assert_eq!([frame[1], frame[2]], word.to_be_bytes());
        assert_eq!(read_word([frame[1], frame[2]]), word);
        assert_eq!(to_signed(word), i16::from_be_bytes(word.to_be_bytes()));
        assert_eq!(from_signed(to_signed(word)), word);
    }
}
