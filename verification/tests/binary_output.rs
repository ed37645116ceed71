use io_expander::iox::binary_output::dual_c595_shift_register::{
    DualC595ShiftRegister, Line, PinStep, LATCH_DWELL_MICROS, SHIFT_DWELL_MICROS,
};
use io_expander::iox::binary_output::{
    bitmask_for_index, BinaryOutput, ShiftRegister, ShiftRegisterOutputs, SioOutput,
};

/// Two cascaded shift registers with output latches, as the steps act on
/// them. Stage 0 is next to the data input.
struct Chips {
    serial: bool,
    shift_clock: bool,
    storage_clock: bool,
    stages: [bool; 16],
    outputs: [bool; 16],
    shift_pulses: usize,
    latch_pulses: usize,
    output_changes: usize,
}

impl Chips {
    fn new() -> Self {
        Chips {
            serial: false,
            shift_clock: false,
            storage_clock: false,
            stages: [false; 16],
            outputs: [false; 16],
            shift_pulses: 0,
            latch_pulses: 0,
            output_changes: 0,
        }
    }

    fn play(&mut self, steps: &[PinStep]) {
        for step in steps {
            match *step {
                PinStep::Wait { .. } => {}
                PinStep::Drive { line: Line::Serial, high } => self.serial = high,
                PinStep::Drive { line: Line::ShiftClock, high } => {
                    if high && !self.shift_clock {
                        for k in (1..16).rev() {
                            self.stages[k] = self.stages[k - 1];
                        }
                        self.stages[0] = self.serial;
                        self.shift_pulses += 1;
                    }
                    self.shift_clock = high;
                }
                PinStep::Drive { line: Line::StorageClock, high } => {
                    if high && !self.storage_clock {
                        if self.outputs != self.stages {
                            self.output_changes += 1;
                        }
                        self.outputs = self.stages;
                        self.latch_pulses += 1;
                    }
                    self.storage_clock = high;
                }
            }
        }
    }
}

#[test]
fn bitmask_is_one_shifted_by_the_index() {
    for index in 0..16usize {
        assert_eq!(bitmask_for_index(index), 1u16 << index);
    }
    assert_eq!(bitmask_for_index(0), 1);
    assert_eq!(bitmask_for_index(15), 0x8000);
}

#[test]
fn new_outputs_are_all_off() {
    assert_eq!(ShiftRegisterOutputs::new().get_value(), 0);
}

#[test]
fn each_output_sets_its_own_bit() {
    for index in 0..16usize {
        let mut outputs = ShiftRegisterOutputs::new();
        outputs.set_output(index, true);
        assert_eq!(outputs.get_value(), 1u16 << index);
        outputs.set_output(index, false);
        assert_eq!(outputs.get_value(), 0);
    }
}

#[test]
fn value_is_the_sum_of_the_bits_that_are_on() {
    for pattern in [0u16, 1, 0x8000, 0x8001, 0x00FF, 0xFF00, 0xA5A5, 0x5A5A, 0x1234, 0xFFFF] {
        let mut outputs = ShiftRegisterOutputs::new();
        for index in 0..16usize {
            outputs.set_output(index, pattern & (1 << index) != 0);
        }
        assert_eq!(outputs.get_value(), pattern);
    }
}

#[test]
fn set_output_leaves_the_other_outputs_alone() {
    let mut outputs = ShiftRegisterOutputs::new();
    outputs.set_output(3, true);
    outputs.set_output(12, true);
    assert_eq!(outputs.get_value(), 0x1008);
    outputs.set_output(3, true);
    assert_eq!(outputs.get_value(), 0x1008);
    outputs.set_output(3, false);
    assert_eq!(outputs.get_value(), 0x1000);
}

#[test]
fn clear_turns_everything_off() {
    let mut outputs = ShiftRegisterOutputs::new();
    for index in 0..16usize {
        outputs.set_output(index, true);
    }
    assert_eq!(outputs.get_value(), 0xFFFF);
    outputs.clear();
    assert_eq!(outputs.get_value(), 0);
}

#[test]
fn frame_with_only_bit_15_set() {
    let steps = DualC595ShiftRegister::write(0x8000);
    assert_eq!(steps.len(), 84);
    let mut serial = false;
    let mut shift_clock = false;
    let mut storage_clock = false;
    let mut pulses = 0;
    let mut latches = 0;
    let mut latch_dwell = 0;
    for (position, step) in steps.iter().enumerate() {
        match *step {
            PinStep::Drive { line: Line::Serial, high } => serial = high,
            PinStep::Drive { line: Line::ShiftClock, high } => {
                if high && !shift_clock {
                    pulses += 1;
                    assert_eq!(serial, pulses == 16, "data line at pulse {}", pulses);
                    assert_eq!(steps[position - 1], PinStep::Wait { micros: 1 });
                    assert_eq!(steps[position + 1], PinStep::Wait { micros: 1 });
                }
                shift_clock = high;
            }
            PinStep::Drive { line: Line::StorageClock, high } => {
                if high && !storage_clock {
                    latches += 1;
                    assert_eq!(pulses, 16);
                    assert!(!serial, "the data line idles low before the latch");
                }
                storage_clock = high;
            }
            PinStep::Wait { micros } => {
                if storage_clock {
                    latch_dwell += micros;
                }
            }
        }
    }
    assert_eq!(pulses, 16);
    assert_eq!(latches, 1);
    assert!(latch_dwell >= 5);
    assert!(!serial && !shift_clock && !storage_clock);
}

#[test]
fn frame_layout() {
    assert_eq!(SHIFT_DWELL_MICROS, 1);
    assert_eq!(LATCH_DWELL_MICROS, 5);
    for data in [0u16, 1, 0x8000, 0xA5A5, 0xFFFF, 0x1234] {
        let steps = DualC595ShiftRegister::write(data);
        let mut expected = Vec::new();
        for bit in 0..16 {
            expected.push(PinStep::Drive { line: Line::Serial, high: data & (1 << bit) != 0 });
            expected.push(PinStep::Wait { micros: 1 });
            expected.push(PinStep::Drive { line: Line::ShiftClock, high: true });
            expected.push(PinStep::Wait { micros: 1 });
            expected.push(PinStep::Drive { line: Line::ShiftClock, high: false });
        }
        expected.push(PinStep::Drive { line: Line::Serial, high: false });
        expected.push(PinStep::Drive { line: Line::StorageClock, high: true });
        expected.push(PinStep::Wait { micros: 5 });
        expected.push(PinStep::Drive { line: Line::StorageClock, high: false });
        assert_eq!(steps.to_vec(), expected);
    }
    assert_eq!(DualC595ShiftRegister::clear(), DualC595ShiftRegister::write(0));
}

#[test]
fn bit_15_ends_up_next_to_the_data_input() {
    for data in [0x0001u16, 0x8000, 0xA5A5, 0x1234, 0xFFFE] {
        let mut chips = Chips::new();
        chips.play(&DualC595ShiftRegister::write(data));
        for k in 0..16 {
            assert_eq!(chips.outputs[k], data & (1 << (15 - k)) != 0);
        }
        assert_eq!(chips.shift_pulses, 16);
        assert_eq!(chips.latch_pulses, 1);
    }
}

#[test]
fn outputs_change_only_at_the_latch() {
    let mut chips = Chips::new();
    chips.play(&DualC595ShiftRegister::write(0xFFFF));
    let before = chips.outputs;
    let steps = DualC595ShiftRegister::write(0x0F0F);
    for done in 0..=81 {
        let mut partial = Chips { outputs: before, stages: before, ..Chips::new() };
        partial.play(&steps[..done]);
        assert_eq!(partial.outputs, before, "outputs moved after {} steps", done);
    }
    let mut latched = Chips { outputs: before, stages: before, ..Chips::new() };
    latched.play(&steps[..82]);
    assert_ne!(latched.outputs, before);
    assert_eq!(latched.output_changes, 1);
}

#[test]
fn sio_output_defers_its_level() {
    let mut output = SioOutput::new();
    assert!(!output.flush());
    output.set_deferred(true);
    assert!(output.flush());
    assert!(output.flush());
    output.set_deferred(false);
    assert!(!output.flush());
}

#[test]
fn flush_sends_the_composed_frame() {
    let mut register = ShiftRegister::new();
    assert_eq!(register.flush(), DualC595ShiftRegister::write(0));
    register.set_output(12, true);
    assert_eq!(register.flush(), DualC595ShiftRegister::write(0x1000));
    register.set_output(0, true);
    assert_eq!(register.flush(), DualC595ShiftRegister::write(0x1001));
    register.clear();
    assert_eq!(register.flush(), DualC595ShiftRegister::write(0));
}

#[test]
fn flush_then_clear_sends_the_frame_and_forgets_it() {
    let mut register = ShiftRegister::new();
    register.set_output(13, true);
    assert_eq!(register.flush_then_clear(), DualC595ShiftRegister::write(0x2000));
    assert_eq!(register.flush(), DualC595ShiftRegister::write(0));
    let mut chips = Chips::new();
    register.set_output(13, true);
    chips.play(&register.flush_then_clear());
    assert!(chips.outputs[2]);
    chips.play(&register.flush_then_clear());
    assert_eq!(chips.outputs, [false; 16]);
}

#[test]
fn clear_then_flush_sends_all_off() {
    let mut register = ShiftRegister::new();
    register.set_all_outputs(true);
    assert_eq!(register.clear_then_flush(), DualC595ShiftRegister::write(0));
    assert_eq!(register.flush(), DualC595ShiftRegister::write(0));
}

#[test]
fn set_all_outputs_sets_every_output() {
    let mut register = ShiftRegister::new();
    register.set_all_outputs(true);
    assert_eq!(register.flush(), DualC595ShiftRegister::write(0xFFFF));
    register.set_output(7, false);
    assert_eq!(register.flush(), DualC595ShiftRegister::write(0xFF7F));
    register.set_all_outputs(false);
    assert_eq!(register.flush(), DualC595ShiftRegister::write(0));
}

#[test]
fn composed_outputs_appear_mirrored_on_the_pins() {
    let mut register = ShiftRegister::new();
    register.set_output(0, true);
    register.set_output(5, true);
    register.set_output(15, true);
    let mut chips = Chips::new();
    chips.play(&register.flush());
    for k in 0..16 {
        assert_eq!(chips.outputs[k], k == 15 || k == 10 || k == 0);
    }
}
