//! Two cascaded 8-bit shift registers with output latches, driven over
//! three lines: serial data, shift clock and storage clock.
//!
//! A frame of sixteen bits is shifted in one bit per pulse of the shift
//! clock, bit 0 first. One pulse of the storage clock then copies all
//! sixteen stages to the output pins at once.

use super::bit_of;
use vstd::prelude::*;

verus! {

/// Time for the data line to settle before the shift clock rises, and
/// time that the shift clock stays high, in microseconds.
pub const SHIFT_DWELL_MICROS: u64 = 1;

/// Time that the storage clock stays high, in microseconds.
pub const LATCH_DWELL_MICROS: u64 = 5;

/// One of the three lines to the shift registers.
#[derive(Debug, Clone, Copy, PartialEq, Eq, Structural)]
pub enum Line {
    Serial,
    ShiftClock,
    StorageClock,
}

/// One thing to do on the lines.
#[derive(Debug, Clone, Copy, PartialEq, Eq, Structural)]
pub enum PinStep {
    /// Put `line` high or low.
    Drive { line: Line, high: bool },
    /// Let at least `micros` microseconds pass.
    Wait { micros: u64 },
}

/// The steps that shift one bit in: the data line takes the bit's level
/// and settles, then the shift clock goes high and low again.
pub open spec fn bit_steps(high: bool) -> Seq<PinStep> {
    seq![
        PinStep::Drive { line: Line::Serial, high },
        PinStep::Wait { micros: SHIFT_DWELL_MICROS },
        PinStep::Drive { line: Line::ShiftClock, high: true },
        PinStep::Wait { micros: SHIFT_DWELL_MICROS },
        PinStep::Drive { line: Line::ShiftClock, high: false },
    ]
}

/// The steps that shift the lowest `count` bits of `data` in, bit 0 first.
pub open spec fn shift_steps(data: u16, count: nat) -> Seq<PinStep>
    decreases count,
{
    if count == 0 {
        Seq::empty()
    } else {
        shift_steps(data, (count - 1) as nat) + bit_steps(bit_of(data as int, (count - 1) as nat))
    }
}

/// The steps that end a frame: the data line goes back to low, and the
/// storage clock goes high for its dwell time and low again.
pub open spec fn latch_steps() -> Seq<PinStep> {
    seq![
        PinStep::Drive { line: Line::Serial, high: false },
        PinStep::Drive { line: Line::StorageClock, high: true },
        PinStep::Wait { micros: LATCH_DWELL_MICROS },
        PinStep::Drive { line: Line::StorageClock, high: false },
    ]
}

/// The steps that send `data` as one frame.
pub open spec fn frame_steps(data: u16) -> Seq<PinStep> {
    shift_steps(data, 16) + latch_steps()
}

/// The pair of shift registers.
pub struct DualC595ShiftRegister {}

impl DualC595ShiftRegister {
    /// The steps that send `data` as one frame, in the order in which
    /// they are to be done.
    pub fn write(data: u16) -> (steps: [PinStep; 84])
        ensures
            steps@ == frame_steps(data),
    {
        let mut steps: [PinStep; 84] = [PinStep::Wait { micros: 0 };84];
        assert(steps@.subrange(0, 0) =~= shift_steps(data, 0));
        for i in 0..16usize
            invariant
                steps@.subrange(0, 5 * i as int) == shift_steps(data, i as nat),
        {
            let high: bool = data & (1u16 << (i as u16)) != 0;
            proof {
                let bit = i as u16;
                assert((data & (1u16 << bit) != 0) == ((data >> bit) % 2 == 1)) by (bit_vector)
                    requires
                        bit < 16,
                ;
                vstd::bits::lemma_u16_shr_is_div(data, bit);
            }
            let ghost before = steps@.subrange(0, 5 * i as int);
            let base: usize = 5 * i;
            steps[base] = PinStep::Drive { line: Line::Serial, high };
            steps[base + 1] = PinStep::Wait { micros: SHIFT_DWELL_MICROS };
            steps[base + 2] = PinStep::Drive { line: Line::ShiftClock, high: true };
            steps[base + 3] = PinStep::Wait { micros: SHIFT_DWELL_MICROS };
            steps[base + 4] = PinStep::Drive { line: Line::ShiftClock, high: false };
            assert(steps@.subrange(0, 5 * (i + 1) as int) =~= before + bit_steps(high));
        }
        let ghost shifted = steps@.subrange(0, 80);
        steps[80] = PinStep::Drive { line: Line::Serial, high: false };
        steps[81] = PinStep::Drive { line: Line::StorageClock, high: true };
        steps[82] = PinStep::Wait { micros: LATCH_DWELL_MICROS };
        steps[83] = PinStep::Drive { line: Line::StorageClock, high: false };
        assert(steps@ =~= shifted + latch_steps());
        steps
    }

    /// The steps that turn all sixteen outputs off.
    pub fn clear() -> (steps: [PinStep; 84])
        ensures
            steps@ == frame_steps(0),
    {
        DualC595ShiftRegister::write(0)
    }
}

/// The lines and the two chips as the steps act on them.
///
/// `stages` are the sixteen stages of the shift registers, counted from
/// the data input: stage 0 holds the bit that was shifted in last.
/// `outputs` are the sixteen output pins, of which pin `k` shows what
/// stage `k` held when the storage clock last rose.
pub struct Chain {
    pub serial: bool,
    pub shift_clock: bool,
    pub storage_clock: bool,
    pub stages: Seq<bool>,
    pub outputs: Seq<bool>,
}

impl Chain {
    /// The chain after one step. A rising shift clock moves every stage on
    /// by one and takes the data line into stage 0. A rising storage clock
    /// copies the stages to the outputs. Nothing else changes a stage or
    /// an output.
    pub open spec fn after_step(self, step: PinStep) -> Chain {
        match step {
            PinStep::Wait { micros } => self,
            PinStep::Drive { line: Line::Serial, high } => Chain { serial: high, ..self },
            PinStep::Drive { line: Line::ShiftClock, high } => Chain {
                shift_clock: high,
                stages: if high && !self.shift_clock {
                    seq![self.serial] + self.stages.drop_last()
                } else {
                    self.stages
                },
                ..self
            },
            PinStep::Drive { line: Line::StorageClock, high } => Chain {
                storage_clock: high,
                outputs: if high && !self.storage_clock {
                    self.stages
                } else {
                    self.outputs
                },
                ..self
            },
        }
    }

    /// The chain after a sequence of steps.
    pub open spec fn after(self, steps: Seq<PinStep>) -> Chain
        decreases steps.len(),
    {
        if steps.len() == 0 {
            self
        } else {
            self.after(steps.drop_last()).after_step(steps.last())
        }
    }

    /// The chain is at rest between frames: sixteen stages, both clocks
    /// low.
    pub open spec fn at_rest(self) -> bool {
        &&& self.stages.len() == 16
        &&& !self.shift_clock
        &&& !self.storage_clock
    }
}

/// Doing one sequence of steps and then another is doing the two in a row.
pub proof fn lemma_after_concat(chain: Chain, first: Seq<PinStep>, second: Seq<PinStep>)
    ensures
        chain.after(first + second) == chain.after(first).after(second),
    decreases second.len(),
{
    if second.len() == 0 {
        assert(first + second =~= first);
    } else {
        assert((first + second).drop_last() =~= first + second.drop_last());
        assert((first + second).last() == second.last());
        lemma_after_concat(chain, first, second.drop_last());
    }
}

/// Shifting one bit in, from a low shift clock: the bit is in stage 0,
/// every other stage holds what the stage before it held, and the shift
/// clock is low again. The storage clock and the outputs are as before.
pub proof fn lemma_bit_shifts_in(chain: Chain, high: bool)
    requires
        !chain.shift_clock,
    ensures
        chain.after(bit_steps(high)) == (Chain {
            serial: high,
            stages: seq![high] + chain.stages.drop_last(),
            ..chain
        }),
{
    let steps = bit_steps(high);
    let s4 = steps.drop_last();
    let s3 = s4.drop_last();
    let s2 = s3.drop_last();
    let s1 = s2.drop_last();
    assert(s1.drop_last().len() == 0);
    let c1 = chain.after(s1);
    assert(c1 == Chain { serial: high, ..chain }) by {
        assert(chain.after(s1.drop_last()) == chain);
    }
    let c2 = chain.after(s2);
    assert(c2 == c1);
    let c3 = chain.after(s3);
    assert(c3 == Chain {
        shift_clock: true,
        stages: seq![high] + chain.stages.drop_last(),
        ..c1
    });
    let c4 = chain.after(s4);
    assert(c4 == c3);
}

/// What shifting the lowest `count` bits of `data` in leaves behind: the
/// bit shifted in last is in stage 0, the one before it in stage 1, and so
/// on; what the stages held before has moved on by `count`. The outputs
/// have not changed.
pub proof fn lemma_shift_fills_stages(chain: Chain, data: u16, count: nat)
    requires
        chain.stages.len() == 16,
        !chain.shift_clock,
        count <= 16,
    ensures
        ({
            let end = chain.after(shift_steps(data, count));
            &&& end.stages.len() == 16
            &&& !end.shift_clock
            &&& end.storage_clock == chain.storage_clock
            &&& end.outputs == chain.outputs
            &&& forall|k: int|
                0 <= k < 16 ==> #[trigger] end.stages[k] == if k < count {
                    bit_of(data as int, (count - 1 - k) as nat)
                } else {
                    chain.stages[k - count]
                }
        }),
    decreases count,
{
    if count == 0 {
    } else {
        let before = (count - 1) as nat;
        lemma_shift_fills_stages(chain, data, before);
        let mid = chain.after(shift_steps(data, before));
        let high = bit_of(data as int, before);
        lemma_after_concat(chain, shift_steps(data, before), bit_steps(high));
        lemma_bit_shifts_in(mid, high);
        let end = chain.after(shift_steps(data, count));
        assert(end.stages == seq![high] + mid.stages.drop_last());
        assert forall|k: int| 0 <= k < 16 implies #[trigger] end.stages[k] == if k < count {
            bit_of(data as int, (count - 1 - k) as nat)
        } else {
            chain.stages[k - count]
        } by {
            if k > 0 {
                assert(end.stages[k] == mid.stages[k - 1]);
            }
        }
    }
}

/// A frame reaches the outputs. From a chain at rest, after the steps of
/// a frame output pin `k` shows bit `15 - k` of the data: the bit sent
/// last sits next to the data input. All three lines are low again.
pub proof fn lemma_frame_reaches_outputs(chain: Chain, data: u16)
    requires
        chain.at_rest(),
    ensures
        ({
            let end = chain.after(frame_steps(data));
            &&& end.at_rest()
            &&& !end.serial
            &&& end.outputs.len() == 16
            &&& forall|k: int|
                0 <= k < 16 ==> #[trigger] end.outputs[k] == bit_of(data as int, (15 - k) as nat)
        }),
{
    lemma_shift_fills_stages(chain, data, 16);
    lemma_after_concat(chain, shift_steps(data, 16), latch_steps());
    let mid = chain.after(shift_steps(data, 16));
    let steps = latch_steps();
    let s3 = steps.drop_last();
    let s2 = s3.drop_last();
    let s1 = s2.drop_last();
    assert(s1.drop_last().len() == 0);
    let c1 = mid.after(s1);
    assert(c1 == Chain { serial: false, ..mid }) by {
        assert(mid.after(s1.drop_last()) == mid);
    }
    let c2 = mid.after(s2);
    assert(c2 == Chain { storage_clock: true, outputs: mid.stages, ..c1 });
    let c3 = mid.after(s3);
    assert(c3 == c2);
    let end = mid.after(steps);
    assert(end == Chain { storage_clock: false, ..c2 });
}

/// Steps that never raise the storage clock leave the outputs alone.
pub proof fn lemma_outputs_follow_storage_clock(chain: Chain, steps: Seq<PinStep>)
    requires
        forall|i: int|
            0 <= i < steps.len() ==> #[trigger] steps[i] != (PinStep::Drive {
                line: Line::StorageClock,
                high: true,
            }),
    ensures
        chain.after(steps).outputs == chain.outputs,
    decreases steps.len(),
{
    if steps.len() > 0 {
        let head = steps.drop_last();
        assert forall|i: int| 0 <= i < head.len() implies #[trigger] head[i] != (PinStep::Drive {
            line: Line::StorageClock,
            high: true,
        }) by {
            assert(head[i] == steps[i]);
        }
        lemma_outputs_follow_storage_clock(chain, head);
        assert(steps.last() == steps[steps.len() - 1]);
    }
}

/// The layout of a frame: five steps for each of the sixteen bits, bit 0
/// first, then the four steps of the latch.
pub proof fn lemma_frame_layout(data: u16)
    ensures
        frame_steps(data).len() == 84,
        forall|i: int|
            0 <= i < 16 ==> #[trigger] frame_steps(data).subrange(5 * i, 5 * i + 5) == bit_steps(
                bit_of(data as int, i as nat),
            ),
        frame_steps(data).subrange(80, 84) == latch_steps(),
{
    lemma_shift_layout(data, 16);
    let frame = frame_steps(data);
    let shifted = shift_steps(data, 16);
    assert forall|i: int| 0 <= i < 16 implies #[trigger] frame.subrange(5 * i, 5 * i + 5)
        == bit_steps(bit_of(data as int, i as nat)) by {
        assert(frame.subrange(5 * i, 5 * i + 5) =~= shifted.subrange(5 * i, 5 * i + 5));
    }
    assert(frame.subrange(80, 84) =~= latch_steps());
}

/// The layout of the shifting part of a frame.
pub proof fn lemma_shift_layout(data: u16, count: nat)
    ensures
        shift_steps(data, count).len() == 5 * count,
        forall|i: int|
            0 <= i < count ==> #[trigger] shift_steps(data, count).subrange(5 * i, 5 * i + 5)
                == bit_steps(bit_of(data as int, i as nat)),
    decreases count,
{
    if count > 0 {
        let before = (count - 1) as nat;
        lemma_shift_layout(data, before);
        let head = shift_steps(data, before);
        let whole = shift_steps(data, count);
        assert forall|i: int| 0 <= i < count implies #[trigger] whole.subrange(5 * i, 5 * i + 5)
            == bit_steps(bit_of(data as int, i as nat)) by {
            if i < before {
                assert(whole.subrange(5 * i, 5 * i + 5) =~= head.subrange(5 * i, 5 * i + 5));
            } else {
                assert(whole.subrange(5 * i, 5 * i + 5) =~= bit_steps(
                    bit_of(data as int, before),
                ));
            }
        }
    }
}

/// No step of the shifting part of a frame touches the storage clock.
pub proof fn lemma_shifting_spares_storage_clock(data: u16, count: nat)
    ensures
        forall|i: int|
            0 <= i < shift_steps(data, count).len() ==> #[trigger] shift_steps(data, count)[i] != (
            PinStep::Drive { line: Line::StorageClock, high: true }),
    decreases count,
{
    if count > 0 {
        let before = (count - 1) as nat;
        lemma_shifting_spares_storage_clock(data, before);
        let head = shift_steps(data, before);
        let tail = bit_steps(bit_of(data as int, before));
        let whole = shift_steps(data, count);
        assert(whole == head + tail);
        assert forall|i: int| 0 <= i < whole.len() implies #[trigger] whole[i] != (PinStep::Drive {
            line: Line::StorageClock,
            high: true,
        }) by {
            if i < head.len() {
                assert(whole[i] == head[i]);
            } else {
                assert(whole[i] == tail[i - head.len()]);
            }
        }
    }
}

/// Nothing shows on the outputs before the frame is complete: up to and
/// including the step that puts the data line back to low, the outputs
/// are what they were before the frame. They change on the step after
/// that, when the storage clock rises.
pub proof fn lemma_outputs_hold_until_latch(chain: Chain, data: u16, done: int)
    requires
        0 <= done <= 81,
    ensures
        chain.after(frame_steps(data).take(done)).outputs == chain.outputs,
{
    lemma_shift_layout(data, 16);
    lemma_shifting_spares_storage_clock(data, 16);
    let shifted = shift_steps(data, 16);
    let frame = frame_steps(data);
    let part = frame.take(done);
    assert(shifted.len() == 80);
    assert forall|i: int| 0 <= i < part.len() implies #[trigger] part[i] != (PinStep::Drive {
        line: Line::StorageClock,
        high: true,
    }) by {
        assert(part[i] == frame[i]);
        if i < 80 {
            assert(frame[i] == shifted[i]);
        } else {
            assert(frame[i] == latch_steps()[0]);
        }
    }
    lemma_outputs_follow_storage_clock(chain, part);
}

} // verus!
