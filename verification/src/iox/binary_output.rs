//! On/off outputs: a pin of the controller itself, and sixteen outputs
//! behind a pair of cascaded shift registers.

use self::dual_c595_shift_register::{frame_steps, DualC595ShiftRegister, PinStep};
use vstd::arithmetic::power2::{lemma2_to64, pow2};
use vstd::prelude::*;

pub mod dual_c595_shift_register;

verus! {

/// Whether bit `index` of `word` is set.
pub open spec fn bit_of(word: int, index: nat) -> bool {
    (word / (pow2(index) as int)) % 2 == 1
}

/// The number whose bit `i` is set exactly where `outputs[i]` is on, for
/// `i` below `count`.
pub open spec fn frame_value(outputs: Seq<bool>, count: nat) -> int
    decreases count,
{
    if count == 0 {
        0
    } else {
        frame_value(outputs, (count - 1) as nat) + if outputs[count - 1] {
            pow2((count - 1) as nat) as int
        } else {
            0
        }
    }
}

/// A value made of `count` bits is below 2^`count`.
pub proof fn lemma_frame_value_bound(outputs: Seq<bool>, count: nat)
    ensures
        0 <= frame_value(outputs, count) < pow2(count),
    decreases count,
{
    if count > 0 {
        lemma_frame_value_bound(outputs, (count - 1) as nat);
        vstd::arithmetic::power2::lemma_pow2_unfold(count);
    } else {
        lemma2_to64();
    }
}

/// A value depends only on the outputs it is made of.
pub proof fn lemma_frame_value_depends_on_prefix(a: Seq<bool>, b: Seq<bool>, count: nat)
    requires
        forall|i: int| 0 <= i < count ==> a[i] == b[i],
    ensures
        frame_value(a, count) == frame_value(b, count),
    decreases count,
{
    if count > 0 {
        lemma_frame_value_depends_on_prefix(a, b, (count - 1) as nat);
    }
}

/// Each bit of a sum of sixteen weighted bits is the bit that was put at
/// its place.
proof fn lemma_sixteen_bits(
    b0: u16,
    b1: u16,
    b2: u16,
    b3: u16,
    b4: u16,
    b5: u16,
    b6: u16,
    b7: u16,
    b8: u16,
    b9: u16,
    b10: u16,
    b11: u16,
    b12: u16,
    b13: u16,
    b14: u16,
    b15: u16,
) by (bit_vector)
    requires
        b0 < 2,
        b1 < 2,
        b2 < 2,
        b3 < 2,
        b4 < 2,
        b5 < 2,
        b6 < 2,
        b7 < 2,
        b8 < 2,
        b9 < 2,
        b10 < 2,
        b11 < 2,
        b12 < 2,
        b13 < 2,
        b14 < 2,
        b15 < 2,
    ensures
        ({
            let word = b0 + b1 * 0x2 + b2 * 0x4 + b3 * 0x8 + b4 * 0x10 + b5 * 0x20 + b6 * 0x40 + b7
                * 0x80 + b8 * 0x100 + b9 * 0x200 + b10 * 0x400 + b11 * 0x800 + b12 * 0x1000 + b13
                * 0x2000 + b14 * 0x4000 + b15 * 0x8000;
            &&& (word / 0x1) % 2 == b0
            &&& (word / 0x2) % 2 == b1
            &&& (word / 0x4) % 2 == b2
            &&& (word / 0x8) % 2 == b3
            &&& (word / 0x10) % 2 == b4
            &&& (word / 0x20) % 2 == b5
            &&& (word / 0x40) % 2 == b6
            &&& (word / 0x80) % 2 == b7
            &&& (word / 0x100) % 2 == b8
            &&& (word / 0x200) % 2 == b9
            &&& (word / 0x400) % 2 == b10
            &&& (word / 0x800) % 2 == b11
            &&& (word / 0x1000) % 2 == b12
            &&& (word / 0x2000) % 2 == b13
            &&& (word / 0x4000) % 2 == b14
            &&& (word / 0x8000) % 2 == b15
        }),
{
}

/// 1 for an output that is on, 0 for one that is off.
spec fn level(on: bool) -> u16 {
    if on {
        1
    } else {
        0
    }
}

/// Bit `i` of the value of a frame is output `i`.
pub proof fn lemma_frame_bits(outputs: Seq<bool>, index: nat)
    requires
        index < 16,
    ensures
        bit_of(frame_value(outputs, 16), index) == outputs[index as int],
{
    lemma2_to64();
    reveal_with_fuel(frame_value, 17);
    lemma_sixteen_bits(
        level(outputs[0]),
        level(outputs[1]),
        level(outputs[2]),
        level(outputs[3]),
        level(outputs[4]),
        level(outputs[5]),
        level(outputs[6]),
        level(outputs[7]),
        level(outputs[8]),
        level(outputs[9]),
        level(outputs[10]),
        level(outputs[11]),
        level(outputs[12]),
        level(outputs[13]),
        level(outputs[14]),
        level(outputs[15]),
    );
    let word = frame_value(outputs, 16);
    assert(word == level(outputs[0]) + level(outputs[1]) * 0x2 + level(outputs[2]) * 0x4 + level(
        outputs[3],
    ) * 0x8 + level(outputs[4]) * 0x10 + level(outputs[5]) * 0x20 + level(outputs[6]) * 0x40
        + level(outputs[7]) * 0x80 + level(outputs[8]) * 0x100 + level(outputs[9]) * 0x200 + level(
        outputs[10],
    ) * 0x400 + level(outputs[11]) * 0x800 + level(outputs[12]) * 0x1000 + level(outputs[13])
        * 0x2000 + level(outputs[14]) * 0x4000 + level(outputs[15]) * 0x8000);
}

/// The value with only bit `index` set.
pub fn bitmask_for_index(index: usize) -> (r: u16)
    requires
        index < 16,
    ensures
        r == pow2(index as nat),
        r == 1u16 << (index as u16),
{
    proof {
        lemma2_to64();
        vstd::bits::lemma_u16_shl_is_mul(1u16, index as u16);
    }
    1u16 << (index as u16)
}

/// Something that can be told its next level ahead of the moment at which
/// the level is put out.
pub trait BinaryOutput {
    fn set_deferred(&mut self, val: bool);
}

/// An output pin of the controller with the level it is to take next.
#[derive(Debug, Clone, Copy, PartialEq, Eq, Structural)]
pub struct SioOutput {
    pub deferred_val: bool,
}

impl SioOutput {
    /// An output that will go low.
    pub fn new() -> (r: Self)
        ensures
            r.deferred_val == false,
    {
        SioOutput { deferred_val: false }
    }

    /// The level to put on the pin now: `true` for high.
    pub fn flush(&self) -> (high: bool)
        ensures
            high == self.deferred_val,
    {
        match self.deferred_val {
            true => true,
            false => false,
        }
    }
}

impl BinaryOutput for SioOutput {
    fn set_deferred(&mut self, val: bool)
        ensures
            final(self).deferred_val == val,
    {
        self.deferred_val = val;
    }
}

/// Sixteen outputs, each on or off, addressed by position 0 to 15.
#[derive(Debug)]
pub struct ShiftRegisterOutputs {
    outputs: [bool; 16],
}

impl View for ShiftRegisterOutputs {
    type V = Seq<bool>;

    closed spec fn view(&self) -> Seq<bool> {
        self.outputs@
    }
}

impl ShiftRegisterOutputs {
    /// All outputs off.
    pub fn new() -> (r: Self)
        ensures
            r@ == Seq::new(16, |i: int| false),
    {
        let outputs = [false; 16];
        assert(outputs@ =~= Seq::new(16, |i: int| false));
        ShiftRegisterOutputs { outputs }
    }

    /// There are always sixteen outputs.
    pub proof fn lemma_len(&self)
        ensures
            self@.len() == 16,
    {
    }

    /// Turns the output at `index` on or off and leaves the others as they
    /// are.
    pub fn set_output(&mut self, index: usize, value: bool)
        requires
            index < 16,
        ensures
            final(self)@ == old(self)@.update(index as int, value),
    {
        self.outputs[index] = value;
    }

    /// Turns all outputs off.
    pub fn clear(&mut self)
        ensures
            final(self)@ == Seq::new(16, |i: int| false),
    {
        self.outputs = [false; 16];
        assert(self.outputs@ =~= Seq::new(16, |i: int| false));
    }

    /// The 16-bit value to transmit: bit `i` is set where output `i` is on.
    pub fn get_value(&self) -> (r: u16)
        ensures
            r == frame_value(self@, 16),
    {
        let mut value: u16 = 0;
        proof {
            lemma2_to64();
        }
        for i in 0..16usize
            invariant
                value == frame_value(self@, i as nat),
        {
            proof {
                lemma_frame_value_bound(self@, i as nat);
                lemma2_to64();
            }
            if self.outputs[i] {
                let mask: u16 = bitmask_for_index(i);
                assert(value | mask == value + mask && value + mask < 0x1_0000) by (bit_vector)
                    requires
                        mask == 1u16 << (i as u16),
                        i < 16,
                        value < mask,
                ;
                value |= mask;
            }
        }
        value
    }
}

/// The sixteen outputs as they are being composed, to be sent to the
/// shift registers as one frame.
#[derive(Debug)]
pub struct ShiftRegister {
    out: ShiftRegisterOutputs,
}

impl View for ShiftRegister {
    type V = Seq<bool>;

    closed spec fn view(&self) -> Seq<bool> {
        self.out@
    }
}

impl ShiftRegister {
    /// All outputs off.
    pub fn new() -> (r: Self)
        ensures
            r@ == Seq::new(16, |i: int| false),
    {
        ShiftRegister { out: ShiftRegisterOutputs::new() }
    }

    /// Turns all outputs off in the frame being composed. Nothing is sent.
    pub fn clear(&mut self)
        ensures
            final(self)@ == Seq::new(16, |i: int| false),
    {
        self.out.clear();
    }

    /// Turns all outputs off, and returns the steps that send this to the
    /// shift registers: a level that stays.
    pub fn clear_then_flush(&mut self) -> (steps: [PinStep; 84])
        ensures
            final(self)@ == Seq::new(16, |i: int| false),
            steps@ == frame_steps(0),
    {
        self.clear();
        proof {
            lemma_frame_value_depends_on_prefix(self@, Seq::new(16, |i: int| false), 16);
            lemma_all_off_is_zero(16);
        }
        self.flush()
    }

    /// Returns the steps that send the outputs as they are now, and turns
    /// all outputs off for the frame after that: a pulse that lasts until
    /// the next frame is sent.
    pub fn flush_then_clear(&mut self) -> (steps: [PinStep; 84])
        ensures
            final(self)@ == Seq::new(16, |i: int| false),
            steps@ == frame_steps(frame_value(old(self)@, 16) as u16),
    {
        let steps = self.flush();
        self.clear();
        steps
    }

    /// Turns every output on, or every output off.
    pub fn set_all_outputs(&mut self, value: bool)
        ensures
            final(self)@ == Seq::new(16, |i: int| value),
    {
        for i in 0..16usize
            invariant
                self@.len() == 16,
                forall|j: int| 0 <= j < i ==> self@[j] == value,
        {
            self.set_output(i, value);
        }
        assert(self@ =~= Seq::new(16, |i: int| value));
    }

    /// Turns the output at `index` on or off in the frame being composed.
    /// Nothing is sent.
    pub fn set_output(&mut self, index: usize, value: bool)
        requires
            index < 16,
        ensures
            final(self)@ == old(self)@.update(index as int, value),
    {
        self.out.set_output(index, value);
    }

    /// The steps that send the outputs as they are now to the shift
    /// registers.
    pub fn flush(&self) -> (steps: [PinStep; 84])
        ensures
            steps@ == frame_steps(frame_value(self@, 16) as u16),
    {
        DualC595ShiftRegister::write(self.out.get_value())
    }
}

/// With every output off the value is 0.
pub proof fn lemma_all_off_is_zero(count: nat)
    requires
        count <= 16,
    ensures
        frame_value(Seq::new(16, |i: int| false), count) == 0,
    decreases count,
{
    if count > 0 {
        lemma_all_off_is_zero((count - 1) as nat);
        assert(Seq::new(16, |i: int| false)[count - 1] == false);
    }
}

/// What sending a frame does to the output pins. From a chain at rest,
/// after the steps of a frame made of `outputs`, pin `k` of the chain
/// shows output `15 - k`.
pub proof fn lemma_frame_shows_outputs(
    outputs: Seq<bool>,
    chain: dual_c595_shift_register::Chain,
)
    requires
        outputs.len() == 16,
        chain.at_rest(),
    ensures
        ({
            let end = chain.after(frame_steps(frame_value(outputs, 16) as u16));
            &&& end.at_rest()
            &&& end.outputs.len() == 16
            &&& forall|k: int| 0 <= k < 16 ==> #[trigger] end.outputs[k] == outputs[15 - k]
        }),
{
    lemma_frame_value_bound(outputs, 16);
    lemma2_to64();
    let data = frame_value(outputs, 16) as u16;
    dual_c595_shift_register::lemma_frame_reaches_outputs(chain, data);
    let end = chain.after(frame_steps(data));
    assert forall|k: int| 0 <= k < 16 implies #[trigger] end.outputs[k] == outputs[15 - k] by {
        lemma_frame_bits(outputs, (15 - k) as nat);
    }
}

} // verus!
