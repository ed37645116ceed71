//! Sensors on the shared bus, and the framing both of them use.
//!
//! A register is written as its address followed by a 16-bit value, most
//! significant byte first. It is read by writing its address and reading
//! two bytes back, most significant byte first.

use vstd::prelude::*;

pub mod ads1115;
pub mod fdc1004;

verus! {

/// The unsigned 16-bit value that two bytes from the bus carry.
pub open spec fn word_of_bytes(bytes: Seq<u8>) -> int {
    bytes[0] * 256 + bytes[1]
}

/// The frame that writes `word` to the register at `register`.
pub open spec fn write_frame_of(register: u8, word: int) -> Seq<u8> {
    seq![register, (word / 256) as u8, (word % 256) as u8]
}

/// The group of bits of `word` that starts at the place with weight
/// `weight` and can hold `span` different codes.
///
/// Hidden from the solver by default, which otherwise loses itself in the
/// divisions: `reveal(field)` brings the definition in.
#[verifier::opaque]
pub open spec fn field(word: int, weight: int, span: int) -> int {
    (word / weight) % span
}

/// The signed reading of a 16-bit word in two's complement.
pub open spec fn signed_of_word(word: int) -> int {
    if word >= 0x8000 {
        word - 0x1_0000
    } else {
        word
    }
}

/// The 16-bit word that holds `value` in two's complement.
pub open spec fn word_of_signed(value: int) -> int {
    if value < 0 {
        value + 0x1_0000
    } else {
        value
    }
}

/// Builds the three bytes that write `word` to `register`.
pub fn write_frame(register: u8, word: u16) -> (frame: [u8; 3])
    ensures
        frame@ == write_frame_of(register, word as int),
{
    let high: u8 = (word / 256) as u8;
    let low: u8 = (word % 256) as u8;
    let frame: [u8; 3] = [register, high, low];
    assert(frame@ =~= write_frame_of(register, word as int));
    frame
}

/// Reads the 16-bit value out of the two bytes a register read returned.
pub fn read_word(bytes: [u8; 2]) -> (word: u16)
    ensures
        word == word_of_bytes(bytes@),
{
    let high: u16 = bytes[0] as u16;
    let low: u16 = bytes[1] as u16;
    high * 256 + low
}

/// Reads a 16-bit word as a signed number in two's complement.
pub fn to_signed(word: u16) -> (value: i16)
    ensures
        value == signed_of_word(word as int),
{
    if word >= 0x8000 {
        let wide: i32 = word as i32 - 0x1_0000;
        wide as i16
    } else {
        word as i16
    }
}

/// Stores a signed number as a 16-bit word in two's complement.
pub fn from_signed(value: i16) -> (word: u16)
    ensures
        word == word_of_signed(value as int),
{
    if value < 0 {
        let wide: i32 = value as i32 + 0x1_0000;
        wide as u16
    } else {
        value as u16
    }
}

/// Two's complement loses nothing: every signed value comes back from its
/// word, and every word from its signed reading.
pub proof fn lemma_signed_round_trip(value: i16, word: u16)
    ensures
        0 <= word_of_signed(value as int) < 0x1_0000,
        signed_of_word(word_of_signed(value as int)) == value,
        -0x8000 <= signed_of_word(word as int) < 0x8000,
        word_of_signed(signed_of_word(word as int)) == word,
{
}

} // verus!
