//! Device commands and their wire-level frame encoding.
//!
//! Every frame is the command's fixed byte body followed by one checksum
//! byte: the sum of the body's bytes, truncated to the low 8 bits.

use vstd::prelude::*;
use crate::color::Color;

verus! {

/// A device operation: power on, power off, or set the strip to a color.
#[derive(Clone, Copy, Debug, PartialEq, Eq, Structural)]
pub enum Command {
    On,
    Off,
    Color(Color),
}

/// The sum of a byte sequence, as an unbounded integer.
pub open spec fn byte_sum(s: Seq<u8>) -> int
    decreases s.len(),
{
    if s.len() == 0 {
        0
    } else {
        byte_sum(s.drop_last()) + s.last()
    }
}

/// The checksum of a byte sequence: its sum, truncated to the low 8 bits.
pub open spec fn spec_checksum(s: Seq<u8>) -> u8 {
    (byte_sum(s) % 256) as u8
}

/// The fixed byte body of a command, before the checksum is appended.
pub open spec fn spec_body(c: Command) -> Seq<u8> {
    match c {
        Command::On => seq![0x71u8, 0x23u8, 0x0fu8],
        Command::Off => seq![0x71u8, 0x24u8, 0x0fu8],
        Command::Color(col) => seq![0x31u8, col.r, col.g, col.b, 0x00u8, 0x00u8, 0x0fu8],
    }
}

/// The complete frame of a command: its body followed by the body's checksum.
pub open spec fn spec_frame(c: Command) -> Seq<u8> {
    spec_body(c).push(spec_checksum(spec_body(c)))
}

/// Appending a byte adds it to the sum.
proof fn lemma_byte_sum_push(s: Seq<u8>, x: u8)
    ensures
        byte_sum(s.push(x)) == byte_sum(s) + x,
{
    assert(s.push(x).drop_last() =~= s);
}

impl Command {
    /// Serializes the command into its wire frame.
    pub fn to_buffer(&self) -> (r: Vec<u8>)
        ensures
            r@ == spec_frame(*self),
    {
        let mut buffer: Vec<u8> = Vec::new();
        match self {
            Command::On => {
                buffer.push(0x71);
                buffer.push(0x23);
                buffer.push(0x0f);
            },
            Command::Off => {
                buffer.push(0x71);
                buffer.push(0x24);
                buffer.push(0x0f);
            },
            Command::Color(color) => {
                buffer.push(0x31);
                buffer.push(color.r);
                buffer.push(color.g);
                buffer.push(color.b);
                buffer.push(0x00);
                buffer.push(0x00);
                buffer.push(0x0f);
            },
        }
        proof {
            assert(buffer@ =~= spec_body(*self));
        }
        let ghost body = buffer@;
        let mut sum: u32 = 0;
        let mut i: usize = 0;
        while i < buffer.len()
            invariant
                buffer@ == body,
                body.len() <= 7,
                i <= body.len(),
                sum as int == byte_sum(body.subrange(0, i as int)),
                sum <= 255 * i,
            decreases body.len() - i,
        {
            sum = sum + buffer[i] as u32;
            proof {
                assert(body.subrange(0, i + 1 as int).drop_last() =~= body.subrange(0, i as int));
                assert(body.subrange(0, i + 1 as int).last() == body[i as int]);
            }
            i += 1;
        }
        proof {
            assert(body.subrange(0, body.len() as int) =~= body);
        }
        let checksum: u8 = (sum % 256) as u8;
        buffer.push(checksum);
        buffer
    }
}

/// The frame of a set-color command, byte for byte: the marker byte, the
/// three channels, two zero bytes, the terminator, and the checksum
/// `(0x31 + r + g + b + 0x0f) mod 256`.
pub proof fn lemma_set_color_frame(col: Color)
    ensures
        spec_frame(Command::Color(col)) =~= seq![
            0x31u8,
            col.r,
            col.g,
            col.b,
            0x00u8,
            0x00u8,
            0x0fu8,
            (((0x31 + col.r + col.g + col.b + 0x0f) as int % 256) as u8),
        ],
{
    let s0 = Seq::<u8>::empty();
    let s1 = s0.push(0x31u8);
    let s2 = s1.push(col.r);
    let s3 = s2.push(col.g);
    let s4 = s3.push(col.b);
    let s5 = s4.push(0x00u8);
    let s6 = s5.push(0x00u8);
    let s7 = s6.push(0x0fu8);
    lemma_byte_sum_push(s0, 0x31u8);
    lemma_byte_sum_push(s1, col.r);
    lemma_byte_sum_push(s2, col.g);
    lemma_byte_sum_push(s3, col.b);
    lemma_byte_sum_push(s4, 0x00u8);
    lemma_byte_sum_push(s5, 0x00u8);
    lemma_byte_sum_push(s6, 0x0fu8);
    assert(s7 =~= spec_body(Command::Color(col)));
    assert(byte_sum(spec_body(Command::Color(col))) == 0x31 + col.r + col.g + col.b + 0x0f);
}

/// The frame invariant: the final byte of every frame is the mod-256 sum of
/// all the bytes that precede it.
pub proof fn lemma_frame_checksum(c: Command)
    ensures
        spec_frame(c).last() == spec_checksum(spec_frame(c).drop_last()),
{
    assert(spec_frame(c).drop_last() =~= spec_body(c));
}

/// Encoding is deterministic: equal commands always yield byte-identical
/// frames.
pub proof fn lemma_encode_deterministic(c1: Command, c2: Command)
    requires
        c1 == c2,
    ensures
        spec_frame(c1) == spec_frame(c2),
{
}

} // verus!
