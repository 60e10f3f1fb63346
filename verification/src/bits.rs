//! Bit-level helpers of the bridge: odd parity, bit reversal, frame decoding.

use vstd::prelude::*;

verus! {

/// Number of set bits in a byte.
pub open spec fn popcount8(b: u8) -> int {
    ((b >> 0u8) & 1) + ((b >> 1u8) & 1) + ((b >> 2u8) & 1) + ((b >> 3u8) & 1) + ((b >> 4u8) & 1)
        + ((b >> 5u8) & 1) + ((b >> 6u8) & 1) + ((b >> 7u8) & 1)
}

/// Number of set bits in a 16-bit word.
pub open spec fn popcount16(x: u16) -> int {
    ((x >> 0u16) & 1) + ((x >> 1u16) & 1) + ((x >> 2u16) & 1) + ((x >> 3u16) & 1) + ((x
        >> 4u16) & 1) + ((x >> 5u16) & 1) + ((x >> 6u16) & 1) + ((x >> 7u16) & 1) + ((x
        >> 8u16) & 1) + ((x >> 9u16) & 1) + ((x >> 10u16) & 1) + ((x >> 11u16) & 1) + ((x
        >> 12u16) & 1) + ((x >> 13u16) & 1) + ((x >> 14u16) & 1) + ((x >> 15u16) & 1)
}

/// The odd-parity bit of a byte: set exactly when the byte holds an even
/// number of ones, so that data plus parity always hold an odd number.
pub open spec fn odd_parity(b: u8) -> bool {
    popcount8(b) % 2 == 0
}

/// The byte with its eight bits in reverse order: bit `i` moves to bit `7 - i`.
pub open spec fn spec_reverse_bits(b: u8) -> u8 {
    ((b & 0x01) << 7u8) | ((b & 0x02) << 5u8) | ((b & 0x04) << 3u8) | ((b & 0x08) << 1u8) | ((b
        & 0x10) >> 1u8) | ((b & 0x20) >> 3u8) | ((b & 0x40) >> 5u8) | ((b & 0x80) >> 7u8)
}

/// Reversing the bits of a byte twice gives the byte back.
pub proof fn lemma_reverse_bits_involution(b: u8)
    ensures
        spec_reverse_bits(spec_reverse_bits(b)) == b,
{
    assert(spec_reverse_bits(spec_reverse_bits(b)) == b) by (bit_vector);
}

/// Whether a byte's parity is odd-even as the AT frame needs it.
///
/// Returns the odd-parity bit of `byte`: true exactly when the number of set
/// bits in `byte` is even.
pub fn compute_parity(byte: u8) -> (r: bool)
    ensures
        r == odd_parity(byte),
{
    let folded: u8 = byte ^ (byte >> 4u8);
    let folded: u8 = folded ^ (folded >> 2u8);
    let folded: u8 = folded ^ (folded >> 1u8);
    proof {
        assert(((byte ^ (byte >> 4u8)) ^ ((byte ^ (byte >> 4u8)) >> 2u8) ^ (((byte ^ (byte
            >> 4u8)) ^ ((byte ^ (byte >> 4u8)) >> 2u8)) >> 1u8)) & 1 == 0 <==> popcount8(byte) % 2
            == 0) by (bit_vector);
    }
    folded & 1 == 0
}

/// Relies on `bit_reverse::BitwiseReverse::swap_bits` for `u8`: it returns
/// the byte with its eight bits in reverse order.
#[verifier::external_body]
fn swap_bits_u8(b: u8) -> (r: u8)
    ensures
        r == spec_reverse_bits(b),
{
    bit_reverse::BitwiseReverse::swap_bits(b)
}

/// The data byte still in wire order inside a captured 11-bit AT frame:
/// start and stop masked out, parity and stop positions shifted away.
pub open spec fn raw_of_frame(frame: u16) -> u8 {
    (((frame & 0xBFFE) >> 2u16) as u8)
}

/// The scancode held in a captured AT frame.
///
/// A captured frame stores the wire bits first-received-leftmost, so the
/// eight data bits sit at bits 9 down to 2 with D0 highest. Masking start
/// and stop, shifting parity and stop away and reversing the bit order
/// yields the conventional scancode byte.
pub fn decode_frame(frame: u16) -> (r: u8)
    ensures
        r == spec_reverse_bits(raw_of_frame(frame)),
{
    let masked: u16 = frame & 0xBFFE;
    let shifted: u16 = masked >> 2u16;
    swap_bits_u8(shifted as u8)
}

/// The stored value of a captured frame for scancode `b`: the zero start
/// bit lands at bit ten, the data bits least-significant-first at bits nine
/// down to two, the parity bit at bit one and the stop bit at bit zero,
/// because the receive register appends each wire bit below the earlier
/// ones.
pub open spec fn wire_frame(b: u8, parity: bool) -> u16 {
    (((b & 0x01) as u16) << 9u16) | (((b & 0x02) as u16) << 7u16) | (((b & 0x04) as u16)
        << 5u16) | (((b & 0x08) as u16) << 3u16) | (((b & 0x10) as u16) << 1u16) | (((b
        & 0x20) as u16) >> 1u16) | (((b & 0x40) as u16) >> 3u16) | (((b & 0x80) as u16)
        >> 5u16) | (if parity {
        2u16
    } else {
        0u16
    }) | 1u16
}

/// Pass-through of a scancode: decoding the captured frame of any byte
/// gives the byte back, whatever the parity bit was, so a key the keyboard
/// sends reaches the command loop unchanged.
pub proof fn lemma_capture_decode(b: u8, parity: bool)
    ensures
        spec_reverse_bits(raw_of_frame(wire_frame(b, parity))) == b,
{
    assert(spec_reverse_bits(raw_of_frame(wire_frame(b, parity))) == b) by (bit_vector);
}

} // verus!
