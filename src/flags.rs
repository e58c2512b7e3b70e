//! The zero/negative status-flag rule shared by every flag-affecting instruction.
use vstd::prelude::*;

verus! {

/// Bit 1 of the status byte: the last result was zero.
pub const ZERO_FLAG: u8 = 0b0000_0010;

/// Bit 7 of the status byte: bit 7 of the last result was set.
pub const NEGATIVE_FLAG: u8 = 0b1000_0000;

/// The status byte after a flag-affecting instruction produced `result`:
/// the zero bit tells whether `result` is zero, the negative bit copies bit 7 of
/// `result`, and every other bit of `status` is kept.
pub open spec fn zero_negative_status(status: u8, result: u8) -> u8 {
    (status & 0b0111_1101) | (if result == 0 { ZERO_FLAG } else { 0u8 }) | (result & NEGATIVE_FLAG)
}

/// Computes `zero_negative_status(status, result)`.
pub fn update_zero_and_negative_flags(status: u8, result: u8) -> (r: u8)
    ensures
        r == zero_negative_status(status, result),
        (r & ZERO_FLAG != 0) <==> result == 0,
        (r & NEGATIVE_FLAG != 0) <==> (result & NEGATIVE_FLAG != 0),
        r & 0b0111_1101 == status & 0b0111_1101,
{
    let with_zero: u8 = if result == 0 {
        status | ZERO_FLAG
    } else {
        status & 0b1111_1101
    };
    let r: u8 = if result & NEGATIVE_FLAG != 0 {
        with_zero | NEGATIVE_FLAG
    } else {
        with_zero & 0b0111_1111
    };
    assert(r == (status & 0b0111_1101) | (if result == 0 { 2u8 } else { 0u8 }) | (result & 0x80u8)
        && ((r & 2u8 != 0) <==> result == 0) && ((r & 0x80u8 != 0) <==> (result & 0x80u8 != 0))
        && r & 0b0111_1101u8 == status & 0b0111_1101u8) by (bit_vector)
        requires
            with_zero == (if result == 0 { status | 2u8 } else { status & 0b1111_1101u8 }),
            r == (if result & 0x80u8 != 0 { with_zero | 0x80u8 } else { with_zero & 0b0111_1111u8 }),
    ;
    r
}

} // verus!
