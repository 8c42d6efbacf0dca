//! The integer half of the sample converter.
//!
//! A sample arrives as a floating-point number of nominal range -1 to 1. It is
//! scaled by [`AMPLITUDE`] and cut off toward zero, which the caller does in
//! floating point, and the integer that comes out is narrowed to 16 bits here.
//! Narrowing wraps: a sample outside the nominal range is not clamped.

use vstd::prelude::*;

verus! {

/// The factor by which a sample is scaled: the largest 16-bit magnitude.
pub const AMPLITUDE: i16 = 32767;

/// The 16-bit signed integer that is congruent to `x` modulo 65536.
pub open spec fn wrap16(x: int) -> int {
    if x % 65536 < 32768 {
        x % 65536
    } else {
        x % 65536 - 65536
    }
}

/// Narrows a scaled sample to 16 bits, keeping its low 16 bits.
pub fn narrow(scaled: i64) -> (pcm: i16)
    ensures
        pcm == wrap16(scaled as int),
        -32768 <= scaled <= 32767 ==> pcm == scaled,
{
    let low: i64 = scaled & 0xffff;
    assert(low == scaled % 65536) by (bit_vector)
        requires
            low == scaled & 0xffff,
    ;
    if low < 32768 {
        low as i16
    } else {
        (low - 65536) as i16
    }
}

/// Narrowing is the identity on what fits, has period 65536, and always lands
/// on the one 16-bit integer of the same residue.
pub proof fn lemma_wrap16(x: int)
    ensures
        -32768 <= wrap16(x) <= 32767,
        (wrap16(x) - x) % 65536 == 0,
        -32768 <= x <= 32767 ==> wrap16(x) == x,
        wrap16(x + 65536) == wrap16(x),
{
    assert((x + 65536) % 65536 == x % 65536) by (nonlinear_arith);
    assert((x % 65536 - x) % 65536 == 0 && (x % 65536 - 65536 - x) % 65536 == 0)
        by (nonlinear_arith);
}

/// A sample of the nominal range, scaled and cut off toward zero, has a
/// magnitude of at most [`AMPLITUDE`] and passes through `narrow` unchanged.
pub proof fn lemma_nominal_range_is_kept(scaled: int)
    requires
        -AMPLITUDE <= scaled <= AMPLITUDE,
    ensures
        wrap16(scaled) == scaled,
{
    lemma_wrap16(scaled);
}

} // verus!
