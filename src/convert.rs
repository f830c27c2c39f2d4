//! Conversions of one sample into the canonical signed 16-bit representation.
use vstd::prelude::*;

verus! {

/// Largest magnitude that a scaled floating-point sample may take.
pub const FULL_SCALE: i32 = 32767;

/// The signed sample that an unsigned sample stands for: the bias of 32768 removed.
pub open spec fn from_u16(s: u16) -> i16 {
    (s as int - 32768) as i16
}

/// A scaled sample held to the symmetric range [-32767, 32767].
pub open spec fn clamp_scaled(v: int) -> int {
    if v < -32767 {
        -32767
    } else if v > 32767 {
        32767
    } else {
        v
    }
}

/// Maps an unsigned 16-bit sample to the signed range by removing the bias of 32768.
pub fn u16_to_i16(s: u16) -> (r: i16)
    ensures
        r as int == s as int - 32768,
        r == from_u16(s),
{
    (s as i32 - 32768) as i16
}

/// Final stage of the floating-point conversion: `v` is the input sample already
/// multiplied by 32767 and rounded to the nearest integer. The result is held to
/// [-32767, 32767], so an out-of-range input gives the value of the nearest bound
/// rather than wrapping.
pub fn scaled_to_i16(v: i32) -> (r: i16)
    ensures
        r as int == clamp_scaled(v as int),
{
    if v < -FULL_SCALE {
        -32767
    } else if v > FULL_SCALE {
        32767
    } else {
        v as i16
    }
}

/// The unsigned-to-signed conversion is a bijection: distinct inputs give
/// distinct outputs, every signed value is reached, and adding the bias back
/// recovers the input.
pub proof fn lemma_u16_bijection(a: u16, b: u16, x: i16)
    ensures
        from_u16(a) == from_u16(b) ==> a == b,
        from_u16(((x as int) + 32768) as u16) == x,
        (from_u16(a) as int + 32768) as u16 == a,
{
}

/// The clamping stage keeps order: a larger scaled value never gives a smaller sample.
pub proof fn lemma_clamp_monotonic(v: int, w: int)
    requires
        v <= w,
    ensures
        clamp_scaled(v) <= clamp_scaled(w),
{
}

/// Zero and the full-scale bounds map to themselves, and every value beyond a
/// bound gives exactly that bound's sample.
pub proof fn lemma_clamp_bounds(v: int)
    ensures
        clamp_scaled(0) == 0,
        clamp_scaled(32767) == 32767,
        clamp_scaled(-32767) == -32767,
        v >= 32767 ==> clamp_scaled(v) == clamp_scaled(32767),
        v <= -32767 ==> clamp_scaled(v) == clamp_scaled(-32767),
        -32767 <= clamp_scaled(v) <= 32767,
{
}

} // verus!
