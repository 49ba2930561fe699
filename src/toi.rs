use vstd::prelude::*;

verus! {

/// The bit pattern of positive infinity: every larger pattern without the
/// sign bit is a NaN.
pub const INFINITY_BITS: u32 = 0x7f80_0000;

/// The sign bit of an `f32` bit pattern.
pub const SIGN_BIT: u32 = 0x8000_0000;

/// Whether the sign bit of the pattern is set.
pub open spec fn sign_set(b: u32) -> bool {
    b >= SIGN_BIT
}

/// The pattern without its sign bit.
pub open spec fn magnitude(b: u32) -> int {
    (b % SIGN_BIT) as int
}

/// The pattern encodes NaN: all exponent bits set and a non-zero fraction.
pub open spec fn is_nan_bits(b: u32) -> bool {
    magnitude(b) > INFINITY_BITS
}

/// Position of the encoded value on the number line. For two patterns that
/// are not NaN, the encoded values compare as their ranks do; `+0.0` and
/// `-0.0` share the rank 0.
pub open spec fn rank(b: u32) -> int {
    if sign_set(b) {
        -magnitude(b)
    } else {
        magnitude(b)
    }
}

/// Whether the bit pattern encodes NaN.
pub fn is_nan(b: u32) -> (r: bool)
    ensures
        r == is_nan_bits(b),
{
    b % SIGN_BIT > INFINITY_BITS
}

/// The rank of a bit pattern as an integer.
pub fn rank_of(b: u32) -> (r: i64)
    ensures
        r == rank(b),
{
    let m: i64 = (b % SIGN_BIT) as i64;
    if b >= SIGN_BIT {
        -m
    } else {
        m
    }
}

/// Whether the value encoded by `a` is strictly below the one encoded by `b`
/// (meaningful when neither is NaN).
pub fn toi_less(a: u32, b: u32) -> (r: bool)
    ensures
        r == (rank(a) < rank(b)),
{
    rank_of(a) < rank_of(b)
}

} // verus!
