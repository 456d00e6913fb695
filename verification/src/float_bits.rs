//! Order of IEEE 754 double-precision values given by their bit patterns.
//!
//! Real-valued settings and measurements travel through the library as the
//! bit patterns of their `f64` values; where a decision compares two of
//! them, it uses the order defined here, which is the order of the values
//! themselves: NaN is unordered, `-0.0` equals `0.0`, and otherwise the
//! magnitude bits (exponent and fraction) order the values of each sign.

use vstd::prelude::*;

verus! {

/// Mask of the magnitude bits (exponent and fraction) of a double.
pub const F64_MAGNITUDE_MASK: u64 = 0x7fff_ffff_ffff_ffff;

/// Bit pattern of positive infinity, the largest magnitude that is not NaN.
pub const F64_INFINITY_BITS: u64 = 0x7ff0_0000_0000_0000;

/// The pattern encodes a NaN: all exponent bits set and a non-zero fraction.
pub open spec fn f64_is_nan(b: u64) -> bool {
    (b & F64_MAGNITUDE_MASK) > F64_INFINITY_BITS
}

/// Position of a non-NaN value on the number line: its magnitude bits,
/// negated when the sign bit is set.
pub open spec fn f64_order_key(b: u64) -> int {
    if (b >> 63u64) == 1 { -((b & F64_MAGNITUDE_MASK) as int) } else { (b & F64_MAGNITUDE_MASK) as int }
}

/// `a < b` for the doubles with these bit patterns.
pub open spec fn f64_lt(a: u64, b: u64) -> bool {
    !f64_is_nan(a) && !f64_is_nan(b) && f64_order_key(a) < f64_order_key(b)
}

/// `a >= b` for the doubles with these bit patterns.
pub open spec fn f64_ge(a: u64, b: u64) -> bool {
    !f64_is_nan(a) && !f64_is_nan(b) && f64_order_key(a) >= f64_order_key(b)
}

/// Whether the bit pattern encodes a NaN.
pub fn f64_bits_is_nan(b: u64) -> (r: bool)
    ensures
        r == f64_is_nan(b),
{
    (b & F64_MAGNITUDE_MASK) > F64_INFINITY_BITS
}

/// Whether the double with bit pattern `a` is at least the one with bit
/// pattern `b`.
pub fn f64_bits_at_least(a: u64, b: u64) -> (r: bool)
    ensures
        r == f64_ge(a, b),
{
    if f64_bits_is_nan(a) || f64_bits_is_nan(b) {
        return false;
    }
    !f64_bits_less(a, b)
}

/// Whether the double with bit pattern `a` is less than the one with bit
/// pattern `b`.
pub fn f64_bits_less(a: u64, b: u64) -> (r: bool)
    ensures
        r == f64_lt(a, b),
{
    let ma = a & F64_MAGNITUDE_MASK;
    let mb = b & F64_MAGNITUDE_MASK;
    if ma > F64_INFINITY_BITS || mb > F64_INFINITY_BITS {
        return false;
    }
    let a_negative = (a >> 63u64) == 1;
    let b_negative = (b >> 63u64) == 1;
    if !a_negative && !b_negative {
        ma < mb
    } else if a_negative && b_negative {
        mb < ma
    } else if a_negative {
        !(ma == 0 && mb == 0)
    } else {
        false
    }
}

} // verus!
