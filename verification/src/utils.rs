//! Single-bit accessors on bytes, used for the packed flag register and the
//! framebuffer pixels.

use vstd::prelude::*;

verus! {

/// What [`get_bit`] returns: bit `n` of `val`.
pub open spec fn spec_get_bit(val: u8, n: u8) -> bool {
    val & (1u8 << n) != 0
}

/// What [`set_bit`] leaves behind: `val` with bit `n` forced to `b`.
pub open spec fn spec_set_bit(val: u8, n: u8, b: bool) -> u8 {
    if b {
        val | (1u8 << n)
    } else {
        val & !(1u8 << n)
    }
}

/// Get bit `n` of `val`.
pub fn get_bit(val: u8, n: u8) -> (r: bool)
    requires
        n < 8,
    ensures
        r == spec_get_bit(val, n),
{
    (val & (1u8 << n)) != 0
}

/// Set bit `n` of `value` to `val`.
pub fn set_bit(value: &mut u8, n: u8, val: bool)
    requires
        n < 8,
    ensures
        *final(value) == spec_set_bit(*old(value), n, val),
{
    if val {
        *value |= 1u8 << n;
    } else {
        *value &= !(1u8 << n);
    }
}

/// Setting one bit leaves every other bit alone, and reading the bit just set
/// gives the value it was set to.
pub proof fn lemma_get_set_bit(val: u8, n: u8, m: u8, b: bool)
    requires
        n < 8,
        m < 8,
    ensures
        spec_get_bit(spec_set_bit(val, n, b), m) == if m == n {
            b
        } else {
            spec_get_bit(val, m)
        },
{
    if b {
        assert(spec_get_bit(spec_set_bit(val, n, true), m) == if m == n {
            true
        } else {
            spec_get_bit(val, m)
        }) by (bit_vector)
            requires
                n < 8,
                m < 8,
        ;
    } else {
        assert(spec_get_bit(spec_set_bit(val, n, false), m) == if m == n {
            false
        } else {
            spec_get_bit(val, m)
        }) by (bit_vector)
            requires
                n < 8,
                m < 8,
        ;
    }
}

} // verus!
