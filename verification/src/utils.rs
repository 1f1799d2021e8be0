use vstd::arithmetic::power2::is_pow2;
use vstd::prelude::*;

verus! {

/// A value with exactly one bit set is a power of two.
proof fn lemma_single_bit_is_pow2(r: u32)
    requires
        r != 0,
        r & ((r - 1) as u32) == 0,
    ensures
        is_pow2(r as int),
    decreases r,
{
    reveal(is_pow2);
    if r != 1 {
        let half: u32 = r / 2;
        assert(r % 2 == 0 && half != 0 && half & ((half - 1) as u32) == 0) by (bit_vector)
            requires
                r != 0,
                r != 1,
                r & ((r - 1) as u32) == 0,
                half == r / 2,
        ;
        lemma_single_bit_is_pow2(half);
    }
}

/// Rounds `a` up to the nearest power of two.
///
/// The result is the one power of two in `a..2 * a`. The input must lie in
/// `1..=2^31`, the range on which that power of two fits in 32 bits.
pub fn next_power_of_two(a: u32) -> (r: u32)
    requires
        1 <= a <= 0x8000_0000,
    ensures
        is_pow2(r as int),
        a <= r < 2 * a,
{
    let x0: u32 = a - 1;
    let x1: u32 = x0 | (x0 >> 1);
    let x2: u32 = x1 | (x1 >> 2);
    let x3: u32 = x2 | (x2 >> 4);
    let x4: u32 = x3 | (x3 >> 8);
    let x5: u32 = x4 | (x4 >> 16);
    assert(x0 <= x5 <= 2 * x0 && x5 < 0x8000_0000 && x5 & ((x5 + 1) as u32) == 0) by (bit_vector)
        requires
            x0 < 0x8000_0000,
            x1 == x0 | (x0 >> 1),
            x2 == x1 | (x1 >> 2),
            x3 == x2 | (x2 >> 4),
            x4 == x3 | (x3 >> 8),
            x5 == x4 | (x4 >> 16),
    ;
    let r: u32 = x5 + 1;
    proof {
        assert(r != 0 && r & ((r - 1) as u32) == 0) by (bit_vector)
            requires
                x5 < 0x8000_0000,
                x5 & ((x5 + 1) as u32) == 0,
                r == x5 + 1,
        ;
        lemma_single_bit_is_pow2(r);
    }
    r
}

/// Picks `a` when `condition` holds and `b` otherwise.
#[inline]
pub fn ternary<T>(condition: bool, a: T, b: T) -> (r: T)
    ensures
        r == (if condition { a } else { b }),
{
    if condition {
        a
    } else {
        b
    }
}

} // verus!
