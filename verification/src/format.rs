//! Sample widths.
//!
//! Integer samples of a given bit depth range from `-(max_raw + 1)` to
//! `max_raw`. The effects work on samples scaled by `max_raw`, so every
//! path into and out of the effect chain needs it for its bit depth.

use vstd::arithmetic::power2::{lemma2_to64, lemma_pow2_strictly_increases, lemma_pow2_unfold, pow2};
use vstd::prelude::*;

verus! {

/// The widest sample that the effect chain takes, in bits.
pub const MAX_BITS: u16 = 32;

/// The largest sample of signed integer samples `bits` wide.
pub open spec fn max_raw_of(bits: nat) -> int
    recommends
        bits >= 1,
{
    pow2((bits - 1) as nat) - 1
}

/// The largest sample of signed integer samples `bits` wide, for widths
/// from one bit to `MAX_BITS`; `None` for any other width.
pub fn max_raw(bits: u16) -> (max: Option<i32>)
    ensures
        max is Some <==> 1 <= bits <= MAX_BITS,
        max matches Some(m) ==> m == max_raw_of(bits as nat),
{
    if bits < 1 || bits > MAX_BITS {
        return None;
    }
    let mut half: i64 = 1;
    let mut i: u16 = 1;
    proof {
        lemma2_to64();
    }
    while i < bits
        invariant
            1 <= i <= bits <= 32,
            half == pow2((i - 1) as nat),
        decreases bits - i,
    {
        proof {
            lemma2_to64();
            lemma_pow2_unfold(i as nat);
            if i < 32 {
                lemma_pow2_strictly_increases(i as nat, 32);
            }
        }
        half = half * 2;
        i += 1;
    }
    proof {
        lemma2_to64();
        if bits < 32 {
            lemma_pow2_strictly_increases((bits - 1) as nat, 31);
        }
    }
    Some((half - 1) as i32)
}

/// Wider samples reach further: `max_raw_of` grows with the width, and at
/// the widths in common use it is the largest value of the integer type of
/// that width.
pub proof fn lemma_max_raw_grows(narrow: nat, wide: nat)
    requires
        1 <= narrow < wide,
    ensures
        max_raw_of(narrow) < max_raw_of(wide),
        max_raw_of(8) == i8::MAX,
        max_raw_of(16) == i16::MAX,
        max_raw_of(24) == 0x7f_ffff,
        max_raw_of(32) == i32::MAX,
{
    lemma_pow2_strictly_increases((narrow - 1) as nat, (wide - 1) as nat);
    lemma2_to64();
}

} // verus!
