//! Level metering: the peak and the root-mean-square amplitude of a block,
//! in units of the integer sample scale.
//!
//! Both are exact integer quantities. The root mean square is rounded down
//! to a whole unit, which is below the resolution of any display of it.

use vstd::prelude::*;

verus! {

/// The largest magnitude an `i32` sample can have.
pub const FULL_SCALE: u32 = 0x8000_0000;

/// The absolute value of a sample.
pub open spec fn magnitude(sample: i32) -> nat {
    if sample < 0 {
        (-sample) as nat
    } else {
        sample as nat
    }
}

/// The largest magnitude in a block; zero for an empty block.
pub open spec fn peak_of(block: Seq<i32>) -> nat
    decreases block.len(),
{
    if block.len() == 0 {
        0
    } else {
        let rest = peak_of(block.drop_last());
        let last = magnitude(block.last());
        if last > rest {
            last
        } else {
            rest
        }
    }
}

/// The sum of the squared samples of a block.
pub open spec fn energy_of(block: Seq<i32>) -> nat
    decreases block.len(),
{
    if block.len() == 0 {
        0
    } else {
        energy_of(block.drop_last()) + magnitude(block.last()) * magnitude(block.last())
    }
}

/// `root` is the square root of `x`, rounded down.
pub open spec fn is_floor_sqrt(x: nat, root: nat) -> bool {
    root * root <= x && x < (root + 1) * (root + 1)
}

/// The square root of `x`, rounded down.
pub open spec fn floor_sqrt(x: nat) -> nat {
    choose|root: nat| is_floor_sqrt(x, root)
}

/// The root of the mean of the squared samples, rounded down; zero for an
/// empty block.
pub open spec fn rms_of(block: Seq<i32>) -> nat {
    if block.len() == 0 {
        0
    } else {
        floor_sqrt(energy_of(block) / block.len())
    }
}

/// A meter reading.
#[derive(Clone, Copy, Debug, PartialEq, Eq, Structural)]
pub struct Level {
    /// Largest magnitude in the block.
    pub peak: u32,
    /// Root mean square of the block, rounded down.
    pub rms: u32,
}

impl Level {
    /// The reading of `block`.
    pub open spec fn of(block: Seq<i32>) -> Level {
        Level { peak: peak_of(block) as u32, rms: rms_of(block) as u32 }
    }

    /// The level shown: the larger of peak and root mean square.
    pub open spec fn shown(self) -> u32 {
        if self.rms > self.peak {
            self.rms
        } else {
            self.peak
        }
    }

    /// The level shown: the larger of peak and root mean square.
    pub fn value(&self) -> (v: u32)
        ensures
            v == self.shown(),
    {
        if self.rms > self.peak {
            self.rms
        } else {
            self.peak
        }
    }
}

/// Every number has a rounded-down square root.
pub proof fn lemma_floor_sqrt_exists(x: nat)
    ensures
        is_floor_sqrt(x, floor_sqrt(x)),
    decreases x,
{
    if x == 0 {
        assert(0 * 0 == 0 && (0 + 1) * (0 + 1) == 1) by (nonlinear_arith);
        assert(is_floor_sqrt(x, 0));
    } else {
        lemma_floor_sqrt_exists((x - 1) as nat);
        let r = floor_sqrt((x - 1) as nat);
        if x < (r + 1) * (r + 1) {
            assert(is_floor_sqrt(x, r));
        } else {
            assert((r + 1) * (r + 1) < (r + 2) * (r + 2)) by (nonlinear_arith);
            assert(is_floor_sqrt(x, r + 1));
        }
    }
}

/// At most one number is the rounded-down square root of `x`.
pub proof fn lemma_floor_sqrt_unique(x: nat, a: nat, b: nat)
    requires
        is_floor_sqrt(x, a),
        is_floor_sqrt(x, b),
    ensures
        a == b,
{
    if a < b {
        assert((a + 1) * (a + 1) <= b * b) by (nonlinear_arith)
            requires
                a + 1 <= b,
        ;
    }
    if b < a {
        assert((b + 1) * (b + 1) <= a * a) by (nonlinear_arith)
            requires
                b + 1 <= a,
        ;
    }
}

/// A number that squares to at most `x` and whose successor squares above
/// `x` is `floor_sqrt(x)`.
pub proof fn lemma_floor_sqrt_is(x: nat, root: nat)
    requires
        is_floor_sqrt(x, root),
    ensures
        floor_sqrt(x) == root,
{
    lemma_floor_sqrt_unique(x, root, floor_sqrt(x));
}

/// The rounded-down square root does not exceed any number whose square
/// reaches `x`.
pub proof fn lemma_floor_sqrt_bounded(x: nat, root: nat, bound: nat)
    requires
        is_floor_sqrt(x, root),
        x <= bound * bound,
    ensures
        root <= bound,
{
    if bound < root {
        assert((bound + 1) * (bound + 1) <= root * root) by (nonlinear_arith)
            requires
                bound + 1 <= root,
        ;
        assert(bound * bound < (bound + 1) * (bound + 1)) by (nonlinear_arith);
    }
}

/// The absolute value of a sample. It never exceeds `FULL_SCALE`.
pub fn sample_magnitude(sample: i32) -> (m: u32)
    ensures
        m == magnitude(sample),
        m <= FULL_SCALE,
{
    if sample < 0 {
        let wide: i64 = -(sample as i64);
        wide as u32
    } else {
        sample as u32
    }
}

/// The square root of `x`, rounded down.
pub fn isqrt(x: u64) -> (root: u32)
    ensures
        is_floor_sqrt(x as nat, root as nat),
        root == floor_sqrt(x as nat),
{
    let mut lo: u64 = 0;
    let mut hi: u64 = 0x1_0000_0000;
    assert(0x1_0000_0000int * 0x1_0000_0000int == 0x1_0000_0000_0000_0000int) by (nonlinear_arith);
    while hi - lo > 1
        invariant
            lo < hi <= 0x1_0000_0000,
            lo * lo <= x,
            x < hi * hi,
        decreases hi - lo,
    {
        let mid: u64 = lo + (hi - lo) / 2;
        assert(mid * mid <= 0xffff_ffff * 0xffff_ffff) by (nonlinear_arith)
            requires
                0 <= mid <= 0xffff_ffff,
        ;
        if mid * mid <= x {
            lo = mid;
        } else {
            hi = mid;
        }
    }
    proof {
        lemma_floor_sqrt_is(x as nat, lo as nat);
    }
    lo as u32
}

/// No sample is louder than the peak, and the energy of a block is at most
/// that of as many samples at peak.
pub proof fn lemma_energy_bounded_by_peak(block: Seq<i32>)
    ensures
        peak_of(block) <= FULL_SCALE,
        energy_of(block) <= block.len() * (peak_of(block) * peak_of(block)),
    decreases block.len(),
{
    if block.len() > 0 {
        let rest = block.drop_last();
        lemma_energy_bounded_by_peak(rest);
        let m = magnitude(block.last());
        let p_rest = peak_of(rest);
        let p = peak_of(block);
        let n = rest.len();
        assert(m * m <= p * p) by (nonlinear_arith)
            requires
                m <= p,
        ;
        assert(n * (p_rest * p_rest) <= n * (p * p)) by (nonlinear_arith)
            requires
                p_rest <= p,
        ;
        assert((n + 1) * (p * p) == n * (p * p) + p * p) by (nonlinear_arith);
    }
}

/// The root mean square of a block never exceeds its peak, so the level
/// shown is the peak and stays within the integer scale.
pub proof fn lemma_rms_at_most_peak(block: Seq<i32>)
    ensures
        rms_of(block) <= peak_of(block),
        peak_of(block) <= FULL_SCALE,
        Level::of(block).shown() == peak_of(block),
{
    lemma_energy_bounded_by_peak(block);
    if block.len() > 0 {
        let n = block.len();
        let p = peak_of(block);
        let e = energy_of(block);
        let mean = e / n;
        assert(mean <= p * p) by (nonlinear_arith)
            requires
                n > 0,
                e <= n * (p * p),
                mean == e / n,
        ;
        lemma_floor_sqrt_exists(mean);
        lemma_floor_sqrt_bounded(mean, floor_sqrt(mean), p);
    }
}

/// The peak of a block is the magnitude of its loudest sample: no sample
/// exceeds it, and in a block that is not empty some sample reaches it.
pub proof fn lemma_peak_is_largest(block: Seq<i32>)
    ensures
        forall|i: int| 0 <= i < block.len() ==> magnitude(#[trigger] block[i]) <= peak_of(block),
        block.len() > 0 ==> exists|i: int|
            0 <= i < block.len() && magnitude(#[trigger] block[i]) == peak_of(block),
        block.len() == 0 ==> peak_of(block) == 0,
    decreases block.len(),
{
    if block.len() > 0 {
        let rest = block.drop_last();
        lemma_peak_is_largest(rest);
        assert forall|i: int| 0 <= i < block.len() implies magnitude(#[trigger] block[i]) <= peak_of(
            block,
        ) by {
            if i < rest.len() {
                assert(rest[i] == block[i]);
            }
        }
        if magnitude(block.last()) > peak_of(rest) {
            assert(magnitude(block[block.len() - 1]) == peak_of(block));
        } else {
            if rest.len() > 0 {
                let i = choose|i: int| 0 <= i < rest.len() && magnitude(#[trigger] rest[i]) == peak_of(rest);
                assert(rest[i] == block[i]);
                assert(magnitude(block[i]) == peak_of(block));
            } else {
                assert(magnitude(block[block.len() - 1]) == peak_of(block));
            }
        }
    }
}

/// Silence reads zero: a block of zeros has no peak and no energy.
pub proof fn lemma_silence_reads_zero(block: Seq<i32>)
    requires
        forall|i: int| 0 <= i < block.len() ==> block[i] == 0,
    ensures
        peak_of(block) == 0,
        energy_of(block) == 0,
        Level::of(block) == (Level { peak: 0, rms: 0 }),
    decreases block.len(),
{
    if block.len() > 0 {
        let rest = block.drop_last();
        assert forall|i: int| 0 <= i < rest.len() implies rest[i] == 0 by {
            assert(rest[i] == block[i]);
        }
        lemma_silence_reads_zero(rest);
        assert(block.last() == block[block.len() - 1]);
        assert(0 * 0 == 0 && (0 + 1) * (0 + 1) == 1) by (nonlinear_arith);
        assert(0int / (block.len() as int) == 0) by (nonlinear_arith)
            requires
                block.len() > 0,
        ;
        assert(is_floor_sqrt(0, 0));
        lemma_floor_sqrt_is(0, 0);
    }
}

} // verus!
