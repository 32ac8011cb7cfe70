//! Decimation of a block for plotting.
//!
//! A plot of a long block shows every `step`-th sample, with `step` chosen
//! so that the number of points stays below twice `MAX_POINTS`. Blocks of up
//! to `MAX_POINTS` samples are shown whole.

use crate::stride::{count_strides, lemma_stride_count_is_exact, stride_count};
use vstd::arithmetic::div_mod::lemma_fundamental_div_mod;
use vstd::prelude::*;

verus! {

/// The number of samples from which a plot starts to leave samples out.
pub const MAX_POINTS: usize = 1000;

/// One point of a plot: a sample and its position in the block.
#[derive(Clone, Copy, Debug, PartialEq, Eq, Structural)]
pub struct PlotPoint {
    pub index: usize,
    pub sample: i32,
}

/// The waveform plot of a block.
pub struct Plot;

/// The distance between two samples shown of a block of `len` samples.
pub open spec fn step_for(len: nat) -> nat {
    if len / (MAX_POINTS as nat) >= 1 {
        len / (MAX_POINTS as nat)
    } else {
        1
    }
}

/// The points shown of a block: every `step_for`-th sample from the first.
pub open spec fn points_of(samples: Seq<i32>) -> Seq<PlotPoint> {
    let step = step_for(samples.len());
    Seq::new(
        stride_count(samples.len(), step, 0),
        |k: int| PlotPoint { index: (k * step) as usize, sample: samples[k * step] },
    )
}

impl Plot {
    /// The distance between two samples shown of a block of `len` samples.
    pub fn step(len: usize) -> (step: usize)
        ensures
            step == step_for(len as nat),
            step >= 1,
    {
        let step = len / MAX_POINTS;
        if step >= 1 {
            step
        } else {
            1
        }
    }

    /// The points shown of `samples`, from left to right.
    pub fn points(samples: &[i32]) -> (points: Vec<PlotPoint>)
        ensures
            points@ == points_of(samples@),
    {
        let len = samples.len();
        let step = Plot::step(len);
        let count = count_strides(len, step, 0);
        let mut points: Vec<PlotPoint> = Vec::new();
        let mut k: usize = 0;
        let mut idx: usize = 0;
        while k < count
            invariant
                step >= 1,
                step == step_for(len as nat),
                len == samples@.len(),
                count == stride_count(len as nat, step as nat, 0),
                k <= count,
                k < count ==> idx == k * step,
                points@.len() == k,
                forall|j: int|
                    0 <= j < k ==> points@[j] == (PlotPoint {
                        index: (j * step) as usize,
                        sample: samples@[j * step],
                    }),
            decreases count - k,
        {
            proof {
                lemma_stride_count_is_exact(len as nat, step as nat, 0, k as nat);
            }
            points.push(PlotPoint { index: idx, sample: samples[idx] });
            k += 1;
            if k < count {
                proof {
                    lemma_stride_count_is_exact(len as nat, step as nat, 0, k as nat);
                    assert(k * step == (k - 1) * step + step) by (nonlinear_arith);
                }
                idx += step;
            }
        }
        assert(points@ =~= points_of(samples@));
        points
    }
}

/// A plot never holds twice `MAX_POINTS` points, and a block of up to
/// `MAX_POINTS` samples is shown whole.
pub proof fn lemma_plot_is_bounded(samples: Seq<i32>)
    ensures
        points_of(samples).len() < 2 * MAX_POINTS,
        points_of(samples).len() <= samples.len(),
        samples.len() <= MAX_POINTS ==> points_of(samples).len() == samples.len(),
{
    let len = samples.len();
    let step = step_for(len);
    let q = len / (MAX_POINTS as nat);
    lemma_fundamental_div_mod(len as int, MAX_POINTS as int);
    lemma_stride_count_is_exact(len, step, 0, 1999);
    lemma_stride_count_is_exact(len, step, 0, len);
    assert(len * step >= len) by (nonlinear_arith)
        requires
            step >= 1,
    ;
    if q >= 1 {
        assert(1999 * step >= 1000 * q + 999) by (nonlinear_arith)
            requires
                step == q,
                q >= 1,
        ;
    }
    if len <= MAX_POINTS {
        if len > 0 {
            if len == MAX_POINTS {
                assert(q == 1) by (nonlinear_arith)
                    requires
                        len == 1000,
                        len == 1000 * q + len % 1000,
                        0 <= len % 1000 < 1000,
                ;
            }
            assert(step == 1);
            lemma_stride_count_is_exact(len, step, 0, (len - 1) as nat);
        }
    }
}

/// The points of a plot keep the order of the block and lie in it: point
/// `k` shows the sample at position `k` times the step.
pub proof fn lemma_points_lie_in_block(samples: Seq<i32>, k: int)
    requires
        samples.len() <= usize::MAX,
        0 <= k < points_of(samples).len(),
    ensures
        points_of(samples)[k].index == k * step_for(samples.len()),
        points_of(samples)[k].index < samples.len(),
        points_of(samples)[k].sample == samples[points_of(samples)[k].index as int],
{
    let step = step_for(samples.len());
    lemma_stride_count_is_exact(samples.len(), step, 0, k as nat);
    assert(k * step >= 0) by (nonlinear_arith)
        requires
            k >= 0,
            step >= 0,
    ;
}

} // verus!
