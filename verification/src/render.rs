//! The render side of a stream: writing the most recent processed block into
//! an interleaved hardware buffer.
//!
//! Every channel of a frame carries the same sample. Where the buffer asks
//! for more frames than the block holds, the block repeats from its start.

use crate::capture::channel_of;
use crate::meter::{energy_of, isqrt, peak_of, sample_magnitude, Level};
use crate::stride::{count_strides, lemma_stride_count_is_exact, stride_count};
use vstd::arithmetic::div_mod::{lemma_fundamental_div_mod_converse, lemma_small_mod};
use vstd::prelude::*;

verus! {

/// The sample that frame `frame` plays from a non-empty block.
pub open spec fn frame_sample(processed: Seq<i32>, frame: int) -> i32
    recommends
        processed.len() > 0,
        frame >= 0,
{
    processed[frame % (processed.len() as int)]
}

/// What a buffer holds after rendering `processed` into it: the buffer as it
/// was where no block has been produced yet, else the block repeated across
/// its frames.
pub open spec fn rendered(before: Seq<i32>, processed: Seq<i32>, channels: nat) -> Seq<i32>
    recommends
        channels > 0,
{
    if processed.len() == 0 {
        before
    } else {
        Seq::new(before.len(), |p: int| frame_sample(processed, p / (channels as int)))
    }
}

/// Writes `processed` into `out`, a buffer of frames of `channels` samples.
pub fn fill_block(out: &mut [i32], processed: &[i32], channels: usize)
    requires
        channels > 0,
    ensures
        final(out)@ == rendered(old(out)@, processed@, channels as nat),
{
    let len = out.len();
    let block_len = processed.len();
    if block_len == 0 {
        return;
    }
    let mut p: usize = 0;
    while p < len
        invariant
            channels > 0,
            block_len == processed@.len(),
            block_len > 0,
            len == out@.len(),
            out@.len() == old(out)@.len(),
            p <= len,
            forall|q: int| 0 <= q < p ==> out@[q] == frame_sample(processed@, q / (channels as int)),
        decreases len - p,
    {
        let frame: usize = p / channels;
        out[p] = processed[frame % block_len];
        p += 1;
    }
    assert(out@ =~= rendered(old(out)@, processed@, channels as nat));
}

/// The samples that the first `frames` frames play from a non-empty block,
/// one per frame.
pub open spec fn played(processed: Seq<i32>, frames: nat) -> Seq<i32>
    recommends
        processed.len() > 0,
{
    Seq::new(frames, |f: int| frame_sample(processed, f))
}

/// The meter reading of the first `frames` frames played from `processed`.
pub fn measure_played(processed: &[i32], frames: usize) -> (level: Level)
    requires
        processed@.len() > 0,
    ensures
        level == Level::of(played(processed@, frames as nat)),
{
    let block_len = processed.len();
    let mut peak: u32 = 0;
    let mut energy: u128 = 0;
    let mut f: usize = 0;
    while f < frames
        invariant
            block_len == processed@.len(),
            block_len > 0,
            f <= frames,
            peak == peak_of(played(processed@, f as nat)),
            energy == energy_of(played(processed@, f as nat)),
            energy <= f * 0x4000_0000_0000_0000,
        decreases frames - f,
    {
        let m: u32 = sample_magnitude(processed[f % block_len]);
        proof {
            let next = played(processed@, (f + 1) as nat);
            assert(next.drop_last() =~= played(processed@, f as nat));
            assert(next.last() == processed@[(f % block_len) as int]);
            assert(m * m <= 0x4000_0000_0000_0000) by (nonlinear_arith)
                requires
                    0 <= m <= 0x8000_0000,
            ;
        }
        let wide: u128 = m as u128;
        energy = energy + wide * wide;
        if m > peak {
            peak = m;
        }
        f += 1;
    }
    if frames == 0 {
        return Level { peak: 0, rms: 0 };
    }
    let mean: u128 = energy / (frames as u128);
    assert(mean <= 0x4000_0000_0000_0000) by (nonlinear_arith)
        requires
            frames > 0,
            energy <= frames * 0x4000_0000_0000_0000,
            mean == energy / (frames as u128),
    ;
    let rms: u32 = isqrt(mean as u64);
    Level { peak, rms }
}

/// Renders `processed` into `out`, a buffer of frames of `channels` samples,
/// and meters what was written.
///
/// Where no block has been produced yet the buffer is left as it was and
/// there is no reading; else every frame is written and the reading is that
/// of the samples played, one per frame.
pub fn render_block(out: &mut [i32], processed: &[i32], channels: usize) -> (level: Option<Level>)
    requires
        channels > 0,
    ensures
        final(out)@ == rendered(old(out)@, processed@, channels as nat),
        level == if processed@.len() == 0 {
            None
        } else {
            Some(
                Level::of(
                    played(processed@, stride_count(old(out)@.len(), channels as nat, 0)),
                ),
            )
        },
{
    if processed.len() == 0 {
        return None;
    }
    let frames: usize = count_strides(out.len(), channels, 0);
    fill_block(out, processed, channels);
    Some(measure_played(processed, frames))
}

/// Every channel of a rendered buffer carries the block: taking any one
/// channel out again gives the samples played, frame by frame.
pub proof fn lemma_every_channel_plays_the_block(
    before: Seq<i32>,
    processed: Seq<i32>,
    channels: nat,
    selected: nat,
)
    requires
        selected < channels,
        processed.len() > 0,
    ensures
        channel_of(rendered(before, processed, channels), channels, selected) == played(
            processed,
            stride_count(before.len(), channels, selected),
        ),
{
    let out = rendered(before, processed, channels);
    let count = stride_count(before.len(), channels, selected);
    let taken = channel_of(out, channels, selected);
    assert forall|k: int| 0 <= k < count implies #[trigger] taken[k] == frame_sample(processed, k) by {
        lemma_stride_count_is_exact(before.len(), channels, selected, k as nat);
        let p = k * channels + selected;
        assert(k * channels >= 0) by (nonlinear_arith)
            requires
                k >= 0,
                channels >= 0,
        ;
        lemma_fundamental_div_mod_converse(p, channels as int, k, selected as int);
        assert(out[p] == frame_sample(processed, p / (channels as int)));
    }
    assert(taken =~= played(processed, count));
}

/// A block as long as the buffer has frames is played once, as it is.
pub proof fn lemma_matching_block_plays_once(processed: Seq<i32>)
    ensures
        played(processed, processed.len()) == processed,
{
    assert forall|f: int| 0 <= f < processed.len() implies #[trigger] played(processed, processed.len())[f]
        == processed[f] by {
        lemma_small_mod(f as nat, processed.len());
    }
    assert(played(processed, processed.len()) =~= processed);
}

} // verus!
