//! The capture side of a stream: taking one channel out of an interleaved
//! hardware buffer.
//!
//! A buffer holds frames of `channels` samples each. The last frame may be
//! cut short; a channel is taken from every frame that still holds it.

use crate::stride::{count_strides, lemma_stride_count_is_exact, lemma_whole_strides, stride_count};
use vstd::prelude::*;

verus! {

/// The samples of channel `selected` in an interleaved buffer, frame by frame.
pub open spec fn channel_of(data: Seq<i32>, channels: nat, selected: nat) -> Seq<i32>
    recommends
        selected < channels,
{
    Seq::new(
        stride_count(data.len(), channels, selected),
        |k: int| data[k * channels + selected],
    )
}

/// Takes channel `selected` out of an interleaved buffer of `channels`
/// channels.
pub fn extract_channel(data: &[i32], channels: usize, selected: usize) -> (block: Vec<i32>)
    requires
        selected < channels,
    ensures
        block@ == channel_of(data@, channels as nat, selected as nat),
{
    let len = data.len();
    let count: usize = count_strides(len, channels, selected);
    let mut block: Vec<i32> = Vec::new();
    let mut k: usize = 0;
    let mut idx: usize = selected;
    while k < count
        invariant
            selected < channels,
            len == data@.len(),
            count == stride_count(len as nat, channels as nat, selected as nat),
            k <= count,
            k < count ==> idx == k * channels + selected,
            block@.len() == k,
            forall|j: int| 0 <= j < k ==> block@[j] == data@[j * channels + selected],
        decreases count - k,
    {
        proof {
            lemma_stride_count_is_exact(len as nat, channels as nat, selected as nat, k as nat);
        }
        block.push(data[idx]);
        k += 1;
        if k < count {
            proof {
                lemma_stride_count_is_exact(len as nat, channels as nat, selected as nat, k as nat);
                assert(k * channels == (k - 1) * channels + channels) by (nonlinear_arith);
            }
            idx += channels;
        }
    }
    assert(block@ =~= channel_of(data@, channels as nat, selected as nat));
    block
}

/// A buffer of whole frames gives every channel one sample per frame, and
/// sample `k` of the channel is the one that frame `k` holds for it.
pub proof fn lemma_whole_frames_split_evenly(data: Seq<i32>, channels: nat, selected: nat)
    requires
        selected < channels,
        data.len() % channels == 0,
    ensures
        channel_of(data, channels, selected).len() == data.len() / channels,
        forall|k: int|
            0 <= k < data.len() / channels ==> #[trigger] channel_of(data, channels, selected)[k]
                == data[k * channels + selected],
{
    lemma_whole_strides(data.len(), channels, selected);
}

/// A channel of silence is silent.
pub proof fn lemma_silence_is_captured_as_silence(data: Seq<i32>, channels: nat, selected: nat)
    requires
        selected < channels,
        forall|i: int| 0 <= i < data.len() ==> data[i] == 0,
    ensures
        forall|k: int|
            0 <= k < channel_of(data, channels, selected).len() ==> #[trigger] channel_of(
                data,
                channels,
                selected,
            )[k] == 0,
{
    assert forall|k: int| 0 <= k < channel_of(data, channels, selected).len() implies #[trigger] channel_of(
        data,
        channels,
        selected,
    )[k] == 0 by {
        lemma_stride_count_is_exact(data.len(), channels, selected, k as nat);
        assert(k * channels >= 0) by (nonlinear_arith)
            requires
                k >= 0,
                channels >= 0,
        ;
    }
}

} // verus!
