//! Positioning of buffer playback.
//!
//! A recorded buffer is played one sample per frame. Each callback asks for
//! a number of frames; the cursor says which samples fill them and moves on.
//! Frames behind the end of the buffer are silent.

use vstd::prelude::*;

verus! {

/// A run of consecutive samples of a buffer.
#[derive(Clone, Copy, Debug, PartialEq, Eq, Structural)]
pub struct Span {
    /// Position of the first sample.
    pub start: usize,
    /// Number of samples.
    pub count: usize,
}

/// The place of a playback in its buffer.
#[derive(Clone, Copy, Debug, PartialEq, Eq, Structural)]
pub struct PlaybackCursor {
    position: usize,
    length: usize,
}

impl PlaybackCursor {
    /// The number of samples played so far.
    pub closed spec fn played(self) -> nat {
        self.position as nat
    }

    /// The number of samples in the buffer.
    pub closed spec fn total(self) -> nat {
        self.length as nat
    }

    /// A cursor never stands behind the end of its buffer.
    #[verifier::type_invariant]
    pub closed spec fn within_buffer(self) -> bool {
        self.position <= self.length
    }

    /// A cursor at the start of a buffer of `length` samples.
    pub fn new(length: usize) -> (cursor: PlaybackCursor)
        ensures
            cursor.played() == 0,
            cursor.total() == length,
    {
        PlaybackCursor { position: 0, length }
    }

    /// The number of samples played so far.
    pub fn position(&self) -> (position: usize)
        ensures
            position == self.played(),
            position <= self.total(),
    {
        proof {
            use_type_invariant(self);
        }
        self.position
    }

    /// The number of samples still to play.
    pub fn remaining(&self) -> (remaining: usize)
        ensures
            remaining == self.total() - self.played(),
    {
        proof {
            use_type_invariant(self);
        }
        self.length - self.position
    }

    /// Whether the whole buffer has been played.
    pub fn is_finished(&self) -> (finished: bool)
        ensures
            finished == (self.played() == self.total()),
    {
        proof {
            use_type_invariant(self);
        }
        self.position >= self.length
    }

    /// Moves on by a callback of `frames` frames.
    ///
    /// The span returned says what the callback plays: its first
    /// `span.count` frames carry the samples from `span.start` on, one each,
    /// and the frames after them are silent. The span begins where the last
    /// one ended and takes as many samples as there are frames, or all that
    /// are left.
    pub fn advance(&mut self, frames: usize) -> (span: Span)
        ensures
            span.start == old(self).played(),
            span.count == if frames <= old(self).total() - old(self).played() {
                frames as int
            } else {
                old(self).total() - old(self).played()
            },
            final(self).played() == old(self).played() + span.count,
            final(self).total() == old(self).total(),
    {
        proof {
            use_type_invariant(&*self);
        }
        let left = self.length - self.position;
        let count = if frames <= left {
            frames
        } else {
            left
        };
        let start = self.position;
        self.position = start + count;
        Span { start, count }
    }
}

} // verus!
