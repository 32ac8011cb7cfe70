//! Stream configuration negotiation.
//!
//! A device reports the configurations it supports as ranges: a channel
//! count, a sample format and an interval of sample rates. A duplex stream
//! needs one configuration that the device offers for capture and, with the
//! same channels, format and rate, for rendering as well.

use vstd::prelude::*;

verus! {

/// Channel count of every stream that is built: two.
pub const STEREO_CHANNELS: u16 = 2;

/// The representation of one sample in a hardware buffer.
#[derive(Clone, Copy, Debug, PartialEq, Eq, Structural)]
pub enum SampleFormat {
    I8,
    I16,
    I32,
    I64,
    U8,
    U16,
    U32,
    U64,
    Float32,
    Float64,
    /// A format that this library has no name for.
    Other,
}

/// One supported configuration range of a device.
#[derive(Clone, Copy, Debug, PartialEq, Eq, Structural)]
pub struct ConfigRange {
    pub channels: u16,
    pub sample_format: SampleFormat,
    pub min_sample_rate: u32,
    pub max_sample_rate: u32,
}

/// A configuration fixed for the lifetime of a stream.
#[derive(Clone, Copy, Debug, PartialEq, Eq, Structural)]
pub struct StreamConfig {
    pub channels: u16,
    pub sample_format: SampleFormat,
    pub sample_rate: u32,
}

/// What a host reports of one of its devices.
#[derive(Clone, Copy, Debug, PartialEq, Eq, Structural)]
pub struct DeviceCaps {
    /// The device gave its name.
    pub named: bool,
    /// The device listed capture configurations.
    pub captures: bool,
    /// The device listed render configurations.
    pub renders: bool,
}

impl DeviceCaps {
    /// The device can carry a duplex stream and can be offered by name.
    pub open spec fn is_duplex(self) -> bool {
        self.named && self.captures && self.renders
    }
}

/// `range` offers exactly `rate` and nothing else.
pub open spec fn pins_rate(range: ConfigRange, rate: u32) -> bool {
    range.min_sample_rate == rate && range.max_sample_rate == rate
}

/// `range` is usable for capture at `rate`: two channels of 32-bit integer
/// samples at exactly that rate.
pub open spec fn is_capture_candidate(range: ConfigRange, rate: u32) -> bool {
    &&& range.channels == STEREO_CHANNELS
    &&& range.sample_format == SampleFormat::I32
    &&& pins_rate(range, rate)
}

/// `output` renders what `input` captures: same channels, same format, and
/// exactly `rate`.
pub open spec fn is_render_match(output: ConfigRange, input: ConfigRange, rate: u32) -> bool {
    &&& output.channels == input.channels
    &&& output.sample_format == input.sample_format
    &&& pins_rate(output, rate)
}

/// Some range in `outputs` renders what `input` captures.
pub open spec fn has_render_match(outputs: Seq<ConfigRange>, input: ConfigRange, rate: u32) -> bool {
    exists|j: int| 0 <= j < outputs.len() && is_render_match(#[trigger] outputs[j], input, rate)
}

/// `input` can carry a duplex stream at `rate` on a device that renders
/// `outputs`.
pub open spec fn is_duplex_choice(input: ConfigRange, outputs: Seq<ConfigRange>, rate: u32) -> bool {
    is_capture_candidate(input, rate) && has_render_match(outputs, input, rate)
}

/// `range` can play back a stereo buffer at `rate`.
pub open spec fn is_playback_choice(range: ConfigRange, rate: u32) -> bool {
    &&& range.channels == STEREO_CHANNELS
    &&& range.min_sample_rate <= rate
    &&& rate <= range.max_sample_rate
}

impl ConfigRange {
    /// Whether `rate` lies within the range.
    pub open spec fn covers(self, rate: u32) -> bool {
        self.min_sample_rate <= rate && rate <= self.max_sample_rate
    }

    /// The configuration of this range at `rate`, if the range covers it.
    pub fn with_sample_rate(&self, rate: u32) -> (config: Option<StreamConfig>)
        ensures
            config.is_some() <==> self.covers(rate),
            config matches Some(c) ==> c.channels == self.channels && c.sample_format
                == self.sample_format && c.sample_rate == rate,
    {
        if self.min_sample_rate <= rate && rate <= self.max_sample_rate {
            Some(
                StreamConfig {
                    channels: self.channels,
                    sample_format: self.sample_format,
                    sample_rate: rate,
                },
            )
        } else {
            None
        }
    }

    /// Decides `is_capture_candidate`.
    pub fn is_capture_candidate(&self, rate: u32) -> (b: bool)
        ensures
            b == is_capture_candidate(*self, rate),
    {
        self.channels == STEREO_CHANNELS && self.sample_format == SampleFormat::I32
            && self.min_sample_rate == rate && self.max_sample_rate == rate
    }

    /// Decides `is_render_match` with `self` as the output range.
    pub fn renders(&self, input: &ConfigRange, rate: u32) -> (b: bool)
        ensures
            b == is_render_match(*self, *input, rate),
    {
        self.channels == input.channels && self.sample_format == input.sample_format
            && self.min_sample_rate == rate && self.max_sample_rate == rate
    }
}

/// The devices that can be offered for a duplex stream: the positions in
/// `devices`, in ascending order, of those that capture and render and have
/// a name.
pub fn duplex_devices(devices: &Vec<DeviceCaps>) -> (chosen: Vec<usize>)
    ensures
        forall|j: int|
            0 <= j < chosen@.len() ==> chosen@[j] < devices@.len() && devices@[chosen@[j] as int].is_duplex(),
        forall|i: int, j: int| 0 <= i < j < chosen@.len() ==> chosen@[i] < chosen@[j],
        forall|d: int|
            0 <= d < devices@.len() && devices@[d].is_duplex() ==> chosen@.contains(d as usize),
{
    let mut chosen: Vec<usize> = Vec::new();
    let mut d: usize = 0;
    while d < devices.len()
        invariant
            d <= devices@.len(),
            forall|j: int|
                0 <= j < chosen@.len() ==> chosen@[j] < d && devices@[chosen@[j] as int].is_duplex(),
            forall|i: int, j: int| 0 <= i < j < chosen@.len() ==> chosen@[i] < chosen@[j],
            forall|e: int| 0 <= e < d && devices@[e].is_duplex() ==> chosen@.contains(e as usize),
        decreases devices.len() - d,
    {
        let caps = &devices[d];
        if caps.named && caps.captures && caps.renders {
            let ghost before = chosen@;
            chosen.push(d);
            proof {
                assert(chosen@[before.len() as int] == d);
                assert forall|e: int| 0 <= e < d + 1 && devices@[e].is_duplex() implies chosen@.contains(
                    e as usize,
                ) by {
                    if e < d {
                        assert(before.contains(e as usize));
                        let j = choose|j: int| 0 <= j < before.len() && before[j] == e as usize;
                        assert(chosen@[j] == e as usize);
                    }
                }
            }
        }
        d += 1;
    }
    chosen
}

/// Decides whether some range in `outputs` renders what `input` captures at
/// `rate`.
pub fn any_render_match(outputs: &Vec<ConfigRange>, input: &ConfigRange, rate: u32) -> (b: bool)
    ensures
        b == has_render_match(outputs@, *input, rate),
{
    let mut j: usize = 0;
    while j < outputs.len()
        invariant
            j <= outputs.len(),
            forall|k: int| 0 <= k < j ==> !is_render_match(#[trigger] outputs@[k], *input, rate),
        decreases outputs.len() - j,
    {
        if outputs[j].renders(input, rate) {
            return true;
        }
        j += 1;
    }
    false
}

/// The first capture range that can carry a duplex stream at `rate`.
///
/// Returns the index into `inputs` of the first range that is a capture
/// candidate and has a matching render range in `outputs`; `None` exactly
/// when no range of `inputs` qualifies.
pub fn find_duplex_config(inputs: &Vec<ConfigRange>, outputs: &Vec<ConfigRange>, rate: u32) -> (found:
    Option<usize>)
    ensures
        match found {
            Some(i) => {
                &&& i < inputs.len()
                &&& is_duplex_choice(inputs@[i as int], outputs@, rate)
                &&& forall|k: int| 0 <= k < i ==> !is_duplex_choice(#[trigger] inputs@[k], outputs@, rate)
            },
            None => forall|k: int|
                0 <= k < inputs.len() ==> !is_duplex_choice(#[trigger] inputs@[k], outputs@, rate),
        },
{
    let mut i: usize = 0;
    while i < inputs.len()
        invariant
            i <= inputs.len(),
            forall|k: int| 0 <= k < i ==> !is_duplex_choice(#[trigger] inputs@[k], outputs@, rate),
        decreases inputs.len() - i,
    {
        if inputs[i].is_capture_candidate(rate) && any_render_match(outputs, &inputs[i], rate) {
            return Some(i);
        }
        i += 1;
    }
    None
}

/// The first render range that can play a stereo buffer at `rate`.
pub fn find_playback_config(outputs: &Vec<ConfigRange>, rate: u32) -> (found: Option<usize>)
    ensures
        match found {
            Some(i) => {
                &&& i < outputs.len()
                &&& is_playback_choice(outputs@[i as int], rate)
                &&& forall|k: int| 0 <= k < i ==> !is_playback_choice(#[trigger] outputs@[k], rate)
            },
            None => forall|k: int|
                0 <= k < outputs.len() ==> !is_playback_choice(#[trigger] outputs@[k], rate),
        },
{
    let mut i: usize = 0;
    while i < outputs.len()
        invariant
            i <= outputs.len(),
            forall|k: int| 0 <= k < i ==> !is_playback_choice(#[trigger] outputs@[k], rate),
        decreases outputs.len() - i,
    {
        let range = &outputs[i];
        if range.channels == STEREO_CHANNELS && range.min_sample_rate <= rate && rate
            <= range.max_sample_rate {
            return Some(i);
        }
        i += 1;
    }
    None
}

/// The duplex configuration of a device at `rate`: that of the first capture
/// range chosen by `find_duplex_config`, at `rate`.
pub fn negotiate(inputs: &Vec<ConfigRange>, outputs: &Vec<ConfigRange>, rate: u32) -> (config: Option<
    StreamConfig,
>)
    ensures
        config.is_some() <==> exists|k: int|
            0 <= k < inputs.len() && is_duplex_choice(#[trigger] inputs@[k], outputs@, rate),
        config matches Some(c) ==> c == (StreamConfig {
            channels: STEREO_CHANNELS,
            sample_format: SampleFormat::I32,
            sample_rate: rate,
        }),
{
    match find_duplex_config(inputs, outputs, rate) {
        Some(i) => inputs[i].with_sample_rate(rate),
        None => None,
    }
}

/// A negotiated configuration is served in both directions: whenever
/// negotiation can succeed, the device offers a capture range and a render
/// range that both have two channels of 32-bit integers at exactly `rate`.
pub proof fn lemma_duplex_choice_is_symmetric(
    inputs: Seq<ConfigRange>,
    outputs: Seq<ConfigRange>,
    rate: u32,
    i: int,
)
    requires
        0 <= i < inputs.len(),
        is_duplex_choice(inputs[i], outputs, rate),
    ensures
        exists|j: int|
            0 <= j < outputs.len() && is_capture_candidate(inputs[i], rate)
                && is_capture_candidate(#[trigger] outputs[j], rate),
{
    let j = choose|j: int| 0 <= j < outputs.len() && is_render_match(#[trigger] outputs[j], inputs[i], rate);
    assert(is_capture_candidate(outputs[j], rate));
}

} // verus!
