//! Mixing the microphone with system audio.

use vstd::prelude::*;

use crate::buffer::{head, tail, InputBuffer};
use crate::convert::DeviceSamples;
use crate::format::{
    sample_kind, select_sample_kind, stream_config, stream_config_of, Channels, SampleKind,
    StreamConfig, SupportedStreamConfig, UnsupportedFormat,
};
use crate::merge::shorter;
use crate::sample::Sample;
use crate::stream::{frame_size, Application, EncoderRequest};

verus! {

/// Milliseconds to wait while neither buffer holds a frame.
pub const MIX_WAIT_MS: u64 = 10;

/// What the mixer does next.
#[derive(Debug, PartialEq, Eq)]
pub enum MixStep {
    /// Wait for samples.
    Wait { millis: u64 },
    /// Average each pair, a microphone sample with one of system audio, and send
    /// the result as a frame.
    Mix(Vec<(Sample, Sample)>),
}

/// Samples of two frames side by side, as far as both reach.
pub open spec fn paired(a: Seq<Sample>, b: Seq<Sample>) -> Seq<(Sample, Sample)> {
    Seq::new(shorter(a.len(), b.len()), |i: int| (a[i], b[i]))
}

/// A stream that only fills a buffer: how its samples are converted, and what it
/// is opened with.
#[derive(Clone, Copy, Debug, PartialEq, Eq, Structural)]
pub struct BufferedStream {
    pub kind: SampleKind,
    pub config: StreamConfig,
    /// Milliseconds to wait for the device, where there is a limit.
    pub timeout_ms: Option<u64>,
}

/// Prepares a stream that fills a buffer. It fails exactly for the formats that
/// cannot be converted, and names the format.
pub fn build_input_stream_with_buffer(config: SupportedStreamConfig) -> (stream: Result<
    BufferedStream,
    UnsupportedFormat,
>)
    ensures
        stream == (match sample_kind(config.sample_format) {
            Ok(kind) => Ok::<BufferedStream, UnsupportedFormat>(
                (BufferedStream { kind, config: stream_config_of(config), timeout_ms: None }),
            ),
            Err(e) => Err(e),
        }),
{
    let stream: StreamConfig = stream_config(&config);
    match select_sample_kind(config.sample_format) {
        Ok(kind) => Ok(BufferedStream { kind, config: stream, timeout_ms: None }),
        Err(e) => Err(e),
    }
}

/// Takes in what the device delivered.
pub fn on_buffered_input(buffer: &mut InputBuffer, raw: &DeviceSamples)
    ensures
        final(buffer)@ == old(buffer)@ + raw.singles(),
{
    let samples: Vec<Sample> = raw.to_samples();
    buffer.extend(samples.as_slice());
}

/// What mixing starts with.
#[derive(Clone, Copy, Debug, PartialEq, Eq, Structural)]
pub struct MixStart {
    pub encoder: EncoderRequest,
    /// Number of samples that the mixer takes at a time.
    pub frame_size: usize,
}

/// Starts mixing: asks for an encoder, and fixes how much is taken at a time.
pub fn start_mixing_thread(sample_rate: u32, encode_channel: Channels) -> (start: MixStart)
    ensures
        start.encoder == (EncoderRequest {
            sample_rate,
            channels: encode_channel,
            application: Application::LowDelay,
        }),
        start.frame_size == frame_size(sample_rate),
{
    MixStart {
        encoder: EncoderRequest {
            sample_rate,
            channels: encode_channel,
            application: Application::LowDelay,
        },
        frame_size: sample_rate as usize / 100,
    }
}

fn pair_up(a: &Vec<Sample>, b: &Vec<Sample>) -> (pairs: Vec<(Sample, Sample)>)
    ensures
        pairs@ == paired(a@, b@),
{
    let n: usize = if a.len() <= b.len() {
        a.len()
    } else {
        b.len()
    };
    let mut pairs: Vec<(Sample, Sample)> = Vec::new();
    let mut i: usize = 0;
    while i < n
        invariant
            i <= n,
            n == shorter(a@.len(), b@.len()),
            pairs@.len() == i,
            forall|j: int| 0 <= j < i ==> #[trigger] pairs@[j] == (a@[j], b@[j]),
        decreases n - i,
    {
        pairs.push((a[i], b[i]));
        i += 1;
    }
    assert(pairs@ =~= paired(a@, b@));
    pairs
}

/// Takes a frame from each buffer that holds one. The mixer waits where neither
/// does; where only one does, its frame is taken and nothing is left to average.
pub fn mix_step(mic: &mut InputBuffer, loopback: &mut InputBuffer, n: usize) -> (step: MixStep)
    ensures
        final(mic)@ == tail(old(mic)@, n as nat),
        final(loopback)@ == tail(old(loopback)@, n as nat),
        ({
            let a = head(old(mic)@, n as nat);
            let b = head(old(loopback)@, n as nat);
            if a.len() == 0 && b.len() == 0 {
                step == (MixStep::Wait { millis: MIX_WAIT_MS })
            } else {
                step matches MixStep::Mix(pairs) && pairs@ == paired(a, b)
            }
        }),
{
    let mic_data: Vec<Sample> = mic.take_frame(n);
    let loopback_data: Vec<Sample> = loopback.take_frame(n);
    if mic_data.len() == 0 && loopback_data.len() == 0 {
        MixStep::Wait { millis: MIX_WAIT_MS }
    } else {
        MixStep::Mix(pair_up(&mic_data, &loopback_data))
    }
}

/// Where both buffers hold a frame, the two frames are paired in full: every
/// sample of either is averaged with the one at its place in the other.
pub proof fn lemma_full_frames_are_paired(mic: Seq<Sample>, loopback: Seq<Sample>, n: nat)
    requires
        mic.len() >= n,
        loopback.len() >= n,
    ensures
        paired(head(mic, n), head(loopback, n)).len() == n,
        forall|i: int|
            0 <= i < n ==> #[trigger] paired(head(mic, n), head(loopback, n))[i] == (
                mic[i],
                loopback[i],
            ),
{
}

/// Taking a frame keeps every sample: what is taken and what stays, put together
/// again, are what the buffer held.
pub proof fn lemma_head_and_tail(s: Seq<Sample>, n: nat)
    ensures
        head(s, n) + tail(s, n) == s,
{
    assert(head(s, n) + tail(s, n) =~= s);
}

/// Samples are paired in place: a pair for each place that both frames have, with the
/// microphone's sample first.
pub proof fn lemma_paired_in_place(a: Seq<Sample>, b: Seq<Sample>)
    ensures
        paired(a, b).len() == if a.len() < b.len() {
            a.len()
        } else {
            b.len()
        },
        forall|i: int|
            0 <= i < a.len() && i < b.len() ==> (#[trigger] paired(a, b)[i]).0 == a[i] && paired(
                a,
                b,
            )[i].1 == b[i],
{
}

} // verus!
