//! System audio and the microphone as one stereo stream.

use vstd::prelude::*;

use crate::sample::Sample;

verus! {

/// The format of a captured stream.
#[derive(Clone, Debug, PartialEq, Eq)]
pub struct AudioFormat {
    pub sample_rate: u32,
    pub channels: u16,
    pub bits_per_sample: u16,
}

/// A piece of a captured stream.
#[derive(Clone, Debug, PartialEq, Eq)]
pub struct AudioPacket {
    pub data: Vec<Sample>,
    pub sample_rate: u32,
    pub channels: u16,
}

/// The shorter of two lengths.
pub open spec fn shorter(a: nat, b: nat) -> nat {
    if a <= b {
        a
    } else {
        b
    }
}

/// Samples of two streams in turn, the left one first, as far as both reach.
pub open spec fn interleaved(left: Seq<Sample>, right: Seq<Sample>) -> Seq<Sample> {
    Seq::new(
        2 * shorter(left.len(), right.len()),
        |i: int|
            if i % 2 == 0 {
                left[i / 2]
            } else {
                right[i / 2]
            },
    )
}

/// Merges a packet of system audio and one of the microphone into a stereo
/// packet: system audio on the left, the microphone on the right. What one of
/// them has beyond the other is dropped, and the rate is that of system audio.
pub fn merge_streams(system: &AudioPacket, mic: &AudioPacket) -> (merged: AudioPacket)
    ensures
        merged.data@ == interleaved(system.data@, mic.data@),
        merged.sample_rate == system.sample_rate,
        merged.channels == 2,
{
    let n: usize = if system.data.len() <= mic.data.len() {
        system.data.len()
    } else {
        mic.data.len()
    };
    let mut data: Vec<Sample> = Vec::new();
    let mut i: usize = 0;
    while i < n
        invariant
            i <= n,
            n == shorter(system.data@.len(), mic.data@.len()),
            data@.len() == 2 * i,
            forall|j: int|
                0 <= j < 2 * i ==> #[trigger] data@[j] == interleaved(system.data@, mic.data@)[j],
        decreases n - i,
    {
        data.push(system.data[i]);
        data.push(mic.data[i]);
        i += 1;
    }
    assert(data@ =~= interleaved(system.data@, mic.data@));
    AudioPacket { data, sample_rate: system.sample_rate, channels: 2 }
}

/// One channel of a stereo stream: 0 is the left, 1 the right.
pub open spec fn channel(data: Seq<Sample>, c: int) -> Seq<Sample> {
    Seq::new(data.len() / 2, |i: int| data[2 * i + c])
}

/// Each stream can be heard on its own channel: the left channel holds the first
/// stream and the right one the second, both as far as the shorter one reaches.
pub proof fn lemma_channels_of_interleaved(left: Seq<Sample>, right: Seq<Sample>)
    ensures
        channel(interleaved(left, right), 0) == left.take(
            shorter(left.len(), right.len()) as int,
        ),
        channel(interleaved(left, right), 1) == right.take(
            shorter(left.len(), right.len()) as int,
        ),
{
    let n = shorter(left.len(), right.len());
    assert((2 * n) / 2 == n);
    assert(channel(interleaved(left, right), 0) =~= left.take(n as int));
    assert(channel(interleaved(left, right), 1) =~= right.take(n as int));
}

/// Samples are merged in place: sample `i` of the left stream becomes sample `2 * i`,
/// and that of the right stream the one after it, as long as both have one.
pub proof fn lemma_interleaved_in_place(left: Seq<Sample>, right: Seq<Sample>)
    ensures
        interleaved(left, right).len() == if left.len() < right.len() {
            2 * left.len()
        } else {
            2 * right.len()
        },
        forall|i: int|
            0 <= i < left.len() && i < right.len() ==> interleaved(left, right)[2 * i]
                == #[trigger] left[i],
        forall|i: int|
            0 <= i < left.len() && i < right.len() ==> interleaved(left, right)[2 * i + 1]
                == #[trigger] right[i],
{
}

} // verus!
