//! From a frame of samples to the calls that are made to the encoder for it.

use vstd::prelude::*;

use crate::gate::{gate_count, gate_passes, ZeroGate};
use crate::sample::{all_silent, Sample};
use crate::target::{PaTarget, Target};

verus! {

/// Number of samples that are encoded at a time on Android. The encoder takes
/// 120, 240, 480, 960, 1920 or 2880 samples.
pub const BATCH_SIZE: usize = 960;

/// One call to the encoder: the samples to encode, and the number of bytes that
/// the result may take.
#[derive(Debug, PartialEq, Eq)]
pub struct EncodeCall {
    pub data: Vec<Sample>,
    pub max_size: usize,
}

impl View for EncodeCall {
    type V = (Seq<Sample>, nat);

    open spec fn view(&self) -> (Seq<Sample>, nat) {
        (self.data@, self.max_size as nat)
    }
}

/// The calls of a list, by their views.
pub open spec fn calls_view(calls: Seq<EncodeCall>) -> Seq<(Seq<Sample>, nat)> {
    Seq::new(calls.len(), |i: int| calls[i]@)
}

/// A frame on Android is encoded only if it is more than one batch and a whole
/// number of them.
pub open spec fn batchable(len: nat) -> bool {
    len > BATCH_SIZE && len % (BATCH_SIZE as nat) == 0
}

/// The `i`th batch of a frame.
pub open spec fn batch(data: Seq<Sample>, i: int) -> Seq<Sample> {
    data.subrange(i * BATCH_SIZE, (i + 1) * BATCH_SIZE)
}

/// The encoder calls for a frame that passed the noise gate: batch by batch on
/// Android, in one call with six bytes a sample elsewhere.
pub open spec fn encode_calls(target: Target, data: Seq<Sample>) -> Seq<(Seq<Sample>, nat)> {
    match target {
        Target::Pa(PaTarget::Android) => if batchable(data.len()) {
            Seq::new(
                data.len() / (BATCH_SIZE as nat),
                |i: int| (batch(data, i), BATCH_SIZE as nat),
            )
        } else {
            Seq::empty()
        },
        _ => seq![(data, data.len() * 6)],
    }
}

/// The encoder calls for a frame that comes to a gate with the given count.
pub open spec fn sent_calls(target: Target, count: nat, data: Seq<Sample>) -> Seq<
    (Seq<Sample>, nat),
> {
    if gate_passes(count, all_silent(data)) {
        encode_calls(target, data)
    } else {
        Seq::empty()
    }
}

/// A frame whose output limit is representable. Off Android the limit is six
/// bytes for each sample.
pub open spec fn sendable(target: Target, len: nat) -> bool {
    target == Target::Pa(PaTarget::Android) || len * 6 <= usize::MAX
}

fn copy_range(data: &[Sample], from: usize, to: usize) -> (part: Vec<Sample>)
    requires
        from <= to <= data@.len(),
    ensures
        part@ == data@.subrange(from as int, to as int),
{
    let mut part: Vec<Sample> = Vec::new();
    let mut i: usize = from;
    while i < to
        invariant
            from <= i <= to <= data@.len(),
            part@ == data@.subrange(from as int, i as int),
        decreases to - i,
    {
        part.push(data[i]);
        i += 1;
        assert(part@ =~= data@.subrange(from as int, i as int));
    }
    part
}

/// Cuts a frame into batches.
fn encode_batches(data: &[Sample]) -> (calls: Vec<EncodeCall>)
    requires
        batchable(data@.len()),
    ensures
        calls_view(calls@) == encode_calls(Target::Pa(PaTarget::Android), data@),
{
    let len: usize = data.len();
    let n: usize = len / BATCH_SIZE;
    let mut calls: Vec<EncodeCall> = Vec::new();
    let mut i: usize = 0;
    let mut at: usize = 0;
    while i < n
        invariant
            i <= n,
            len == data@.len(),
            n == data@.len() / (BATCH_SIZE as nat),
            n * BATCH_SIZE == len,
            at == i * BATCH_SIZE,
            calls@.len() == i,
            forall|j: int|
                0 <= j < i ==> #[trigger] calls@[j]@ == (batch(data@, j), BATCH_SIZE as nat),
        decreases n - i,
    {
        calls.push(EncodeCall { data: copy_range(data, at, at + BATCH_SIZE), max_size: BATCH_SIZE });
        at += BATCH_SIZE;
        i += 1;
    }
    assert(calls_view(calls@) =~= encode_calls(Target::Pa(PaTarget::Android), data@));
    calls
}

/// Passes a frame through the noise gate and gives the encoder calls to make
/// for it, in order.
pub fn send_f32(target: Target, gate: &mut ZeroGate, data: &[Sample]) -> (calls: Vec<EncodeCall>)
    requires
        sendable(target, data@.len()),
    ensures
        calls_view(calls@) == sent_calls(target, old(gate)@, data@),
        final(gate)@ == gate_count(old(gate)@, all_silent(data@)),
{
    if !gate.pass(data) {
        let calls: Vec<EncodeCall> = Vec::new();
        assert(calls_view(calls@) =~= Seq::empty());
        return calls;
    }
    let len: usize = data.len();
    match target {
        Target::Pa(PaTarget::Android) => {
            if len > BATCH_SIZE && len % BATCH_SIZE == 0 {
                encode_batches(data)
            } else {
                let calls: Vec<EncodeCall> = Vec::new();
                assert(calls_view(calls@) =~= Seq::empty());
                calls
            }
        },
        _ => {
            let mut calls: Vec<EncodeCall> = Vec::new();
            calls.push(EncodeCall { data: copy_range(data, 0, len), max_size: len * 6 });
            assert(data@.subrange(0, len as int) =~= data@);
            assert(calls_view(calls@) =~= encode_calls(target, data@));
            calls
        },
    }
}

/// The samples that a list of calls hands to the encoder, one after the other.
pub open spec fn encoded_samples(calls: Seq<(Seq<Sample>, nat)>) -> Seq<Sample>
    decreases calls.len(),
{
    if calls.len() == 0 {
        Seq::empty()
    } else {
        encoded_samples(calls.drop_last()) + calls.last().0
    }
}

proof fn lemma_batches_prefix(data: Seq<Sample>, n: nat)
    requires
        n * BATCH_SIZE <= data.len(),
    ensures
        encoded_samples(Seq::new(n, |i: int| (batch(data, i), BATCH_SIZE as nat)))
            == data.subrange(0, n * BATCH_SIZE),
    decreases n,
{
    let calls = Seq::new(n, |i: int| (batch(data, i), BATCH_SIZE as nat));
    if n == 0 {
        assert(data.subrange(0, 0) =~= Seq::empty());
    } else {
        let m = (n - 1) as nat;
        let fewer = Seq::new(m, |i: int| (batch(data, i), BATCH_SIZE as nat));
        assert(calls.drop_last() =~= fewer);
        lemma_batches_prefix(data, m);
        assert(data.subrange(0, m * BATCH_SIZE) + batch(data, m as int) =~= data.subrange(
            0,
            n * BATCH_SIZE,
        ));
    }
}

/// Every sample of a frame that is encoded is encoded once and in order, however
/// the frame is cut.
pub proof fn lemma_encode_calls_keep_samples(target: Target, data: Seq<Sample>)
    requires
        target != Target::Pa(PaTarget::Android) || batchable(data.len()),
    ensures
        encoded_samples(encode_calls(target, data)) == data,
{
    match target {
        Target::Pa(PaTarget::Android) => {
            let n = data.len() / (BATCH_SIZE as nat);
            assert(n * BATCH_SIZE == data.len());
            lemma_batches_prefix(data, n);
            assert(data.subrange(0, data.len() as int) =~= data);
        },
        _ => {
            let calls = encode_calls(target, data);
            reveal_with_fuel(encoded_samples, 2);
            assert(calls.drop_last() =~= Seq::empty());
            assert(encoded_samples(calls) =~= data);
        },
    }
}

/// On Android the encoder is only ever handed frames of one batch, which is a
/// number of samples that it takes.
pub proof fn lemma_android_calls_are_batches(data: Seq<Sample>)
    ensures
        forall|i: int|
            0 <= i < encode_calls(Target::Pa(PaTarget::Android), data).len() ==> (#[trigger] encode_calls(
                Target::Pa(PaTarget::Android),
                data,
            )[i]).0.len() == BATCH_SIZE,
{
    assert forall|i: int| 0 <= i < encode_calls(Target::Pa(PaTarget::Android), data).len() implies (
    #[trigger] encode_calls(Target::Pa(PaTarget::Android), data)[i]).0.len() == BATCH_SIZE by {
        assert((i + 1) * BATCH_SIZE <= data.len());
        assert(batch(data, i).len() == BATCH_SIZE);
    }
}

/// Off Android a frame goes to the encoder whole, with room for six bytes a sample.
pub proof fn lemma_whole_frame_is_encoded(target: Target, data: Seq<Sample>)
    requires
        target != Target::Pa(PaTarget::Android),
    ensures
        encode_calls(target, data).len() == 1,
        encode_calls(target, data)[0].0 == data,
        encode_calls(target, data)[0].1 == 6 * data.len(),
{
}

/// On Android a frame of more than one batch, and of whole batches, is cut after every
/// 960 samples, with room for 960 bytes each; sample `j` of batch `i` is sample
/// `960 * i + j` of the frame. Any other frame is not encoded.
pub proof fn lemma_batches_are_cut_in_place(data: Seq<Sample>)
    ensures
        ({
            let calls = encode_calls(Target::Pa(PaTarget::Android), data);
            if data.len() > 960 && data.len() % 960 == 0 {
                &&& 960 * calls.len() == data.len()
                &&& forall|i: int|
                    0 <= i < calls.len() ==> (#[trigger] calls[i]).0.len() == 960 && calls[i].1
                        == 960
                &&& forall|i: int, j: int|
                    0 <= i < calls.len() && 0 <= j < 960 ==> #[trigger] calls[i].0[j] == data[960
                        * i + j]
            } else {
                calls.len() == 0
            }
        }),
{
    let calls = encode_calls(Target::Pa(PaTarget::Android), data);
    if data.len() > 960 && data.len() % 960 == 0 {
        assert forall|i: int| 0 <= i < calls.len() implies (#[trigger] calls[i]).0.len() == 960
            && calls[i].1 == 960 by {
            assert((i + 1) * BATCH_SIZE <= data.len());
        }
        assert forall|i: int, j: int| 0 <= i < calls.len() && 0 <= j < 960 implies
            #[trigger] calls[i].0[j] == data[960 * i + j] by {
            assert((i + 1) * BATCH_SIZE <= data.len());
            assert(calls[i].0 == batch(data, i));
        }
    }
}

/// A frame with sound in it is always encoded. A silent one is encoded up to 800
/// silent frames counted, and then nothing is.
pub proof fn lemma_silence_is_sent_up_to_the_limit(target: Target, count: nat, data: Seq<Sample>)
    ensures
        (exists|i: int|
            0 <= i < data.len() && (#[trigger] data[i]).bits as int % 0x8000_0000 != 0)
            ==> sent_calls(target, count, data) == encode_calls(target, data),
        count <= 800 ==> sent_calls(target, count, data) == encode_calls(target, data),
        count > 800 && (forall|i: int|
            0 <= i < data.len() ==> (#[trigger] data[i]).bits as int % 0x8000_0000 == 0)
            ==> sent_calls(target, count, data).len() == 0,
{
    crate::sample::lemma_all_silent_has_no_magnitude(data);
}

/// A call is seen with all its samples and its number of bytes.
pub proof fn lemma_calls_view(calls: Seq<EncodeCall>)
    ensures
        calls_view(calls).len() == calls.len(),
        forall|i: int|
            0 <= i < calls.len() ==> (#[trigger] calls_view(calls)[i]).0 == calls[i].data@
                && calls_view(calls)[i].1 == calls[i].max_size,
{
}

/// Every frame whose output limit can be written in a machine word can be sent, and on
/// Android every frame.
pub proof fn lemma_sendable(target: Target, len: nat)
    ensures
        sendable(target, len) <==> target == Target::Pa(PaTarget::Android) || 6 * len
            <= usize::MAX,
{
}

} // verus!
