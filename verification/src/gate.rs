//! The noise gate: after a long stretch of silence, silent frames are held back
//! until sound returns.

use vstd::prelude::*;

use crate::sample::{is_all_zero, Sample};

verus! {

/// Number of silent frames in a row that leave the noise gate open.
pub const MAX_AUDIO_ZERO_COUNT: u16 = 800;

/// Whether a frame passes a gate that has counted `count` silent frames. Sound
/// always passes.
pub open spec fn gate_passes(count: nat, silent: bool) -> bool {
    !silent || count <= MAX_AUDIO_ZERO_COUNT
}

/// The count after a frame. Sound starts it anew. Silence adds to it, up to the
/// one frame that finds the noise gate closed for the first time.
pub open spec fn gate_count(count: nat, silent: bool) -> nat {
    if !silent {
        0
    } else if count <= MAX_AUDIO_ZERO_COUNT + 1 {
        count + 1
    } else {
        count
    }
}

/// The count after a run of frames, each given by whether it is silent.
pub open spec fn gate_count_after(count: nat, frames: Seq<bool>) -> nat
    decreases frames.len(),
{
    if frames.len() == 0 {
        count
    } else {
        gate_count(gate_count_after(count, frames.drop_last()), frames.last())
    }
}

/// How many of a run of frames pass.
pub open spec fn gate_passed(count: nat, frames: Seq<bool>) -> nat
    decreases frames.len(),
{
    if frames.len() == 0 {
        0
    } else {
        let before = gate_passed(count, frames.drop_last());
        if gate_passes(gate_count_after(count, frames.drop_last()), frames.last()) {
            before + 1
        } else {
            before
        }
    }
}

/// Counts silent frames in a row.
#[derive(Debug)]
pub struct ZeroGate {
    count: u16,
}

impl View for ZeroGate {
    type V = nat;

    closed spec fn view(&self) -> nat {
        self.count as nat
    }
}

impl ZeroGate {
    #[verifier::type_invariant]
    spec fn bounded(self) -> bool {
        self.count <= MAX_AUDIO_ZERO_COUNT + 2
    }

    /// An open gate that has counted nothing.
    pub fn new() -> (gate: ZeroGate)
        ensures
            gate@ == 0,
    {
        ZeroGate { count: 0 }
    }

    /// Forgets all silence counted so far.
    pub fn reset(&mut self)
        ensures
            final(self)@ == 0,
    {
        self.count = 0;
    }

    /// The count, which never goes beyond the first silent frame held back.
    pub fn count(&self) -> (count: u16)
        ensures
            count == self@,
            count <= MAX_AUDIO_ZERO_COUNT + 2,
    {
        proof {
            use_type_invariant(self);
        }
        self.count
    }

    /// Counts a frame and tells whether it passes.
    pub fn pass(&mut self, data: &[Sample]) -> (passes: bool)
        ensures
            passes == gate_passes(old(self)@, crate::sample::all_silent(data@)),
            final(self)@ == gate_count(old(self)@, crate::sample::all_silent(data@)),
    {
        proof {
            use_type_invariant(&*self);
        }
        if !is_all_zero(data) {
            self.count = 0;
            true
        } else if self.count > MAX_AUDIO_ZERO_COUNT {
            if self.count == MAX_AUDIO_ZERO_COUNT + 1 {
                self.count += 1;
            }
            false
        } else {
            self.count += 1;
            true
        }
    }
}

/// Sound opens the noise gate, whatever came before, and starts the count anew.
pub proof fn lemma_sound_opens_gate(count: nat)
    ensures
        gate_passes(count, false),
        gate_count(count, false) == 0,
{
}

/// The count never goes more than two beyond the limit, whatever frames come.
pub proof fn lemma_gate_count_bounded(count: nat, frames: Seq<bool>)
    requires
        count <= MAX_AUDIO_ZERO_COUNT + 2,
    ensures
        gate_count_after(count, frames) <= MAX_AUDIO_ZERO_COUNT + 2,
    decreases frames.len(),
{
    if frames.len() > 0 {
        lemma_gate_count_bounded(count, frames.drop_last());
    }
}

/// Of a stretch of silence that follows sound or a reset, the first frames pass,
/// one more than the limit, and every later one is held back.
pub proof fn lemma_silence_closes_gate(frames: Seq<bool>)
    requires
        forall|i: int| 0 <= i < frames.len() ==> frames[i],
    ensures
        gate_passed(0, frames) == if frames.len() <= MAX_AUDIO_ZERO_COUNT + 1 {
            frames.len() as int
        } else {
            MAX_AUDIO_ZERO_COUNT + 1
        },
        gate_count_after(0, frames) == if frames.len() <= MAX_AUDIO_ZERO_COUNT + 2 {
            frames.len() as int
        } else {
            MAX_AUDIO_ZERO_COUNT + 2
        },
    decreases frames.len(),
{
    if frames.len() > 0 {
        assert(frames.last());
        lemma_silence_closes_gate(frames.drop_last());
    }
}

/// A run of frames is counted the same in one piece as in two.
pub proof fn lemma_gate_count_after_concat(count: nat, first: Seq<bool>, second: Seq<bool>)
    ensures
        gate_count_after(count, first + second) == gate_count_after(
            gate_count_after(count, first),
            second,
        ),
    decreases second.len(),
{
    if second.len() == 0 {
        assert(first + second =~= first);
    } else {
        assert((first + second).drop_last() =~= first + second.drop_last());
        assert((first + second).last() == second.last());
        lemma_gate_count_after_concat(count, first, second.drop_last());
    }
}

/// However long the noise gate was closed, what follows one frame of sound is treated
/// as it would be after a reset.
pub proof fn lemma_sound_forgets_silence(count: nat, before: Seq<bool>, after: Seq<bool>)
    ensures
        gate_count_after(count, before.push(false) + after) == gate_count_after(0, after),
{
    lemma_gate_count_after_concat(count, before.push(false), after);
    assert(before.push(false).drop_last() =~= before);
}

spec fn ends_silent(frames: Seq<bool>, k: int) -> bool {
    frames.len() >= k && forall|j: int|
        frames.len() - k <= j < frames.len() ==> #[trigger] frames[j]
}

proof fn lemma_count_is_silent_run(counts: Seq<nat>, frames: Seq<bool>)
    requires
        counts.len() == frames.len() + 1,
        counts[0] == 0,
        forall|i: int|
            0 <= i < frames.len() ==> counts[i + 1] == gate_count(counts[i], #[trigger] frames[i]),
    ensures
        counts.last() <= 802,
        forall|k: int|
            0 <= k <= 802 ==> (#[trigger] ends_silent(frames, k) <==> k <= counts.last()),
    decreases frames.len(),
{
    let n = frames.len() as int;
    if n > 0 {
        let fewer = frames.drop_last();
        let before = counts.drop_last();
        assert forall|i: int| 0 <= i < fewer.len() implies before[i + 1] == gate_count(
            before[i],
            #[trigger] fewer[i],
        ) by {
            assert(fewer[i] == frames[i]);
        }
        lemma_count_is_silent_run(before, fewer);
        assert(counts[n] == gate_count(counts[n - 1], frames[n - 1]));
        assert(before.last() == counts[n - 1]);
        assert forall|k: int| 0 <= k <= 802 implies (#[trigger] ends_silent(frames, k) <==> k
            <= counts.last()) by {
            if k > 0 {
                assert(ends_silent(fewer, k - 1) <==> k - 1 <= before.last());
                if ends_silent(frames, k) {
                    assert(frames[n - 1]);
                    assert forall|j: int| fewer.len() - (k - 1) <= j < fewer.len() implies
                        #[trigger] fewer[j] by {
                        assert(fewer[j] == frames[j]);
                    }
                }
                if frames[n - 1] && ends_silent(fewer, k - 1) {
                    assert forall|j: int| n - k <= j < n implies #[trigger] frames[j] by {
                        if j < n - 1 {
                            assert(fewer[j]);
                        }
                    }
                }
            }
        }
    }
}

/// From a reset on, whatever frames come, the count is the length of the run of silent
/// frames that they end with, up to 802.
pub proof fn lemma_gate_counts_silent_run(counts: Seq<nat>, frames: Seq<bool>, k: int)
    requires
        counts.len() == frames.len() + 1,
        counts[0] == 0,
        forall|i: int|
            0 <= i < frames.len() ==> counts[i + 1] == gate_count(counts[i], #[trigger] frames[i]),
        0 <= k <= 802,
    ensures
        counts.last() <= 802,
        k <= counts.last() <==> frames.len() >= k && forall|j: int|
            frames.len() - k <= j < frames.len() ==> #[trigger] frames[j],
{
    lemma_count_is_silent_run(counts, frames);
    assert(ends_silent(frames, k) <==> k <= counts.last());
}

/// From a reset on, whatever frames came before, a frame is held back exactly where it
/// is silent and the 801 frames before it were silent too.
pub proof fn lemma_gate_holds_back_long_silence(
    counts: Seq<nat>,
    frames: Seq<bool>,
    silent: bool,
)
    requires
        counts.len() == frames.len() + 1,
        counts[0] == 0,
        forall|i: int|
            0 <= i < frames.len() ==> counts[i + 1] == gate_count(counts[i], #[trigger] frames[i]),
    ensures
        !gate_passes(counts.last(), silent) <==> silent && frames.len() >= 801 && forall|j: int|
            frames.len() - 801 <= j < frames.len() ==> #[trigger] frames[j],
{
    lemma_gate_counts_silent_run(counts, frames, 801);
}

/// A run of frames is counted one by one, and one more is counted as passed where it
/// passes.
pub proof fn lemma_gate_run_step(count: nat, frames: Seq<bool>, silent: bool)
    ensures
        gate_count_after(count, Seq::empty()) == count,
        gate_passed(count, Seq::empty()) == 0,
        gate_count_after(count, frames.push(silent)) == gate_count(
            gate_count_after(count, frames),
            silent,
        ),
        gate_passed(count, frames.push(silent)) == gate_passed(count, frames) + if gate_passes(
            gate_count_after(count, frames),
            silent,
        ) {
            1int
        } else {
            0
        },
{
    assert(frames.push(silent).drop_last() =~= frames);
}

} // verus!
