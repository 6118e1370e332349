//! The buffer between the capture callback, which delivers samples in pieces of
//! any length, and the encoder, which takes frames of a fixed length.

use std::collections::VecDeque;
use vstd::prelude::*;

use crate::sample::{all_silent, Sample};

verus! {

/// The `i`th frame of `n` samples.
pub open spec fn frame(s: Seq<Sample>, n: nat, i: int) -> Seq<Sample> {
    s.subrange(i * n, (i + 1) * n)
}

/// All whole frames of `n` samples, from the front.
pub open spec fn frames(s: Seq<Sample>, n: nat) -> Seq<Seq<Sample>> {
    Seq::new(s.len() / n, |i: int| frame(s, n, i))
}

/// What is left behind the last whole frame.
pub open spec fn remainder(s: Seq<Sample>, n: nat) -> Seq<Sample> {
    s.subrange(((s.len() / n) * n) as int, s.len() as int)
}

/// The vectors of a list, by their views.
pub open spec fn frames_view(v: Seq<Vec<Sample>>) -> Seq<Seq<Sample>> {
    Seq::new(v.len(), |i: int| v[i]@)
}

/// What is taken off the front at once: a whole frame, or nothing where the
/// buffer holds less.
pub open spec fn head(s: Seq<Sample>, n: nat) -> Seq<Sample> {
    if s.len() >= n {
        s.take(n as int)
    } else {
        Seq::empty()
    }
}

/// What stays in the buffer when its head is taken.
pub open spec fn tail(s: Seq<Sample>, n: nat) -> Seq<Sample> {
    if s.len() >= n {
        s.skip(n as int)
    } else {
        s
    }
}

/// Samples in the order in which they came.
#[derive(Debug)]
pub struct InputBuffer {
    samples: VecDeque<Sample>,
}

impl View for InputBuffer {
    type V = Seq<Sample>;

    closed spec fn view(&self) -> Seq<Sample> {
        self.samples@
    }
}

impl InputBuffer {
    /// An empty buffer.
    pub fn new() -> (buffer: InputBuffer)
        ensures
            buffer@ == Seq::<Sample>::empty(),
    {
        InputBuffer { samples: VecDeque::new() }
    }

    /// Drops all samples.
    pub fn clear(&mut self)
        ensures
            final(self)@ == Seq::<Sample>::empty(),
    {
        self.samples.clear();
    }

    /// Number of samples held.
    pub fn len(&self) -> (len: usize)
        ensures
            len == self@.len(),
    {
        self.samples.len()
    }

    /// Adds samples at the end.
    pub fn extend(&mut self, data: &[Sample])
        ensures
            final(self)@ == old(self)@ + data@,
    {
        let mut i: usize = 0;
        while i < data.len()
            invariant
                i <= data@.len(),
                self@ == old(self)@ + data@.take(i as int),
            decreases data@.len() - i,
        {
            self.samples.push_back(data[i]);
            i += 1;
            assert(self@ =~= old(self)@ + data@.take(i as int));
        }
        assert(data@.take(data@.len() as int) =~= data@);
    }

    /// Takes `n` samples off the front.
    fn drain_front(&mut self, n: usize) -> (front: Vec<Sample>)
        requires
            n <= old(self)@.len(),
        ensures
            front@ == old(self)@.take(n as int),
            final(self)@ == old(self)@.skip(n as int),
    {
        let mut front: Vec<Sample> = Vec::new();
        let mut i: usize = 0;
        while i < n
            invariant
                i <= n <= old(self)@.len(),
                front@ == old(self)@.take(i as int),
                self@ == old(self)@.skip(i as int),
            decreases n - i,
        {
            if let Some(sample) = self.samples.pop_front() {
                front.push(sample);
            }
            i += 1;
            assert(front@ =~= old(self)@.take(i as int));
            assert(self@ =~= old(self)@.skip(i as int));
        }
        front
    }

    /// Takes one frame of `n` samples off the front if there is one, else nothing.
    pub fn take_frame(&mut self, n: usize) -> (front: Vec<Sample>)
        ensures
            front@ == head(old(self)@, n as nat),
            final(self)@ == tail(old(self)@, n as nat),
    {
        if self.len() >= n {
            self.drain_front(n)
        } else {
            Vec::new()
        }
    }

    /// Takes all whole frames of `n` samples off the front.
    pub fn take_frames(&mut self, n: usize) -> (taken: Vec<Vec<Sample>>)
        requires
            n > 0,
        ensures
            frames_view(taken@) == frames(old(self)@, n as nat),
            final(self)@ == remainder(old(self)@, n as nat),
    {
        let mut taken: Vec<Vec<Sample>> = Vec::new();
        assert(frames_view(taken@) + frames(self@, n as nat) =~= frames(self@, n as nat));
        while self.len() >= n
            invariant
                n > 0,
                frames_view(taken@) + frames(self@, n as nat) == frames(old(self)@, n as nat),
                remainder(self@, n as nat) == remainder(old(self)@, n as nat),
            decreases self@.len(),
        {
            let ghost before = self@;
            let ghost taken_before = frames_view(taken@);
            let front: Vec<Sample> = self.drain_front(n);
            proof {
                lemma_first_frame(before, n as nat);
            }
            taken.push(front);
            assert(frames_view(taken@) =~= taken_before.push(before.take(n as int)));
            assert(frames_view(taken@) + frames(self@, n as nat) =~= taken_before + frames(
                before,
                n as nat,
            ));
        }
        proof {
            lemma_short_of_a_frame(self@, n as nat);
            assert(frames_view(taken@) + frames(self@, n as nat) =~= frames_view(taken@));
        }
        taken
    }
}

proof fn lemma_short_of_a_frame(s: Seq<Sample>, n: nat)
    requires
        s.len() < n,
    ensures
        frames(s, n) == Seq::<Seq<Sample>>::empty(),
        remainder(s, n) == s,
{
    assert(s.len() / n == 0) by (nonlinear_arith)
        requires
            s.len() < n,
    ;
    assert(0 * n == 0) by (nonlinear_arith);
    assert(frames(s, n) =~= Seq::empty());
    assert(remainder(s, n) =~= s);
}

proof fn lemma_first_frame(s: Seq<Sample>, n: nat)
    requires
        0 < n <= s.len(),
    ensures
        frames(s, n) == seq![s.take(n as int)] + frames(s.skip(n as int), n),
        remainder(s, n) == remainder(s.skip(n as int), n),
{
    let t = s.skip(n as int);
    let len = s.len() as int;
    let k = n as int;
    assert(len / k == (len - k) / k + 1) by (nonlinear_arith)
        requires
            0 < k <= len,
    ;
    assert((len / k) * k <= len && 0 <= (len - k) / k) by (nonlinear_arith)
        requires
            0 < k <= len,
    ;
    let q = (len - k) / k;
    assert((q + 1) * k == q * k + k) by (nonlinear_arith);
    assert forall|i: int| 0 <= i < frames(s, n).len() implies #[trigger] frames(s, n)[i] == (seq![
        s.take(n as int),
    ] + frames(t, n))[i] by {
        assert((i + 1) * k == i * k + k) by (nonlinear_arith);
        if i == 0 {
            assert(0 * k == 0) by (nonlinear_arith);
            assert(frame(s, n, 0) =~= s.take(k));
        } else {
            let j = i - 1;
            assert((j + 1) * k == j * k + k) by (nonlinear_arith);
            assert(0 <= j * k && (i + 1) * k <= (q + 1) * k) by (nonlinear_arith)
                requires
                    0 <= j,
                    i <= q,
                    0 < k,
            ;
            assert(frame(s, n, i) =~= frame(t, n, j));
        }
    }
    assert(frames(s, n) =~= seq![s.take(n as int)] + frames(t, n));
    assert(0 <= q * k) by (nonlinear_arith)
        requires
            0 <= q,
            0 < k,
    ;
    assert(remainder(s, n) =~= remainder(t, n));
}

/// Samples one after the other.
pub open spec fn joined(pieces: Seq<Seq<Sample>>) -> Seq<Sample>
    decreases pieces.len(),
{
    if pieces.len() == 0 {
        Seq::empty()
    } else {
        joined(pieces.drop_last()) + pieces.last()
    }
}

proof fn lemma_joined_first(first: Seq<Sample>, more: Seq<Seq<Sample>>)
    ensures
        joined(seq![first] + more) == first + joined(more),
    decreases more.len(),
{
    let all = seq![first] + more;
    if more.len() == 0 {
        reveal_with_fuel(joined, 2);
        assert(all.drop_last() =~= Seq::empty());
        assert(joined(all) =~= first + joined(more));
    } else {
        assert(all.drop_last() =~= seq![first] + more.drop_last());
        lemma_joined_first(first, more.drop_last());
        assert(joined(all) =~= first + joined(more));
    }
}

/// No sample is lost, repeated or moved: the frames and what is left over, put
/// together again, are what came in.
pub proof fn lemma_frames_keep_samples(s: Seq<Sample>, n: nat)
    requires
        n > 0,
    ensures
        joined(frames(s, n)) + remainder(s, n) == s,
    decreases s.len(),
{
    if s.len() < n {
        lemma_short_of_a_frame(s, n);
        assert(joined(frames(s, n)) + remainder(s, n) =~= s);
    } else {
        let t = s.skip(n as int);
        lemma_first_frame(s, n);
        lemma_frames_keep_samples(t, n);
        lemma_joined_first(s.take(n as int), frames(t, n));
        assert(joined(frames(s, n)) + remainder(s, n) =~= s.take(n as int) + (joined(frames(t, n))
            + remainder(t, n)));
        assert(s.take(n as int) + t =~= s);
    }
}

/// Every frame has the length asked for, and less than a frame is left over.
pub proof fn lemma_frame_lengths(s: Seq<Sample>, n: nat)
    requires
        n > 0,
    ensures
        forall|i: int| 0 <= i < frames(s, n).len() ==> (#[trigger] frames(s, n)[i]).len() == n,
        remainder(s, n).len() < n,
    decreases s.len(),
{
    if s.len() < n {
        lemma_short_of_a_frame(s, n);
    } else {
        lemma_first_frame(s, n);
        lemma_frame_lengths(s.skip(n as int), n);
    }
}

/// Frames of silence are silent.
pub proof fn lemma_frames_of_silence(s: Seq<Sample>, n: nat)
    requires
        n > 0,
        all_silent(s),
    ensures
        forall|i: int| 0 <= i < frames(s, n).len() ==> all_silent(#[trigger] frames(s, n)[i]),
        all_silent(remainder(s, n)),
    decreases s.len(),
{
    if s.len() < n {
        lemma_short_of_a_frame(s, n);
    } else {
        let t = s.skip(n as int);
        lemma_first_frame(s, n);
        assert forall|i: int| 0 <= i < t.len() implies (#[trigger] t[i]).is_silent() by {
            assert(t[i] == s[i + n]);
        }
        lemma_frames_of_silence(t, n);
        assert(all_silent(s.take(n as int)));
    }
}

/// Samples that come in two pieces give the same frames, and leave the same rest,
/// as the same samples in one piece.
pub proof fn lemma_frames_of_two_pieces(a: Seq<Sample>, b: Seq<Sample>, n: nat)
    requires
        n > 0,
    ensures
        frames(a + b, n) == frames(a, n) + frames(remainder(a, n) + b, n),
        remainder(a + b, n) == remainder(remainder(a, n) + b, n),
    decreases a.len(),
{
    if a.len() < n {
        lemma_short_of_a_frame(a, n);
        assert(frames(a, n) + frames(a + b, n) =~= frames(a + b, n));
    } else {
        let t = a.skip(n as int);
        lemma_first_frame(a, n);
        lemma_first_frame(a + b, n);
        assert((a + b).skip(n as int) =~= t + b);
        assert((a + b).take(n as int) =~= a.take(n as int));
        lemma_frames_of_two_pieces(t, b, n);
        assert(frames(a + b, n) =~= frames(a, n) + frames(remainder(a, n) + b, n));
    }
}

/// What a buffer has handed out, and what it holds, after a run of pieces each
/// of which was followed by taking all whole frames.
pub open spec fn delivered(pieces: Seq<Seq<Sample>>, n: nat) -> (Seq<Seq<Sample>>, Seq<Sample>)
    decreases pieces.len(),
{
    if pieces.len() == 0 {
        (Seq::empty(), Seq::empty())
    } else {
        let (out, held) = delivered(pieces.drop_last(), n);
        let now = held + pieces.last();
        (out + frames(now, n), remainder(now, n))
    }
}

/// The frames that come out do not depend on how the capture callback cuts the
/// samples into pieces.
pub proof fn lemma_delivered_ignores_pieces(pieces: Seq<Seq<Sample>>, n: nat)
    requires
        n > 0,
    ensures
        delivered(pieces, n) == (frames(joined(pieces), n), remainder(joined(pieces), n)),
    decreases pieces.len(),
{
    if pieces.len() == 0 {
        lemma_short_of_a_frame(Seq::empty(), n);
    } else {
        lemma_delivered_ignores_pieces(pieces.drop_last(), n);
        lemma_frames_of_two_pieces(joined(pieces.drop_last()), pieces.last(), n);
    }
}

/// Frames are cut in place: sample `j` of frame `i` is sample `i * n + j`, each frame
/// has `n` samples, as many frames are cut as there are, and what is left over is what
/// lies behind them.
pub proof fn lemma_frames_are_cut_in_place(s: Seq<Sample>, n: nat)
    requires
        n > 0,
    ensures
        frames(s, n).len() * n <= s.len() < frames(s, n).len() * n + n,
        forall|i: int| 0 <= i < frames(s, n).len() ==> (#[trigger] frames(s, n)[i]).len() == n,
        forall|i: int, j: int|
            0 <= i < frames(s, n).len() && 0 <= j < n ==> #[trigger] frames(s, n)[i][j] == s[i * n
                + j],
        remainder(s, n).len() == s.len() - frames(s, n).len() * n,
        forall|j: int|
            0 <= j < remainder(s, n).len() ==> #[trigger] remainder(s, n)[j] == s[frames(
                s,
                n,
            ).len() * n + j],
{
    let k = n as int;
    let q = s.len() as int / k;
    assert(q * k <= s.len() < q * k + k && 0 <= q) by (nonlinear_arith)
        requires
            k > 0,
            q == s.len() as int / k,
    ;
    assert(0 <= q * k) by (nonlinear_arith)
        requires
            0 <= q,
            0 < k,
    ;
    lemma_frame_lengths(s, n);
    assert forall|i: int, j: int| 0 <= i < frames(s, n).len() && 0 <= j < n implies
        #[trigger] frames(s, n)[i][j] == s[i * n + j] by {
        assert((i + 1) * k == i * k + k && 0 <= i * k && (i + 1) * k <= q * k) by (nonlinear_arith)
            requires
                0 <= i < q,
                0 < k,
        ;
        assert(frames(s, n)[i] == frame(s, n, i));
    }
}

/// Vectors are seen with all their samples.
pub proof fn lemma_frames_view(v: Seq<Vec<Sample>>)
    ensures
        frames_view(v).len() == v.len(),
        forall|i: int| 0 <= i < v.len() ==> #[trigger] frames_view(v)[i] == v[i]@,
{
}

/// Taking one frame splits what is held, in order, into the frame and what stays. The
/// frame has the length asked for where there is enough, and is empty where not.
pub proof fn lemma_head_and_tail_split(s: Seq<Sample>, n: nat)
    ensures
        head(s, n) + tail(s, n) == s,
        s.len() >= n ==> head(s, n).len() == n,
        s.len() < n ==> head(s, n).len() == 0,
{
    assert(head(s, n) + tail(s, n) =~= s);
}

/// Pieces are joined in order, and nothing comes between them.
pub proof fn lemma_joined(pieces: Seq<Seq<Sample>>, more: Seq<Sample>)
    ensures
        joined(Seq::empty()) == Seq::<Sample>::empty(),
        joined(pieces.push(more)) == joined(pieces) + more,
{
    assert(pieces.push(more).drop_last() =~= pieces);
}

} // verus!
