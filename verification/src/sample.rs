//! Audio samples and the raw byte packets they arrive in.
//!
//! A sample is a single-precision number. The library never computes with its
//! value, so it is held by its IEEE 754 encoding, which tells zero from
//! everything else and is carried through unchanged.

use vstd::prelude::*;

verus! {

/// Number of bytes that encode one sample.
pub const SAMPLE_SIZE_U8: usize = 4;

/// One audio sample, by its IEEE 754 single-precision encoding.
#[derive(Clone, Copy, Debug, PartialEq, Eq, Structural)]
pub struct Sample {
    pub bits: u32,
}

/// Order in which the bytes of a sample lie in a packet.
#[derive(Clone, Copy, Debug, PartialEq, Eq, Structural)]
pub enum ByteOrder {
    Little,
    Big,
}

impl Sample {
    /// The sample is positive or negative zero. Every other encoding, NaN
    /// among them, compares unequal to zero.
    pub open spec fn is_silent(self) -> bool {
        self.bits == 0 || self.bits == 0x8000_0000
    }

    /// Positive zero.
    pub fn zero() -> (sample: Sample)
        ensures
            sample.bits == 0,
    {
        Sample { bits: 0 }
    }

    /// Whether the sample compares equal to zero.
    pub fn is_zero(self) -> (zero: bool)
        ensures
            zero == self.is_silent(),
    {
        self.bits == 0 || self.bits == 0x8000_0000
    }
}

/// Every sample compares equal to zero.
pub open spec fn all_silent(data: Seq<Sample>) -> bool {
    forall|i: int| 0 <= i < data.len() ==> (#[trigger] data[i]).is_silent()
}

/// Whether no sample differs from zero.
pub fn is_all_zero(data: &[Sample]) -> (silent: bool)
    ensures
        silent == all_silent(data@),
{
    let mut i: usize = 0;
    while i < data.len()
        invariant
            i <= data@.len(),
            forall|j: int| 0 <= j < i ==> (#[trigger] data@[j]).is_silent(),
        decreases data@.len() - i,
    {
        if !data[i].is_zero() {
            return false;
        }
        i += 1;
    }
    true
}

/// A frame of `n` samples of positive zero.
pub open spec fn zeros(n: nat) -> Seq<Sample> {
    Seq::new(n, |i: int| Sample { bits: 0 })
}

/// Builds a frame of `n` samples of positive zero.
pub fn zero_frame(n: usize) -> (frame: Vec<Sample>)
    ensures
        frame@ == zeros(n as nat),
{
    let mut frame: Vec<Sample> = Vec::new();
    let mut i: usize = 0;
    while i < n
        invariant
            i <= n,
            frame@ == zeros(i as nat),
        decreases n - i,
    {
        frame.push(Sample::zero());
        i += 1;
        assert(frame@ =~= zeros(i as nat));
    }
    frame
}

/// The number written by four bytes, the least significant one first.
pub open spec fn word(b0: u8, b1: u8, b2: u8, b3: u8) -> int {
    b0 + 0x100 * b1 + 0x1_0000 * b2 + 0x100_0000 * b3
}

/// The encoding of the `i`th sample of a packet.
pub open spec fn sample_bits(data: Seq<u8>, order: ByteOrder, i: int) -> int {
    match order {
        ByteOrder::Little => word(data[4 * i], data[4 * i + 1], data[4 * i + 2], data[4 * i + 3]),
        ByteOrder::Big => word(data[4 * i + 3], data[4 * i + 2], data[4 * i + 1], data[4 * i]),
    }
}

/// The samples of a packet: one for each whole group of four bytes. Bytes left
/// over at the end belong to no sample.
pub open spec fn decoded(data: Seq<u8>, order: ByteOrder) -> Seq<Sample> {
    Seq::new(data.len() / 4, |i: int| Sample { bits: sample_bits(data, order, i) as u32 })
}

fn assemble(b0: u8, b1: u8, b2: u8, b3: u8) -> (bits: u32)
    ensures
        bits == word(b0, b1, b2, b3),
{
    b0 as u32 + 0x100 * (b1 as u32) + 0x1_0000 * (b2 as u32) + 0x100_0000 * (b3 as u32)
}

/// Reads the bytes of a packet as samples.
pub fn samples_from_bytes(data: &[u8], order: ByteOrder) -> (samples: Vec<Sample>)
    ensures
        samples@ == decoded(data@, order),
{
    let len: usize = data.len();
    let n: usize = len / SAMPLE_SIZE_U8;
    let mut samples: Vec<Sample> = Vec::new();
    let mut i: usize = 0;
    while i < n
        invariant
            i <= n,
            n == len / 4,
            len == data@.len(),
            samples@.len() == i,
            forall|j: int| 0 <= j < i ==> #[trigger] samples@[j] == decoded(data@, order)[j],
        decreases n - i,
    {
        let at: usize = 4 * i;
        let bits: u32 = match order {
            ByteOrder::Little => assemble(data[at], data[at + 1], data[at + 2], data[at + 3]),
            ByteOrder::Big => assemble(data[at + 3], data[at + 2], data[at + 1], data[at]),
        };
        samples.push(Sample { bits });
        i += 1;
    }
    assert(samples@ =~= decoded(data@, order));
    samples
}

proof fn lemma_low_byte(low: u8, high: int)
    ensures
        (low + 0x100 * high) % 0x100 == low,
        (low + 0x100 * high) / 0x100 == high,
{
}

/// The bytes of a word can be read back from it.
#[verifier::spinoff_prover]
proof fn lemma_word_bytes(b0: u8, b1: u8, b2: u8, b3: u8)
    ensures
        0 <= word(b0, b1, b2, b3) <= u32::MAX,
        word(b0, b1, b2, b3) % 0x100 == b0,
        word(b0, b1, b2, b3) / 0x100 % 0x100 == b1,
        word(b0, b1, b2, b3) / 0x1_0000 % 0x100 == b2,
        word(b0, b1, b2, b3) / 0x100_0000 == b3,
{
    let w = word(b0, b1, b2, b3);
    let (x, y, z) = (b1 + 0x100 * (b2 + 0x100 * b3), b2 + 0x100 * b3, b3 as int);
    assert(w == b0 + 0x100 * x);
    lemma_low_byte(b0, x);
    lemma_low_byte(b1, y);
    lemma_low_byte(b2, z);
    assert(w / 0x1_0000 == y) by {
        assert(w == (b0 + 0x100 * b1) + 0x1_0000 * y);
    }
    assert(w / 0x100_0000 == z) by {
        assert(w == (b0 + 0x100 * b1 + 0x1_0000 * b2) + 0x100_0000 * z);
    }
}

proof fn lemma_word_injective(a0: u8, a1: u8, a2: u8, a3: u8, b0: u8, b1: u8, b2: u8, b3: u8)
    requires
        word(a0, a1, a2, a3) as u32 == word(b0, b1, b2, b3) as u32,
    ensures
        a0 == b0,
        a1 == b1,
        a2 == b2,
        a3 == b3,
{
    lemma_word_bytes(a0, a1, a2, a3);
    lemma_word_bytes(b0, b1, b2, b3);
}

/// Reading a packet as samples loses nothing: two packets of whole samples that
/// read the same hold the same bytes.
pub proof fn lemma_decoded_injective(a: Seq<u8>, b: Seq<u8>, order: ByteOrder)
    requires
        a.len() % 4 == 0,
        b.len() % 4 == 0,
        decoded(a, order) == decoded(b, order),
    ensures
        a == b,
{
    assert(decoded(a, order).len() == a.len() / 4);
    assert(decoded(b, order).len() == b.len() / 4);
    assert(a.len() == b.len());
    assert forall|k: int| 0 <= k < a.len() implies a[k] == b[k] by {
        let i = k / 4;
        assert(0 <= i < a.len() / 4);
        assert(decoded(a, order)[i].bits == sample_bits(a, order, i) as u32);
        assert(decoded(b, order)[i].bits == sample_bits(b, order, i) as u32);
        let (a0, a1, a2, a3) = (a[4 * i], a[4 * i + 1], a[4 * i + 2], a[4 * i + 3]);
        let (b0, b1, b2, b3) = (b[4 * i], b[4 * i + 1], b[4 * i + 2], b[4 * i + 3]);
        match order {
            ByteOrder::Little => lemma_word_injective(a0, a1, a2, a3, b0, b1, b2, b3),
            ByteOrder::Big => lemma_word_injective(a3, a2, a1, a0, b3, b2, b1, b0),
        }
        assert(k == 4 * i || k == 4 * i + 1 || k == 4 * i + 2 || k == 4 * i + 3);
    }
    assert(a =~= b);
}

/// A packet of zero bytes is silence, in either byte order.
pub proof fn lemma_zero_bytes_are_silent(data: Seq<u8>, order: ByteOrder)
    requires
        forall|k: int| 0 <= k < data.len() ==> data[k] == 0,
    ensures
        all_silent(decoded(data, order)),
{
    assert forall|i: int| 0 <= i < decoded(data, order).len() implies (#[trigger] decoded(
        data,
        order,
    )[i]).is_silent() by {
        assert(data[4 * i] == 0 && data[4 * i + 1] == 0 && data[4 * i + 2] == 0 && data[4 * i + 3]
            == 0);
    }
}

/// A sample is silent where nothing but its sign bit is set.
pub proof fn lemma_silent_has_no_magnitude(s: Sample)
    ensures
        s.is_silent() <==> s.bits as int % 0x8000_0000 == 0,
{
}

/// A frame is silent where no sample of it has a magnitude.
pub proof fn lemma_all_silent_has_no_magnitude(data: Seq<Sample>)
    ensures
        all_silent(data) <==> forall|i: int|
            0 <= i < data.len() ==> (#[trigger] data[i]).bits as int % 0x8000_0000 == 0,
{
    assert forall|i: int| 0 <= i < data.len() implies ((#[trigger] data[i]).is_silent()
        <==> data[i].bits as int % 0x8000_0000 == 0) by {
        lemma_silent_has_no_magnitude(data[i]);
    }
    if forall|i: int|
        0 <= i < data.len() ==> (#[trigger] data[i]).bits as int % 0x8000_0000 == 0 {
        assert(all_silent(data));
    }
}

/// A frame of zeros has the length asked for, and nothing is set in any sample.
pub proof fn lemma_zeros(n: nat)
    ensures
        zeros(n).len() == n,
        forall|i: int| 0 <= i < n ==> (#[trigger] zeros(n)[i]).bits == 0,
{
}

/// A packet has as many samples as it has whole groups of four bytes.
pub proof fn lemma_decoded_length(data: Seq<u8>, order: ByteOrder)
    ensures
        4 * decoded(data, order).len() <= data.len() < 4 * decoded(data, order).len() + 4,
{
}

/// Writing a sample out gives its four bytes of the packet back, at its own place:
/// the least significant byte first in the one order, the most significant byte
/// first in the other.
pub proof fn lemma_sample_writes_its_bytes(data: Seq<u8>, order: ByteOrder, i: int)
    requires
        0 <= i,
        4 * i + 4 <= data.len(),
    ensures
        ({
            let bits = decoded(data, order)[i].bits as int;
            match order {
                ByteOrder::Little => {
                    &&& data[4 * i] == bits % 0x100
                    &&& data[4 * i + 1] == bits / 0x100 % 0x100
                    &&& data[4 * i + 2] == bits / 0x1_0000 % 0x100
                    &&& data[4 * i + 3] == bits / 0x100_0000
                },
                ByteOrder::Big => {
                    &&& data[4 * i] == bits / 0x100_0000
                    &&& data[4 * i + 1] == bits / 0x1_0000 % 0x100
                    &&& data[4 * i + 2] == bits / 0x100 % 0x100
                    &&& data[4 * i + 3] == bits % 0x100
                },
            }
        }),
{
    assert(i < data.len() / 4);
    let (d0, d1, d2, d3) = (data[4 * i], data[4 * i + 1], data[4 * i + 2], data[4 * i + 3]);
    lemma_word_bytes(d0, d1, d2, d3);
    lemma_word_bytes(d3, d2, d1, d0);
    assert(decoded(data, order)[i].bits == sample_bits(data, order, i));
}

/// Packets of whole samples one after the other read as their samples one after the
/// other.
pub proof fn lemma_decoded_concat(a: Seq<u8>, b: Seq<u8>, order: ByteOrder)
    requires
        a.len() % 4 == 0,
    ensures
        decoded(a + b, order) == decoded(a, order) + decoded(b, order),
{
    let n = a.len() as int / 4;
    assert((a + b).len() as int / 4 == n + b.len() as int / 4);
    assert forall|i: int| 0 <= i < (a + b).len() / 4 implies #[trigger] decoded(a + b, order)[i]
        == (decoded(a, order) + decoded(b, order))[i] by {
        if i < n {
            assert(sample_bits(a + b, order, i) == sample_bits(a, order, i));
        } else {
            assert(sample_bits(a + b, order, i) == sample_bits(b, order, i - n));
        }
    }
    assert(decoded(a + b, order) =~= decoded(a, order) + decoded(b, order));
}

} // verus!
