//! From what a device delivers to single-precision samples.
//!
//! An integer sample of width `w` stands for a level between -1 and 1: it is
//! divided by half of the range of its type, `2^(w - 1)`, an unsigned one after
//! its middle is moved to zero. The conversions themselves are `dasp`'s.

use vstd::arithmetic::power2::{lemma_pow2_adds, lemma_pow2_pos, lemma_pow2_strictly_increases, pow2};
use vstd::prelude::*;

use crate::sample::Sample;

verus! {

/// Sign of an encoding.
pub open spec fn negative(bits: u32) -> bool {
    bits >= 0x8000_0000
}

/// Exponent field of an encoding.
pub open spec fn exponent(bits: u32) -> nat {
    (bits as nat / 0x80_0000) % 0x100
}

/// Fraction field of an encoding.
pub open spec fn fraction(bits: u32) -> nat {
    bits as nat % 0x80_0000
}

/// The size of a number.
pub open spec fn size_of_int(n: int) -> nat {
    if n < 0 {
        (-n) as nat
    } else {
        n as nat
    }
}

/// The encoding stands for `n / 2^scale` exactly: it is positive zero for zero,
/// and a normal number of the value
/// `(2^23 + fraction) * 2^(exponent - 150)` and the right sign for the rest.
pub open spec fn encodes(bits: u32, n: int, scale: nat) -> bool {
    if n == 0 {
        bits == 0
    } else {
        &&& negative(bits) == (n < 0)
        &&& 0 < exponent(bits) < 255
        &&& size_of_int(n) * pow2(150) == (0x80_0000 + fraction(bits)) * pow2(
            exponent(bits) + scale,
        )
    }
}

/// `r` is the multiple of `unit` next to `a`, the even one where two are as near.
pub open spec fn nearest_multiple(a: nat, unit: nat, r: nat) -> bool {
    let d = size_of_int(a - r);
    &&& r % unit == 0
    &&& 2 * d < unit || (2 * d == unit && (r / unit) % 2 == 0)
}

/// Rounding of a number between `2^(k + 23)` and `2^(k + 24)` to 24 binary digits.
pub open spec fn rounded_at(a: nat, k: nat, r: nat) -> bool {
    &&& pow2(k + 23) <= a < pow2(k + 24)
    &&& nearest_multiple(a, pow2(k), r)
}

/// `r` is `a` rounded to the 24 binary digits that a single-precision number has,
/// to the nearest and to even where two are as near.
pub open spec fn rounded(a: nat, r: nat) -> bool {
    if a < 0x100_0000 {
        r == a
    } else {
        exists|k: nat| #[trigger] rounded_at(a, k, r)
    }
}

/// The encoding stands for `n / 2^scale`, rounded to single precision.
pub open spec fn converts(bits: u32, n: int, scale: nat) -> bool {
    exists|r: nat| #[trigger]
        rounded(size_of_int(n), r) && encodes(
            bits,
            if n < 0 {
                -r
            } else {
                r as int
            },
            scale,
        )
}

/// The sample that stands for `n / 2^scale`.
pub open spec fn sample_of(n: int, scale: nat) -> Sample {
    choose|s: Sample| #[trigger] converts(s.bits, n, scale)
}

/// `dasp::sample::conv::i8::to_f32`, which divides by `2^7`. The result is given
/// by its encoding.
#[verifier::external_body]
fn i8_to_single(value: i8) -> (bits: u32)
    ensures
        converts(bits, value as int, 7),
{
    dasp::sample::conv::i8::to_f32(value).to_bits()
}

/// `dasp::sample::conv::i16::to_f32`, which divides by `2^15`. The result is given
/// by its encoding.
#[verifier::external_body]
fn i16_to_single(value: i16) -> (bits: u32)
    ensures
        converts(bits, value as int, 15),
{
    dasp::sample::conv::i16::to_f32(value).to_bits()
}

/// `dasp::sample::conv::i32::to_f32`, which rounds to single precision and divides
/// by `2^31`. The result is given by its encoding.
#[verifier::external_body]
fn i32_to_single(value: i32) -> (bits: u32)
    ensures
        converts(bits, value as int, 31),
{
    dasp::sample::conv::i32::to_f32(value).to_bits()
}

/// `dasp::sample::conv::i64::to_f32`, which rounds to single precision and divides
/// by `2^63`. The result is given by its encoding.
#[verifier::external_body]
fn i64_to_single(value: i64) -> (bits: u32)
    ensures
        converts(bits, value as int, 63),
{
    dasp::sample::conv::i64::to_f32(value).to_bits()
}

/// `dasp::sample::conv::u8::to_f32`, which moves the middle of the range to zero
/// and goes on as for `i8`. The result is given by its encoding.
#[verifier::external_body]
fn u8_to_single(value: u8) -> (bits: u32)
    ensures
        converts(bits, value - 0x80, 7),
{
    dasp::sample::conv::u8::to_f32(value).to_bits()
}

/// `dasp::sample::conv::u16::to_f32`, which moves the middle of the range to zero
/// and goes on as for `i16`. The result is given by its encoding.
#[verifier::external_body]
fn u16_to_single(value: u16) -> (bits: u32)
    ensures
        converts(bits, value - 0x8000, 15),
{
    dasp::sample::conv::u16::to_f32(value).to_bits()
}

/// `dasp::sample::conv::u32::to_f32`, which moves the middle of the range to zero
/// and goes on as for `i32`. The result is given by its encoding.
#[verifier::external_body]
fn u32_to_single(value: u32) -> (bits: u32)
    ensures
        converts(bits, value - 0x8000_0000, 31),
{
    dasp::sample::conv::u32::to_f32(value).to_bits()
}

/// `dasp::sample::conv::u64::to_f32`, which moves the middle of the range to zero
/// and goes on as for `i64`. The result is given by its encoding.
#[verifier::external_body]
fn u64_to_single(value: u64) -> (bits: u32)
    ensures
        converts(bits, value - 0x8000_0000_0000_0000, 63),
{
    dasp::sample::conv::u64::to_f32(value).to_bits()
}

/// What a device delivered at once.
#[derive(Debug, PartialEq, Eq)]
pub enum DeviceSamples {
    I8(Vec<i8>),
    I16(Vec<i16>),
    I32(Vec<i32>),
    I64(Vec<i64>),
    U8(Vec<u8>),
    U16(Vec<u16>),
    U32(Vec<u32>),
    U64(Vec<u64>),
    /// Samples that are single precision already.
    Single(Vec<Sample>),
}

impl DeviceSamples {
    /// Number of samples.
    pub open spec fn count(self) -> nat {
        match self {
            DeviceSamples::I8(v) => v@.len(),
            DeviceSamples::I16(v) => v@.len(),
            DeviceSamples::I32(v) => v@.len(),
            DeviceSamples::I64(v) => v@.len(),
            DeviceSamples::U8(v) => v@.len(),
            DeviceSamples::U16(v) => v@.len(),
            DeviceSamples::U32(v) => v@.len(),
            DeviceSamples::U64(v) => v@.len(),
            DeviceSamples::Single(v) => v@.len(),
        }
    }

    /// The `i`th sample in single precision.
    pub open spec fn single(self, i: int) -> Sample {
        match self {
            DeviceSamples::I8(v) => sample_of(v@[i] as int, 7),
            DeviceSamples::I16(v) => sample_of(v@[i] as int, 15),
            DeviceSamples::I32(v) => sample_of(v@[i] as int, 31),
            DeviceSamples::I64(v) => sample_of(v@[i] as int, 63),
            DeviceSamples::U8(v) => sample_of(v@[i] - 0x80, 7),
            DeviceSamples::U16(v) => sample_of(v@[i] - 0x8000, 15),
            DeviceSamples::U32(v) => sample_of(v@[i] - 0x8000_0000, 31),
            DeviceSamples::U64(v) => sample_of(v@[i] - 0x8000_0000_0000_0000, 63),
            DeviceSamples::Single(v) => v@[i],
        }
    }

    /// All samples in single precision.
    pub open spec fn singles(self) -> Seq<Sample> {
        Seq::new(self.count(), |i: int| self.single(i))
    }

    fn len(&self) -> (n: usize)
        ensures
            n == self.count(),
    {
        match self {
            DeviceSamples::I8(v) => v.len(),
            DeviceSamples::I16(v) => v.len(),
            DeviceSamples::I32(v) => v.len(),
            DeviceSamples::I64(v) => v.len(),
            DeviceSamples::U8(v) => v.len(),
            DeviceSamples::U16(v) => v.len(),
            DeviceSamples::U32(v) => v.len(),
            DeviceSamples::U64(v) => v.len(),
            DeviceSamples::Single(v) => v.len(),
        }
    }

    fn convert(&self, i: usize) -> (sample: Sample)
        requires
            i < self.count(),
        ensures
            sample == self.single(i as int),
            match self {
                DeviceSamples::I8(v) => converts(sample.bits, v@[i as int] as int, 7),
                DeviceSamples::I16(v) => converts(sample.bits, v@[i as int] as int, 15),
                DeviceSamples::I32(v) => converts(sample.bits, v@[i as int] as int, 31),
                DeviceSamples::I64(v) => converts(sample.bits, v@[i as int] as int, 63),
                DeviceSamples::U8(v) => converts(sample.bits, v@[i as int] - 0x80, 7),
                DeviceSamples::U16(v) => converts(sample.bits, v@[i as int] - 0x8000, 15),
                DeviceSamples::U32(v) => converts(sample.bits, v@[i as int] - 0x8000_0000, 31),
                DeviceSamples::U64(v) => converts(
                    sample.bits,
                    v@[i as int] - 0x8000_0000_0000_0000,
                    63,
                ),
                DeviceSamples::Single(v) => sample == v@[i as int],
            },
    {
        proof {
            lemma_sample_of_all();
        }
        match self {
            DeviceSamples::I8(v) => Sample { bits: i8_to_single(v[i]) },
            DeviceSamples::I16(v) => Sample { bits: i16_to_single(v[i]) },
            DeviceSamples::I32(v) => Sample { bits: i32_to_single(v[i]) },
            DeviceSamples::I64(v) => Sample { bits: i64_to_single(v[i]) },
            DeviceSamples::U8(v) => Sample { bits: u8_to_single(v[i]) },
            DeviceSamples::U16(v) => Sample { bits: u16_to_single(v[i]) },
            DeviceSamples::U32(v) => Sample { bits: u32_to_single(v[i]) },
            DeviceSamples::U64(v) => Sample { bits: u64_to_single(v[i]) },
            DeviceSamples::Single(v) => v[i],
        }
    }

    /// Converts all samples to single precision.
    pub fn to_samples(&self) -> (samples: Vec<Sample>)
        ensures
            samples@ == self.singles(),
            match self {
                DeviceSamples::I8(v) => samples@.len() == v@.len() && forall|i: int|
                    0 <= i < v@.len() ==> converts(#[trigger] samples@[i].bits, v@[i] as int, 7),
                DeviceSamples::I16(v) => samples@.len() == v@.len() && forall|i: int|
                    0 <= i < v@.len() ==> converts(#[trigger] samples@[i].bits, v@[i] as int, 15),
                DeviceSamples::I32(v) => samples@.len() == v@.len() && forall|i: int|
                    0 <= i < v@.len() ==> converts(#[trigger] samples@[i].bits, v@[i] as int, 31),
                DeviceSamples::I64(v) => samples@.len() == v@.len() && forall|i: int|
                    0 <= i < v@.len() ==> converts(#[trigger] samples@[i].bits, v@[i] as int, 63),
                DeviceSamples::U8(v) => samples@.len() == v@.len() && forall|i: int|
                    0 <= i < v@.len() ==> converts(#[trigger] samples@[i].bits, v@[i] - 0x80, 7),
                DeviceSamples::U16(v) => samples@.len() == v@.len() && forall|i: int|
                    0 <= i < v@.len() ==> converts(#[trigger] samples@[i].bits, v@[i] - 0x8000, 15),
                DeviceSamples::U32(v) => samples@.len() == v@.len() && forall|i: int|
                    0 <= i < v@.len() ==> converts(
                        #[trigger] samples@[i].bits,
                        v@[i] - 0x8000_0000,
                        31,
                    ),
                DeviceSamples::U64(v) => samples@.len() == v@.len() && forall|i: int|
                    0 <= i < v@.len() ==> converts(
                        #[trigger] samples@[i].bits,
                        v@[i] - 0x8000_0000_0000_0000,
                        63,
                    ),
                DeviceSamples::Single(v) => samples@ == v@,
            },
    {
        let n: usize = self.len();
        let mut samples: Vec<Sample> = Vec::new();
        let mut i: usize = 0;
        while i < n
            invariant
                i <= n,
                n == self.count(),
                samples@.len() == i,
                forall|j: int| 0 <= j < i ==> #[trigger] samples@[j] == self.single(j),
                match self {
                    DeviceSamples::I8(v) => forall|j: int|
                        0 <= j < i ==> converts(#[trigger] samples@[j].bits, v@[j] as int, 7),
                    DeviceSamples::I16(v) => forall|j: int|
                        0 <= j < i ==> converts(#[trigger] samples@[j].bits, v@[j] as int, 15),
                    DeviceSamples::I32(v) => forall|j: int|
                        0 <= j < i ==> converts(#[trigger] samples@[j].bits, v@[j] as int, 31),
                    DeviceSamples::I64(v) => forall|j: int|
                        0 <= j < i ==> converts(#[trigger] samples@[j].bits, v@[j] as int, 63),
                    DeviceSamples::U8(v) => forall|j: int|
                        0 <= j < i ==> converts(#[trigger] samples@[j].bits, v@[j] - 0x80, 7),
                    DeviceSamples::U16(v) => forall|j: int|
                        0 <= j < i ==> converts(#[trigger] samples@[j].bits, v@[j] - 0x8000, 15),
                    DeviceSamples::U32(v) => forall|j: int|
                        0 <= j < i ==> converts(
                            #[trigger] samples@[j].bits,
                            v@[j] - 0x8000_0000,
                            31,
                        ),
                    DeviceSamples::U64(v) => forall|j: int|
                        0 <= j < i ==> converts(
                            #[trigger] samples@[j].bits,
                            v@[j] - 0x8000_0000_0000_0000,
                            63,
                        ),
                    DeviceSamples::Single(v) => forall|j: int|
                        0 <= j < i ==> #[trigger] samples@[j] == v@[j],
                },
            decreases n - i,
        {
            samples.push(self.convert(i));
            i += 1;
        }
        assert(samples@ =~= self.singles());
        samples
    }
}

proof fn lemma_rounded_unique(a: nat, r1: nat, r2: nat)
    requires
        rounded(a, r1),
        rounded(a, r2),
    ensures
        r1 == r2,
{
    if a >= 0x100_0000 {
        let k1 = choose|k: nat| #[trigger] rounded_at(a, k, r1);
        let k2 = choose|k: nat| #[trigger] rounded_at(a, k, r2);
        if k1 < k2 {
            if k1 + 24 < k2 + 23 {
                lemma_pow2_strictly_increases(k1 + 24, k2 + 23);
            }
        } else if k2 < k1 {
            if k2 + 24 < k1 + 23 {
                lemma_pow2_strictly_increases(k2 + 24, k1 + 23);
            }
        }
        lemma_pow2_pos(k1);
        lemma_nearest_multiple_unique(a, pow2(k1), r1, r2);
    }
}

proof fn lemma_nearest_multiple_unique(a: nat, unit: nat, r1: nat, r2: nat)
    requires
        unit > 0,
        nearest_multiple(a, unit, r1),
        nearest_multiple(a, unit, r2),
    ensures
        r1 == r2,
{
    let u = unit as int;
    let q1 = r1 as int / u;
    let q2 = r2 as int / u;
    assert(r1 == q1 * u && r2 == q2 * u) by (nonlinear_arith)
        requires
            u > 0,
            r1 as int % u == 0,
            r2 as int % u == 0,
            q1 == r1 as int / u,
            q2 == r2 as int / u,
    ;
    assert(-u <= r1 - r2 <= u);
    assert(-1 <= q1 - q2 <= 1) by (nonlinear_arith)
        requires
            u > 0,
            r1 == q1 * u,
            r2 == q2 * u,
            -u <= r1 - r2 <= u,
    ;
    if q1 == q2 + 1 {
        assert(r1 - r2 == u) by (nonlinear_arith)
            requires
                r1 == q1 * u,
                r2 == q2 * u,
                q1 == q2 + 1,
        ;
    } else if q2 == q1 + 1 {
        assert(r2 - r1 == u) by (nonlinear_arith)
            requires
                r1 == q1 * u,
                r2 == q2 * u,
                q2 == q1 + 1,
        ;
    }
}

proof fn lemma_normal_form(m1: nat, e1: nat, m2: nat, e2: nat)
    requires
        0x80_0000 <= m1 < 0x100_0000,
        0x80_0000 <= m2 < 0x100_0000,
        m1 * pow2(e1) == m2 * pow2(e2),
        e1 <= e2,
    ensures
        e1 == e2,
        m1 == m2,
{
    let p1 = pow2(e1) as int;
    let p2 = pow2(e2) as int;
    lemma_pow2_pos(e1);
    if e1 < e2 {
        assert(p2 >= 2 * p1) by {
            if e1 + 1 < e2 {
                lemma_pow2_strictly_increases(e1 + 1, e2);
            }
            lemma_pow2_adds(e1, 1);
            vstd::arithmetic::power2::lemma2_to64();
        }
        assert(m2 * p2 > m1 * p1) by (nonlinear_arith)
            requires
                p2 >= 2 * p1,
                p1 > 0,
                m1 < 0x100_0000,
                m2 >= 0x80_0000,
        ;
    } else {
        assert(m1 == m2) by (nonlinear_arith)
            requires
                m1 * p1 == m2 * p1,
                p1 > 0,
        ;
    }
}

proof fn lemma_encodes_unique(b1: u32, b2: u32, n: int, scale: nat)
    requires
        encodes(b1, n, scale),
        encodes(b2, n, scale),
    ensures
        b1 == b2,
{
    if n != 0 {
        let (m1, e1) = (0x80_0000 + fraction(b1), exponent(b1) + scale);
        let (m2, e2) = (0x80_0000 + fraction(b2), exponent(b2) + scale);
        if e1 <= e2 {
            lemma_normal_form(m1, e1, m2, e2);
        } else {
            lemma_normal_form(m2, e2, m1, e1);
        }
    }
}

/// A level has one sample: the conversion leaves no choice.
pub proof fn lemma_conversion_is_unique(b1: u32, b2: u32, n: int, scale: nat)
    requires
        converts(b1, n, scale),
        converts(b2, n, scale),
    ensures
        b1 == b2,
{
    let a = size_of_int(n);
    let r1 = choose|r: nat| #[trigger]
        rounded(a, r) && encodes(
            b1,
            if n < 0 {
                -r
            } else {
                r as int
            },
            scale,
        );
    let r2 = choose|r: nat| #[trigger]
        rounded(a, r) && encodes(
            b2,
            if n < 0 {
                -r
            } else {
                r as int
            },
            scale,
        );
    lemma_rounded_unique(a, r1, r2);
    lemma_encodes_unique(
        b1,
        b2,
        if n < 0 {
            -r1
        } else {
            r1 as int
        },
        scale,
    );
}

/// The sample of a level is any encoding that the level is converted to.
pub proof fn lemma_sample_of(bits: u32, n: int, scale: nat)
    requires
        converts(bits, n, scale),
    ensures
        sample_of(n, scale) == (Sample { bits }),
{
    let s = Sample { bits };
    assert(converts(s.bits, n, scale));
    lemma_conversion_is_unique(sample_of(n, scale).bits, bits, n, scale);
}

proof fn lemma_sample_of_all()
    ensures
        forall|b: u32, n: int, scale: nat| #[trigger]
            converts(b, n, scale) ==> sample_of(n, scale) == (Sample { bits: b }),
{
    assert forall|b: u32, n: int, scale: nat| #[trigger] converts(b, n, scale) implies sample_of(
        n,
        scale,
    ) == (Sample { bits: b }) by {
        lemma_sample_of(b, n, scale);
    }
}

/// The middle of a device's range is converted to positive zero.
pub proof fn lemma_middle_is_zero(scale: nat)
    ensures
        sample_of(0, scale) == (Sample { bits: 0 }),
{
    assert(rounded(size_of_int(0), 0));
    assert(encodes(0, 0, scale));
    lemma_sample_of(0, 0, scale);
}

/// Silence is kept, and nothing else becomes silence: a converted sample compares
/// equal to zero exactly where the device delivered the middle of its range.
pub proof fn lemma_silence_is_kept(bits: u32, n: int, scale: nat)
    requires
        converts(bits, n, scale),
    ensures
        (Sample { bits }).is_silent() <==> n == 0,
{
    let a = size_of_int(n);
    let r = choose|r: nat| #[trigger]
        rounded(a, r) && encodes(
            bits,
            if n < 0 {
                -r
            } else {
                r as int
            },
            scale,
        );
    if a >= 0x100_0000 {
        let k = choose|k: nat| #[trigger] rounded_at(a, k, r);
        lemma_pow2_strictly_increases(k, k + 23);
    }
}

/// Each sample that a device delivered is converted in its place, by the width and the
/// middle of its own type, and samples that are single precision already are kept.
pub proof fn lemma_singles_in_place(device: DeviceSamples)
    ensures
        match device {
            DeviceSamples::I8(v) => {
                &&& device.singles().len() == v@.len()
                &&& forall|i: int, bits: u32|
                    0 <= i < v@.len() && #[trigger] converts(bits, v@[i] as int, 7)
                        ==> device.singles()[i].bits == bits
            },
            DeviceSamples::I16(v) => {
                &&& device.singles().len() == v@.len()
                &&& forall|i: int, bits: u32|
                    0 <= i < v@.len() && #[trigger] converts(bits, v@[i] as int, 15)
                        ==> device.singles()[i].bits == bits
            },
            DeviceSamples::I32(v) => {
                &&& device.singles().len() == v@.len()
                &&& forall|i: int, bits: u32|
                    0 <= i < v@.len() && #[trigger] converts(bits, v@[i] as int, 31)
                        ==> device.singles()[i].bits == bits
            },
            DeviceSamples::I64(v) => {
                &&& device.singles().len() == v@.len()
                &&& forall|i: int, bits: u32|
                    0 <= i < v@.len() && #[trigger] converts(bits, v@[i] as int, 63)
                        ==> device.singles()[i].bits == bits
            },
            DeviceSamples::U8(v) => {
                &&& device.singles().len() == v@.len()
                &&& forall|i: int, bits: u32|
                    0 <= i < v@.len() && #[trigger] converts(bits, v@[i] - 0x80, 7)
                        ==> device.singles()[i].bits == bits
            },
            DeviceSamples::U16(v) => {
                &&& device.singles().len() == v@.len()
                &&& forall|i: int, bits: u32|
                    0 <= i < v@.len() && #[trigger] converts(bits, v@[i] - 0x8000, 15)
                        ==> device.singles()[i].bits == bits
            },
            DeviceSamples::U32(v) => {
                &&& device.singles().len() == v@.len()
                &&& forall|i: int, bits: u32|
                    0 <= i < v@.len() && #[trigger] converts(bits, v@[i] - 0x8000_0000, 31)
                        ==> device.singles()[i].bits == bits
            },
            DeviceSamples::U64(v) => {
                &&& device.singles().len() == v@.len()
                &&& forall|i: int, bits: u32|
                    0 <= i < v@.len() && #[trigger] converts(bits, v@[i] - 0x8000_0000_0000_0000, 63)
                        ==> device.singles()[i].bits == bits
            },
            DeviceSamples::Single(v) => device.singles() == v@,
        },
{
    lemma_sample_of_all();
    if let DeviceSamples::Single(v) = device {
        assert(device.singles() =~= v@);
    }
}

/// A level of at most 24 binary digits is converted without loss: the number that the
/// encoding stands for, `(2^23 + fraction) * 2^(exponent - 150)` with its sign, is the
/// delivered one divided by `2^scale`.
pub proof fn lemma_small_levels_are_exact(bits: u32, n: int, scale: nat)
    requires
        converts(bits, n, scale),
        -0x100_0000 < n < 0x100_0000,
    ensures
        n == 0 ==> bits == 0,
        n > 0 ==> bits < 0x8000_0000,
        n < 0 ==> bits >= 0x8000_0000,
        n != 0 ==> (if n < 0 {
            -n
        } else {
            n
        }) * pow2(150) == (0x80_0000 + bits % 0x80_0000) * pow2(
            ((bits / 0x80_0000) % 0x100) as nat + scale,
        ),
{
}

proof fn lemma_half_unit(a: nat, r: nat, k: nat, m: nat, e: nat)
    requires
        rounded_at(a, k, r),
        m < 0x100_0000,
        r * pow2(150) == m * pow2(e),
    ensures
        2 * size_of_int(a - r) * pow2(150) <= pow2(e),
{
    let u = pow2(k) as int;
    let p = pow2(150) as int;
    let d = size_of_int(a - r) as int;
    lemma_pow2_pos(k);
    lemma_pow2_pos(150);
    lemma_pow2_adds(k, 23);
    lemma_pow2_adds(k, 150);
    vstd::arithmetic::power2::lemma2_to64();
    let q = r as int / u;
    assert(r == q * u) by (nonlinear_arith)
        requires
            u > 0,
            r as int % u == 0,
            q == r as int / u,
    ;
    assert(a >= 0x80_0000 * u) by {
        assert(pow2(k + 23) == pow2(k) * pow2(23));
    }
    assert(q >= 0x80_0000) by (nonlinear_arith)
        requires
            u > 0,
            q * u > 0x80_0000 * u - u,
    ;
    assert(r * p >= 0x80_0000 * (u * p)) by (nonlinear_arith)
        requires
            r == q * u,
            q >= 0x80_0000,
            u > 0,
            p > 0,
    ;
    assert(pow2(k + 150) == u * p);
    if e < k + 150 {
        lemma_pow2_pos(e);
        lemma_pow2_adds(e, 1);
        if e + 1 < k + 150 {
            lemma_pow2_strictly_increases(e + 1, k + 150);
        }
        let x = pow2(e) as int;
        assert(2 * x <= u * p);
        assert(m * x < 0x100_0000 * x) by (nonlinear_arith)
            requires
                m < 0x100_0000,
                x > 0,
        ;
        assert(false);
    }
    if k + 150 < e {
        lemma_pow2_strictly_increases(k + 150, e);
    }
    assert(2 * d * p <= u * p) by (nonlinear_arith)
        requires
            2 * d <= u,
            p > 0,
    ;
}

/// No level is off by more than half a unit of the last binary digit of its sample,
/// and its sign is kept.
pub proof fn lemma_levels_are_nearest(bits: u32, n: int, scale: nat)
    requires
        converts(bits, n, scale),
        n != 0,
    ensures
        n > 0 ==> bits < 0x8000_0000,
        n < 0 ==> bits >= 0x8000_0000,
        ({
            let unit = pow2(((bits / 0x80_0000) % 0x100) as nat + scale);
            let size = if n < 0 {
                -n
            } else {
                n
            };
            -unit <= 2 * (size * pow2(150) - (0x80_0000 + bits % 0x80_0000) * unit) <= unit
        }),
{
    let a = size_of_int(n);
    let r = choose|r: nat| #[trigger]
        rounded(a, r) && encodes(
            bits,
            if n < 0 {
                -r
            } else {
                r as int
            },
            scale,
        );
    let e = exponent(bits) + scale;
    let m = 0x80_0000 + fraction(bits);
    lemma_silence_is_kept(bits, n, scale);
    if a >= 0x100_0000 {
        let k = choose|k: nat| #[trigger] rounded_at(a, k, r);
        lemma_pow2_strictly_increases(k, k + 23);
        assert(r > 0);
        lemma_half_unit(a, r, k, m, e);
        let p = pow2(150) as int;
        let d = size_of_int(a - r) as int;
        assert(a * p - r * p == (a - r) * p) by (nonlinear_arith);
        assert(-(2 * d * p) <= 2 * ((a - r) * p) <= 2 * d * p) by (nonlinear_arith)
            requires
                -d <= a - r <= d,
                p >= 0,
        ;
    } else {
        lemma_pow2_pos(e);
    }
}

} // verus!
