//! Price samples carried as IEEE-754 double-precision bit patterns.
//!
//! The provider feed delivers prices as 64-bit floating-point numbers. The
//! library stores each sample as the raw bit pattern of such a number (a
//! `u64`) and defines the ordering, the not-a-number test, and the
//! NaN-seeded maximum / minimum folds directly on those bit patterns, in
//! integer terms. For every sample that is not a NaN the ordering below
//! agrees with the numeric ordering of the encoded values: the encoding is
//! sign-magnitude, magnitudes of like sign compare like their bit patterns,
//! and the two zero encodings are equal.

use vstd::prelude::*;

verus! {

/// Bit pattern of the canonical quiet NaN, the seed of the folds.
pub const NAN_BITS: u64 = 0x7ff8_0000_0000_0000;

/// Exponent field of a sample's bit pattern.
pub open spec fn px_exp(b: u64) -> u64 {
    (b >> 52) & 0x7ff
}

/// Fraction (mantissa) field of a sample's bit pattern.
pub open spec fn px_frac(b: u64) -> u64 {
    b & 0xf_ffff_ffff_ffff
}

/// Whether the sample's sign bit is set (the encoded value is negative or a
/// negative zero).
pub open spec fn px_neg(b: u64) -> bool {
    (b >> 63) == 1
}

/// Magnitude bits of a sample: the bit pattern with the sign bit cleared.
pub open spec fn px_mag(b: u64) -> u64 {
    b & 0x7fff_ffff_ffff_ffff
}

/// Whether the sample encodes a NaN: exponent all ones, fraction non-zero.
pub open spec fn px_is_nan(b: u64) -> bool {
    px_exp(b) == 0x7ff && px_frac(b) != 0
}

/// Strict order on two non-NaN samples, as the encoded values order:
/// a negative value is below a non-negative one (except that the two zero
/// encodings are equal), non-negative values order like their bit patterns,
/// and negative values order in reverse.
pub open spec fn px_lt(a: u64, b: u64) -> bool {
    if px_neg(a) != px_neg(b) {
        px_neg(a) && !(px_mag(a) == 0 && px_mag(b) == 0)
    } else if !px_neg(a) {
        a < b
    } else {
        b < a
    }
}

/// The larger of two samples, ignoring NaN: a NaN operand yields the other
/// operand; otherwise the one that is not below the other (ties keep the
/// first).
pub open spec fn px_max2(a: u64, b: u64) -> u64 {
    if px_is_nan(a) {
        b
    } else if px_is_nan(b) {
        a
    } else if px_lt(a, b) {
        b
    } else {
        a
    }
}

/// The smaller of two samples, ignoring NaN, ties keeping the first.
pub open spec fn px_min2(a: u64, b: u64) -> u64 {
    if px_is_nan(a) {
        b
    } else if px_is_nan(b) {
        a
    } else if px_lt(b, a) {
        b
    } else {
        a
    }
}

/// NaN-seeded maximum fold over a series, in order: the fold of the empty
/// series is the NaN seed, never an error.
pub open spec fn px_fold_max(s: Seq<u64>) -> u64
    decreases s.len(),
{
    if s.len() == 0 {
        NAN_BITS
    } else {
        px_max2(px_fold_max(s.drop_last()), s.last())
    }
}

/// NaN-seeded minimum fold over a series, in order.
pub open spec fn px_fold_min(s: Seq<u64>) -> u64
    decreases s.len(),
{
    if s.len() == 0 {
        NAN_BITS
    } else {
        px_min2(px_fold_min(s.drop_last()), s.last())
    }
}

/// How the sign bit and the magnitude make up a bit pattern.
proof fn lemma_sign_mag(a: u64)
    ensures
        px_neg(a) <==> a >= 0x8000_0000_0000_0000,
        !px_neg(a) ==> px_mag(a) == a,
        px_neg(a) ==> a == px_mag(a) + 0x8000_0000_0000_0000,
        px_mag(a) < 0x8000_0000_0000_0000,
{
    assert(((a >> 63) == 1) <==> a >= 0x8000_0000_0000_0000) by (bit_vector);
    assert(((a >> 63) != 1) ==> (a & 0x7fff_ffff_ffff_ffff == a)) by (bit_vector);
    assert(((a >> 63) == 1) ==> a == (a & 0x7fff_ffff_ffff_ffff) + 0x8000_0000_0000_0000)
        by (bit_vector);
    assert(a & 0x7fff_ffff_ffff_ffff < 0x8000_0000_0000_0000) by (bit_vector);
}

/// The sample order is transitive.
proof fn lemma_px_lt_trans(a: u64, b: u64, c: u64)
    requires
        px_lt(a, b),
        px_lt(b, c),
    ensures
        px_lt(a, c),
{
    lemma_sign_mag(a);
    lemma_sign_mag(b);
    lemma_sign_mag(c);
}

/// The maximum fold deserves its name: it is NaN only when every sample is
/// NaN; otherwise it is one of the samples, and no sample that is not NaN
/// lies above it.
pub proof fn lemma_fold_max_is_maximum(s: Seq<u64>)
    ensures
        px_is_nan(px_fold_max(s)) ==> (forall|i: int| 0 <= i < s.len() ==> px_is_nan(s[i])),
        !px_is_nan(px_fold_max(s)) ==> (exists|i: int|
            0 <= i < s.len() && s[i] == px_fold_max(s)),
        forall|i: int|
            0 <= i < s.len() && !px_is_nan(s[i]) ==> !px_lt(px_fold_max(s), s[i]),
    decreases s.len(),
{
    lemma_empty_fold_is_nan();
    if s.len() > 0 {
        let prefix = s.drop_last();
        lemma_fold_max_is_maximum(prefix);
        let f = px_fold_max(prefix);
        let r = px_fold_max(s);
        assert(forall|i: int| 0 <= i < s.len() - 1 ==> s[i] == prefix[i]);
        if !px_is_nan(r) && r == s.last() {
            assert(s[s.len() - 1] == r);
        }
        assert forall|i: int|
            0 <= i < s.len() && !px_is_nan(s[i]) implies !px_lt(r, s[i]) by {
            if i < s.len() - 1 {
                if !px_is_nan(f) && !px_is_nan(s.last()) && px_lt(f, s.last()) {
                    if px_lt(r, s[i]) {
                        lemma_px_lt_trans(f, r, s[i]);
                    }
                }
            }
        }
    }
}

/// The minimum fold deserves its name: it is NaN only when every sample is
/// NaN; otherwise it is one of the samples, and no sample that is not NaN
/// lies below it.
pub proof fn lemma_fold_min_is_minimum(s: Seq<u64>)
    ensures
        px_is_nan(px_fold_min(s)) ==> (forall|i: int| 0 <= i < s.len() ==> px_is_nan(s[i])),
        !px_is_nan(px_fold_min(s)) ==> (exists|i: int|
            0 <= i < s.len() && s[i] == px_fold_min(s)),
        forall|i: int|
            0 <= i < s.len() && !px_is_nan(s[i]) ==> !px_lt(s[i], px_fold_min(s)),
    decreases s.len(),
{
    lemma_empty_fold_is_nan();
    if s.len() > 0 {
        let prefix = s.drop_last();
        lemma_fold_min_is_minimum(prefix);
        let f = px_fold_min(prefix);
        let r = px_fold_min(s);
        assert(forall|i: int| 0 <= i < s.len() - 1 ==> s[i] == prefix[i]);
        if !px_is_nan(r) && r == s.last() {
            assert(s[s.len() - 1] == r);
        }
        assert forall|i: int|
            0 <= i < s.len() && !px_is_nan(s[i]) implies !px_lt(s[i], r) by {
            if i < s.len() - 1 {
                if !px_is_nan(f) && !px_is_nan(s.last()) && px_lt(s.last(), f) {
                    if px_lt(s[i], r) {
                        lemma_px_lt_trans(s[i], r, f);
                    }
                }
            }
        }
    }
}

/// The folds over an empty series yield the NaN seed, not an error: a
/// session without samples propagates NaN instead of defaulting it away.
pub proof fn lemma_empty_fold_is_nan()
    ensures
        px_fold_max(Seq::<u64>::empty()) == NAN_BITS,
        px_fold_min(Seq::<u64>::empty()) == NAN_BITS,
        px_is_nan(NAN_BITS),
{
    assert((0x7ff8_0000_0000_0000u64 >> 52) & 0x7ff == 0x7ff) by (bit_vector);
    assert(0x7ff8_0000_0000_0000u64 & 0xf_ffff_ffff_ffff != 0) by (bit_vector);
}

/// Runtime NaN test on a sample's bit pattern.
pub fn is_nan_bits(b: u64) -> (r: bool)
    ensures
        r == px_is_nan(b),
{
    (b >> 52) & 0x7ff == 0x7ff && b & 0xf_ffff_ffff_ffff != 0
}

/// Runtime strict order on two non-NaN samples' bit patterns.
pub fn lt_bits(a: u64, b: u64) -> (r: bool)
    ensures
        r == px_lt(a, b),
{
    let na: bool = (a >> 63) == 1;
    let nb: bool = (b >> 63) == 1;
    if na != nb {
        na && !(a & 0x7fff_ffff_ffff_ffff == 0 && b & 0x7fff_ffff_ffff_ffff == 0)
    } else if !na {
        a < b
    } else {
        b < a
    }
}

/// The larger of two samples, ignoring NaN.
pub fn max_bits(a: u64, b: u64) -> (r: u64)
    ensures
        r == px_max2(a, b),
{
    if is_nan_bits(a) {
        b
    } else if is_nan_bits(b) {
        a
    } else if lt_bits(a, b) {
        b
    } else {
        a
    }
}

/// The smaller of two samples, ignoring NaN.
pub fn min_bits(a: u64, b: u64) -> (r: u64)
    ensures
        r == px_min2(a, b),
{
    if is_nan_bits(a) {
        b
    } else if is_nan_bits(b) {
        a
    } else if lt_bits(b, a) {
        b
    } else {
        a
    }
}

/// NaN-seeded maximum of a series of samples; the NaN seed on an empty
/// series.
pub fn px_max(samples: &Vec<u64>) -> (r: u64)
    ensures
        r == px_fold_max(samples@),
{
    let mut acc: u64 = NAN_BITS;
    let mut i: usize = 0;
    assert(samples@.take(0) =~= Seq::<u64>::empty());
    while i < samples.len()
        invariant
            i <= samples.len(),
            acc == px_fold_max(samples@.take(i as int)),
        decreases samples.len() - i,
    {
        assert(samples@.take(i + 1).drop_last() =~= samples@.take(i as int));
        acc = max_bits(acc, samples[i]);
        i = i + 1;
    }
    assert(samples@.take(samples.len() as int) =~= samples@);
    acc
}

/// NaN-seeded minimum of a series of samples; the NaN seed on an empty
/// series.
pub fn px_min(samples: &Vec<u64>) -> (r: u64)
    ensures
        r == px_fold_min(samples@),
{
    let mut acc: u64 = NAN_BITS;
    let mut i: usize = 0;
    assert(samples@.take(0) =~= Seq::<u64>::empty());
    while i < samples.len()
        invariant
            i <= samples.len(),
            acc == px_fold_min(samples@.take(i as int)),
        decreases samples.len() - i,
    {
        assert(samples@.take(i + 1).drop_last() =~= samples@.take(i as int));
        acc = min_bits(acc, samples[i]);
        i = i + 1;
    }
    assert(samples@.take(samples.len() as int) =~= samples@);
    acc
}

} // verus!
