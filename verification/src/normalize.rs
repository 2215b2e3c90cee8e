//! The normalization engine: an elementwise base-10 logarithm, one
//! min/max scan of the transformed samples, and a linear rescale of
//! every sample by `(v - min) / (max - min)`.
//!
//! Non-positive samples are not masked before the logarithm; the
//! resulting infinities and NaNs propagate into the rescale, and a
//! constant image divides by zero there.  Callers must therefore treat
//! the intensity field as possibly non-finite; the color mapper clamps.
//!
//! The only operations delegated to outside math routines are the
//! logarithm, the subtraction and the division; their results are named
//! by uninterpreted functions, pinned up to the payload of a NaN result
//! (which the hardware does not promise to reproduce).  The min/max scan
//! is plain bit logic and is verified here: as in a fold by IEEE-754
//! `max`/`min` starting from the infinities, a NaN leaves the running
//! extreme unmoved.

use vstd::prelude::*;

use crate::bits::{
    is_nan_bits, lt_bits, nan_eq, EXP_MASK, FRAC_MASK, NEG_INF_BITS, POS_INF_BITS, QNAN_BITS,
};
use crate::bits::{is_nan, lt};
use crate::data::DataContainer;

verus! {

/// Name for the result of the outside base-10 logarithm on a sample's
/// bit pattern.
pub uninterp spec fn log10_bits(x: u64) -> u64;

/// Name for the result of IEEE-754 double-precision subtraction on two
/// bit patterns.
pub uninterp spec fn sub_bits(a: u64, b: u64) -> u64;

/// Name for the result of IEEE-754 double-precision division on two bit
/// patterns.
pub uninterp spec fn div_bits(a: u64, b: u64) -> u64;

/// Relies on libm::log10 for the base-10 logarithm of one sample
/// (bytemuck::cast moves the argument from bit pattern to numeric
/// value).  The result is a function of the argument alone, except that
/// the payload of a NaN result is not reproducible; a NaN argument
/// yields a NaN result.
#[verifier::external_body]
fn log10_sample(x: u64) -> (r: u64)
    ensures
        nan_eq(r, log10_bits(x)),
        is_nan_bits(x) ==> is_nan_bits(r),
{
    libm::log10(bytemuck::cast(x)).to_bits()
}

/// Relies on the IEEE-754 double-precision subtraction operator
/// (libm::copysign of a value with its own sign fixes each operand's
/// numeric type without changing it; bytemuck::cast moves from bit
/// pattern to value).  The difference is a function of the operands
/// alone, except that the payload of a NaN result is not reproducible; a
/// NaN operand yields a NaN result.
#[verifier::external_body]
fn sub_sample(a: u64, b: u64) -> (r: u64)
    ensures
        nan_eq(r, sub_bits(a, b)),
        is_nan_bits(a) || is_nan_bits(b) ==> is_nan_bits(r),
{
    let x = libm::copysign(bytemuck::cast(a), bytemuck::cast(a));
    let y = libm::copysign(bytemuck::cast(b), bytemuck::cast(b));
    (x - y).to_bits()
}

/// Relies on the IEEE-754 double-precision division operator (operands
/// typed as in `sub_sample`).  The quotient is a function of the
/// operands alone, except that the payload of a NaN result is not
/// reproducible; a NaN operand yields a NaN result.
#[verifier::external_body]
fn div_sample(a: u64, b: u64) -> (r: u64)
    ensures
        nan_eq(r, div_bits(a, b)),
        is_nan_bits(a) || is_nan_bits(b) ==> is_nan_bits(r),
{
    let x = libm::copysign(bytemuck::cast(a), bytemuck::cast(a));
    let y = libm::copysign(bytemuck::cast(b), bytemuck::cast(b));
    (x / y).to_bits()
}

/// The running maximum of a scan that starts at negative infinity and
/// skips NaNs.
pub open spec fn spec_fold_max(s: Seq<u64>) -> u64
    decreases s.len(),
{
    if s.len() == 0 {
        NEG_INF_BITS
    } else {
        let p = spec_fold_max(s.drop_last());
        if is_nan_bits(s.last()) {
            p
        } else if lt_bits(p, s.last()) {
            s.last()
        } else {
            p
        }
    }
}

/// The running minimum of a scan that starts at positive infinity and
/// skips NaNs.
pub open spec fn spec_fold_min(s: Seq<u64>) -> u64
    decreases s.len(),
{
    if s.len() == 0 {
        POS_INF_BITS
    } else {
        let p = spec_fold_min(s.drop_last());
        if is_nan_bits(s.last()) {
            p
        } else if lt_bits(s.last(), p) {
            s.last()
        } else {
            p
        }
    }
}

/// The scan's maximum is never a NaN.
pub proof fn lemma_fold_max_not_nan(s: Seq<u64>)
    ensures
        !is_nan_bits(spec_fold_max(s)),
    decreases s.len(),
{
    assert(NEG_INF_BITS & FRAC_MASK == 0) by (bit_vector);
    if s.len() > 0 {
        lemma_fold_max_not_nan(s.drop_last());
    }
}

/// The scan's minimum is never a NaN.
pub proof fn lemma_fold_min_not_nan(s: Seq<u64>)
    ensures
        !is_nan_bits(spec_fold_min(s)),
    decreases s.len(),
{
    assert(POS_INF_BITS & FRAC_MASK == 0) by (bit_vector);
    if s.len() > 0 {
        lemma_fold_min_not_nan(s.drop_last());
    }
}

/// Two sequences that agree elementwise up to NaN payloads have the same
/// scan maximum.
pub proof fn lemma_fold_max_nan_eq(s1: Seq<u64>, s2: Seq<u64>)
    requires
        s1.len() == s2.len(),
        forall|i: int| 0 <= i < s1.len() ==> nan_eq(#[trigger] s1[i], s2[i]),
    ensures
        spec_fold_max(s1) == spec_fold_max(s2),
    decreases s1.len(),
{
    if s1.len() > 0 {
        lemma_fold_max_nan_eq(s1.drop_last(), s2.drop_last());
        assert(nan_eq(s1.last(), s2.last()));
    }
}

/// Two sequences that agree elementwise up to NaN payloads have the same
/// scan minimum.
pub proof fn lemma_fold_min_nan_eq(s1: Seq<u64>, s2: Seq<u64>)
    requires
        s1.len() == s2.len(),
        forall|i: int| 0 <= i < s1.len() ==> nan_eq(#[trigger] s1[i], s2[i]),
    ensures
        spec_fold_min(s1) == spec_fold_min(s2),
    decreases s1.len(),
{
    if s1.len() > 0 {
        lemma_fold_min_nan_eq(s1.drop_last(), s2.drop_last());
        assert(nan_eq(s1.last(), s2.last()));
    }
}

/// The scan maximum of a sample vector.
pub fn scan_max(v: &Vec<u64>) -> (r: u64)
    ensures
        r == spec_fold_max(v@),
{
    let mut m: u64 = NEG_INF_BITS;
    let mut i: usize = 0;
    while i < v.len()
        invariant
            0 <= i <= v@.len(),
            m == spec_fold_max(v@.take(i as int)),
        decreases v@.len() - i,
    {
        let x = v[i];
        proof {
            assert(v@.take(i as int + 1).drop_last() =~= v@.take(i as int));
            assert(v@.take(i as int + 1).last() == v@[i as int]);
        }
        if !is_nan(x) && lt(m, x) {
            m = x;
        }
        i = i + 1;
    }
    proof {
        assert(v@.take(v@.len() as int) =~= v@);
    }
    m
}

/// The scan minimum of a sample vector.
pub fn scan_min(v: &Vec<u64>) -> (r: u64)
    ensures
        r == spec_fold_min(v@),
{
    let mut m: u64 = POS_INF_BITS;
    let mut i: usize = 0;
    while i < v.len()
        invariant
            0 <= i <= v@.len(),
            m == spec_fold_min(v@.take(i as int)),
        decreases v@.len() - i,
    {
        let x = v[i];
        proof {
            assert(v@.take(i as int + 1).drop_last() =~= v@.take(i as int));
            assert(v@.take(i as int + 1).last() == v@[i as int]);
        }
        if !is_nan(x) && lt(x, m) {
            m = x;
        }
        i = i + 1;
    }
    proof {
        assert(v@.take(v@.len() as int) =~= v@);
    }
    m
}

/// The log-transformed samples, as named patterns.
pub open spec fn log_seq(s: Seq<u64>) -> Seq<u64> {
    Seq::new(s.len(), |i: int| log10_bits(s[i]))
}

/// The scan minimum of the log-transformed samples.
pub open spec fn norm_min_spec(s: Seq<u64>) -> u64 {
    spec_fold_min(log_seq(s))
}

/// The scan maximum of the log-transformed samples.
pub open spec fn norm_max_spec(s: Seq<u64>) -> u64 {
    spec_fold_max(log_seq(s))
}

/// The normalized intensity of sample `i`:
/// `(log10(v) - min) / (max - min)` over the named operations, with a
/// NaN at any stage standing for every NaN payload the hardware may
/// produce there.
pub open spec fn intensity_spec(s: Seq<u64>, i: int) -> u64 {
    let l = log10_bits(s[i]);
    if is_nan_bits(l) {
        QNAN_BITS
    } else {
        let num = sub_bits(l, norm_min_spec(s));
        if is_nan_bits(num) {
            QNAN_BITS
        } else {
            let den = sub_bits(norm_max_spec(s), norm_min_spec(s));
            if is_nan_bits(den) {
                QNAN_BITS
            } else {
                div_bits(num, den)
            }
        }
    }
}

/// The whole intensity field, as named patterns.
pub open spec fn intensity_seq(s: Seq<u64>) -> Seq<u64> {
    Seq::new(s.len(), |i: int| intensity_spec(s, i))
}

/// Elementwise base-10 logarithm of a sample vector.
fn log_transform(v: &Vec<u64>) -> (r: Vec<u64>)
    ensures
        r@.len() == v@.len(),
        forall|i: int| 0 <= i < v@.len() ==> nan_eq(#[trigger] r@[i], log10_bits(v@[i])),
{
    let mut out: Vec<u64> = Vec::new();
    let mut i: usize = 0;
    while i < v.len()
        invariant
            0 <= i <= v@.len(),
            out@.len() == i,
            forall|j: int| 0 <= j < i ==> nan_eq(#[trigger] out@[j], log10_bits(v@[j])),
        decreases v@.len() - i,
    {
        out.push(log10_sample(v[i]));
        i = i + 1;
    }
    out
}

/// Normalizes a sample vector: log transform, one min/max scan, linear
/// rescale.  Returns the intensity field together with the scan's
/// minimum and maximum of the log-transformed data (the values the
/// caller logs as diagnostics).
pub fn normalize_samples(v: &Vec<u64>) -> (r: (Vec<u64>, u64, u64))
    ensures
        r.0@.len() == v@.len(),
        forall|i: int| 0 <= i < v@.len() ==> nan_eq(#[trigger] r.0@[i], intensity_spec(v@, i)),
        r.1 == norm_min_spec(v@),
        r.2 == norm_max_spec(v@),
{
    let logs = log_transform(v);
    proof {
        lemma_fold_min_nan_eq(logs@, log_seq(v@));
        lemma_fold_max_nan_eq(logs@, log_seq(v@));
        lemma_fold_min_not_nan(log_seq(v@));
        lemma_fold_max_not_nan(log_seq(v@));
    }
    let mn = scan_min(&logs);
    let mx = scan_max(&logs);
    let den = sub_sample(mx, mn);
    let mut out: Vec<u64> = Vec::new();
    let mut i: usize = 0;
    while i < logs.len()
        invariant
            0 <= i <= logs@.len(),
            logs@.len() == v@.len(),
            out@.len() == i,
            forall|j: int| 0 <= j < v@.len() ==> nan_eq(#[trigger] logs@[j], log10_bits(v@[j])),
            mn == norm_min_spec(v@),
            mx == norm_max_spec(v@),
            !is_nan_bits(mn),
            !is_nan_bits(mx),
            nan_eq(den, sub_bits(mx, mn)),
            forall|j: int| 0 <= j < i ==> nan_eq(#[trigger] out@[j], intensity_spec(v@, j)),
        decreases logs@.len() - i,
    {
        let li = logs[i];
        let num = sub_sample(li, mn);
        let value = div_sample(num, den);
        proof {
            assert(QNAN_BITS & EXP_MASK == EXP_MASK && QNAN_BITS & FRAC_MASK != 0) by (bit_vector);
            let ghost s = v@;
            let ghost j = i as int;
            let ghost l_name = log10_bits(s[j]);
            if is_nan_bits(l_name) {
                assert(is_nan_bits(li));
                assert(is_nan_bits(value));
            } else {
                assert(li == l_name);
                let ghost num_name = sub_bits(l_name, norm_min_spec(s));
                if is_nan_bits(num_name) {
                    assert(is_nan_bits(num));
                    assert(is_nan_bits(value));
                } else {
                    assert(num == num_name);
                    let ghost den_name = sub_bits(norm_max_spec(s), norm_min_spec(s));
                    if is_nan_bits(den_name) {
                        assert(is_nan_bits(den));
                        assert(is_nan_bits(value));
                    } else {
                        assert(den == den_name);
                        assert(nan_eq(value, div_bits(num_name, den_name)));
                    }
                }
            }
            assert(nan_eq(value, intensity_spec(s, j)));
        }
        out.push(value);
        i = i + 1;
    }
    (out, mn, mx)
}

/// Normalizes a container into a fresh intensity field of the same
/// shape.  Logically the field lies in [0, 1]; for degenerate input
/// (constant images, non-positive samples) it may hold non-finite
/// patterns, which the color mapper clamps.
pub fn normalize(data: &DataContainer) -> (r: DataContainer)
    ensures
        r.shape@ == data.shape@,
        r.samples@.len() == data.samples@.len(),
        data.wf() ==> r.wf(),
        forall|i: int|
            0 <= i < data.samples@.len() ==> nan_eq(
                #[trigger] r.samples@[i],
                intensity_spec(data.samples@, i),
            ),
{
    let (out, _, _) = normalize_samples(&data.samples);
    data.with_samples(out)
}

} // verus!
