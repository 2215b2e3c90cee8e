//! The numeric data container: an immutable multi-dimensional array of
//! double-precision samples, carried as bit patterns, together with its
//! shape.  The total element count always equals the product of the
//! shape.

use vstd::prelude::*;

verus! {

/// Product of the per-dimension sizes of a shape.
pub open spec fn shape_product(s: Seq<usize>) -> int
    decreases s.len(),
{
    if s.len() == 0 {
        1
    } else {
        shape_product(s.drop_last()) * s.last()
    }
}

/// A shape with a zero dimension has product zero.
proof fn lemma_shape_product_zero(s: Seq<usize>, i: int)
    requires
        0 <= i < s.len(),
        s[i] == 0,
    ensures
        shape_product(s) == 0,
    decreases s.len(),
{
    if i == s.len() - 1 {
        assert(s.last() == 0);
        assert(shape_product(s.drop_last()) * 0 == 0) by (nonlinear_arith);
    } else {
        lemma_shape_product_zero(s.drop_last(), i);
        assert(0 * s.last() == 0) by (nonlinear_arith);
    }
}

/// With every dimension positive, the product of a prefix is positive
/// and never exceeds the product of the whole shape.
proof fn lemma_shape_product_prefix(s: Seq<usize>, i: int)
    requires
        0 <= i <= s.len(),
        forall|j: int| 0 <= j < s.len() ==> s[j] >= 1,
    ensures
        1 <= shape_product(s.take(i)),
        shape_product(s.take(i)) <= shape_product(s),
    decreases s.len() - i,
{
    if i == s.len() {
        assert(s.take(i) =~= s);
        lemma_shape_product_pos(s);
    } else {
        lemma_shape_product_prefix(s, i + 1);
        assert(s.take(i + 1).drop_last() =~= s.take(i));
        let p = shape_product(s.take(i));
        let d = s[i] as int;
        assert(shape_product(s.take(i + 1)) == p * d);
        assert(p >= 1 && d >= 1 ==> p * d >= p) by (nonlinear_arith);
        lemma_shape_product_pos(s.take(i));
    }
}

/// With every dimension positive, the product is positive.
proof fn lemma_shape_product_pos(s: Seq<usize>)
    requires
        forall|j: int| 0 <= j < s.len() ==> s[j] >= 1,
    ensures
        shape_product(s) >= 1,
    decreases s.len(),
{
    if s.len() > 0 {
        lemma_shape_product_pos(s.drop_last());
        let p = shape_product(s.drop_last());
        let d = s.last() as int;
        assert(p >= 1 && d >= 1 ==> p * d >= 1) by (nonlinear_arith);
    }
}

/// The product of a two-dimensional shape is width times height.
pub proof fn lemma_shape_product_two(s: Seq<usize>)
    requires
        s.len() == 2,
    ensures
        shape_product(s) == s[0] * s[1],
{
    assert(s.drop_last().drop_last() =~= Seq::<usize>::empty());
    assert(shape_product(s.drop_last().drop_last()) == 1);
    assert(s.drop_last().last() == s[0]);
    assert(shape_product(s.drop_last()) == 1 * s[0]);
    assert(shape_product(s) == shape_product(s.drop_last()) * s[1]);
}

/// An immutable multi-dimensional array of double-precision samples,
/// each carried as its IEEE-754 bit pattern, with its shape.  The source
/// array of a rendering is never mutated; derived arrays are fresh
/// values.
#[derive(Clone, Debug, PartialEq)]
pub struct DataContainer {
    /// The samples, flattened with the first dimension varying fastest.
    pub samples: Vec<u64>,
    /// The per-dimension sizes.
    pub shape: Vec<usize>,
}

impl DataContainer {
    /// The element count equals the product of the shape.
    pub open spec fn wf(&self) -> bool {
        shape_product(self.shape@) == self.samples@.len()
    }

    /// Builds a container when the sample count matches the shape, and
    /// reports the mismatch otherwise.
    pub fn new(samples: Vec<u64>, shape: Vec<usize>) -> (r: Option<DataContainer>)
        ensures
            r is Some <==> shape_product(shape@) == samples@.len(),
            r matches Some(c) ==> c.samples@ == samples@ && c.shape@ == shape@ && c.wf(),
    {
        let n = shape.len();
        let total = samples.len();
        let mut i: usize = 0;
        while i < n
            invariant
                n == shape@.len(),
                0 <= i <= n,
                forall|j: int| 0 <= j < i ==> shape@[j] >= 1,
            decreases n - i,
        {
            if shape[i] == 0 {
                proof {
                    lemma_shape_product_zero(shape@, i as int);
                }
                if samples.len() == 0 {
                    return Some(DataContainer { samples, shape });
                } else {
                    return None;
                }
            }
            i = i + 1;
        }
        let mut p: usize = 1;
        i = 0;
        while i < n
            invariant
                n == shape@.len(),
                total == samples@.len(),
                0 <= i <= n,
                forall|j: int| 0 <= j < n ==> shape@[j] >= 1,
                p as int == shape_product(shape@.take(i as int)),
            decreases n - i,
        {
            match p.checked_mul(shape[i]) {
                Some(np) => {
                    proof {
                        assert(shape@.take(i as int + 1).drop_last() =~= shape@.take(i as int));
                    }
                    p = np;
                }
                None => {
                    proof {
                        assert(shape@.take(i as int + 1).drop_last() =~= shape@.take(i as int));
                        lemma_shape_product_prefix(shape@, i as int + 1);
                        let d = shape@[i as int];
                        assert(shape_product(shape@.take(i as int + 1)) == p as int * d);
                        assert(samples@.len() == total <= usize::MAX);
                    }
                    return None;
                }
            }
            i = i + 1;
        }
        proof {
            assert(shape@.take(n as int) =~= shape@);
        }
        if p == samples.len() {
            Some(DataContainer { samples, shape })
        } else {
            None
        }
    }

    /// Number of samples.
    pub fn sample_count(&self) -> (r: usize)
        ensures
            r == self.samples@.len(),
    {
        self.samples.len()
    }

    /// The per-dimension sizes.
    pub fn shape(&self) -> (r: &Vec<usize>)
        ensures
            r@ == self.shape@,
    {
        &self.shape
    }

    /// The sample at a flat index.
    pub fn sample_at(&self, i: usize) -> (r: u64)
        requires
            i < self.samples@.len(),
        ensures
            r == self.samples@[i as int],
    {
        self.samples[i]
    }

    /// A fresh container with the same shape and new samples of the same
    /// count, as the normalization engine produces.
    pub fn with_samples(&self, samples: Vec<u64>) -> (r: DataContainer)
        requires
            samples@.len() == self.samples@.len(),
        ensures
            r.samples@ == samples@,
            r.shape@ == self.shape@,
            self.wf() ==> r.wf(),
    {
        DataContainer { samples, shape: self.shape.clone() }
    }
}

} // verus!
