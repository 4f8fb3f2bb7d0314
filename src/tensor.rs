use vstd::prelude::*;

verus! {

/// Number of elements held by a tensor of the given shape: the product of its
/// dimensions (1 for a scalar of rank 0).
pub open spec fn shape_size(shape: Seq<usize>) -> nat
    decreases shape.len(),
{
    if shape.len() == 0 {
        1
    } else {
        shape_size(shape.drop_last()) * (shape.last() as nat)
    }
}

/// Every element of `s` is the bit pattern of `+0.0`.
pub open spec fn all_zero(s: Seq<u32>) -> bool {
    forall|i: int| 0 <= i < s.len() ==> s[i] == 0u32
}

/// The tensor's shape does not fit the number of values it was given.
#[derive(Debug, PartialEq, Eq, Structural, Clone, Copy)]
pub struct ShapeError {
    pub elements: usize,
}

/// A dense, row-major tensor of 32-bit floats. Each value is held as its
/// IEEE-754 bit pattern, so that the library moves, reshapes and compares
/// values without float arithmetic; `0` is the pattern of `+0.0`.
///
/// The shape is checked at construction: the number of values is always the
/// product of the dimensions.
#[derive(Debug)]
pub struct Tensor {
    shape: Vec<usize>,
    data: Vec<u32>,
}

impl Tensor {
    /// The dimensions, outermost first.
    pub closed spec fn dims(&self) -> Seq<usize> {
        self.shape@
    }

    /// The values in row-major order.
    pub closed spec fn values(&self) -> Seq<u32> {
        self.data@
    }

    /// The number of values matches the shape.
    pub open spec fn wf(&self) -> bool {
        self.values().len() == shape_size(self.dims())
    }

    /// Builds a tensor of the given shape over `data`, or fails when the
    /// number of values is not the product of the dimensions.
    pub fn from_shape_vec(shape: Vec<usize>, data: Vec<u32>) -> (r: Result<Tensor, ShapeError>)
        ensures
            match r {
                Ok(t) => t.wf() && t.dims() == shape@ && t.values() == data@,
                Err(e) => e.elements == data@.len(),
            },
            r is Ok <==> data@.len() == shape_size(shape@),
    {
        if size_matches(&shape, data.len()) {
            Ok(Tensor { shape, data })
        } else {
            Err(ShapeError { elements: data.len() })
        }
    }

    /// A tensor of the given shape whose values are all `+0.0`.
    pub fn zeros(shape: Vec<usize>, len: usize) -> (r: Tensor)
        requires
            len == shape_size(shape@),
        ensures
            r.wf(),
            r.dims() == shape@,
            r.values().len() == len,
            all_zero(r.values()),
    {
        let mut data: Vec<u32> = Vec::new();
        let mut i: usize = 0;
        while i < len
            invariant
                i <= len,
                data@.len() == i,
                all_zero(data@),
            decreases len - i,
        {
            data.push(0);
            i = i + 1;
        }
        Tensor { shape, data }
    }

    /// The same values under a leading axis of length 1: shape `d` becomes
    /// `(1, d...)`.
    pub fn insert_leading_axis(self) -> (r: Tensor)
        requires
            self.wf(),
        ensures
            r.wf(),
            r.dims() == seq![1usize] + self.dims(),
            r.values() == self.values(),
    {
        let mut shape: Vec<usize> = Vec::new();
        shape.push(1);
        let mut i: usize = 0;
        while i < self.shape.len()
            invariant
                i <= self.shape@.len(),
                shape@ == seq![1usize] + self.shape@.subrange(0, i as int),
            decreases self.shape@.len() - i,
        {
            shape.push(self.shape[i]);
            proof {
                assert(self.shape@.subrange(0, i + 1) == self.shape@.subrange(0, i as int).push(
                    self.shape@[i as int],
                ));
            }
            i = i + 1;
        }
        proof {
            assert(self.shape@.subrange(0, self.shape@.len() as int) == self.shape@);
            lemma_leading_one(self.shape@);
        }
        Tensor { shape, data: self.data }
    }

    /// A copy with the same shape and values.
    pub fn copy(&self) -> (r: Tensor)
        requires
            self.wf(),
        ensures
            r.wf(),
            r.dims() == self.dims(),
            r.values() == self.values(),
    {
        Tensor { shape: copy_vec_usize(&self.shape), data: copy_vec_u32(&self.data) }
    }

    /// The first value in row-major order, if the tensor holds any.
    pub fn first(&self) -> (r: Option<u32>)
        ensures
            self.values().len() == 0 ==> r is None,
            self.values().len() > 0 ==> r == Some(self.values()[0]),
    {
        if self.data.len() == 0 {
            None
        } else {
            Some(self.data[0])
        }
    }

    /// Sets every value to `+0.0`, keeping the shape.
    pub fn fill_zero(&mut self)
        ensures
            final(self).dims() == old(self).dims(),
            final(self).values().len() == old(self).values().len(),
            all_zero(final(self).values()),
            old(self).wf() ==> final(self).wf(),
    {
        let n = self.data.len();
        let mut i: usize = 0;
        while i < n
            invariant
                i <= n,
                n == self.data@.len(),
                self.shape@ == old(self).shape@,
                forall|j: int| 0 <= j < i ==> self.data@[j] == 0u32,
            decreases n - i,
        {
            self.data.set(i, 0);
            i = i + 1;
        }
    }

    /// The dimensions, outermost first.
    pub fn shape(&self) -> (r: &[usize])
        ensures
            r@ == self.dims(),
    {
        self.shape.as_slice()
    }

    /// The values in row-major order.
    pub fn data(&self) -> (r: &[u32])
        ensures
            r@ == self.values(),
    {
        self.data.as_slice()
    }

    /// Gives up the tensor and returns its values in row-major order.
    pub fn into_data(self) -> (r: Vec<u32>)
        ensures
            r@ == self.values(),
    {
        self.data
    }
}

/// Prepending a dimension of length 1 keeps the number of elements.
proof fn lemma_leading_one(s: Seq<usize>)
    ensures
        shape_size(seq![1usize] + s) == shape_size(s),
    decreases s.len(),
{
    if s.len() > 0 {
        let t = seq![1usize] + s;
        assert(t.drop_last() == seq![1usize] + s.drop_last());
        assert(t.last() == s.last());
        lemma_leading_one(s.drop_last());
    } else {
        let t = seq![1usize] + s;
        assert(t.drop_last() == Seq::<usize>::empty());
        assert(t.last() == 1usize);
        assert(shape_size(t) == shape_size(t.drop_last()) * 1);
    }
}

/// When no dimension is zero, a prefix of the shape never holds more elements
/// than the whole.
proof fn lemma_prefix_size_le(s: Seq<usize>, i: int)
    requires
        0 <= i <= s.len(),
        forall|j: int| 0 <= j < s.len() ==> s[j] > 0,
    ensures
        shape_size(s.subrange(0, i)) <= shape_size(s),
    decreases s.len() - i,
{
    if i < s.len() {
        lemma_prefix_size_le(s, i + 1);
        let p = s.subrange(0, i + 1);
        assert(p.drop_last() == s.subrange(0, i));
        let a = shape_size(s.subrange(0, i));
        let d = s[i] as nat;
        assert(a <= a * d) by (nonlinear_arith)
            requires
                d >= 1,
        ;
    } else {
        assert(s.subrange(0, i) == s);
    }
}

/// A shape with a zero dimension holds no elements.
proof fn lemma_zero_dim(s: Seq<usize>, k: int)
    requires
        0 <= k < s.len(),
        s[k] == 0,
    ensures
        shape_size(s) == 0,
    decreases s.len(),
{
    if k == s.len() - 1 {
        assert(s.last() == 0);
        assert(shape_size(s) == shape_size(s.drop_last()) * 0);
    } else {
        assert(s.drop_last()[k] == s[k]);
        lemma_zero_dim(s.drop_last(), k);
        assert(shape_size(s) == 0 * (s.last() as nat));
    }
}

/// Whether the product of the dimensions in `shape` equals `len`, computed
/// without overflow.
fn size_matches(shape: &Vec<usize>, len: usize) -> (r: bool)
    ensures
        r == (len == shape_size(shape@)),
{
    let mut k: usize = 0;
    while k < shape.len()
        invariant
            k <= shape@.len(),
            forall|j: int| 0 <= j < k ==> shape@[j] > 0,
        decreases shape@.len() - k,
    {
        if shape[k] == 0 {
            proof {
                lemma_zero_dim(shape@, k as int);
            }
            return len == 0;
        }
        k = k + 1;
    }
    if len == 0 {
        proof {
            lemma_prefix_size_le(shape@, 0);
            assert(shape@.subrange(0, 0) == Seq::<usize>::empty());
        }
        return false;
    }
    let mut acc: usize = 1;
    let mut i: usize = 0;
    proof {
        assert(shape@.subrange(0, 0) == Seq::<usize>::empty());
    }
    while i < shape.len()
        invariant
            i <= shape@.len(),
            forall|j: int| 0 <= j < shape@.len() ==> shape@[j] > 0,
            acc == shape_size(shape@.subrange(0, i as int)),
            acc <= len,
        decreases shape@.len() - i,
    {
        let d = shape[i];
        proof {
            assert(shape@.subrange(0, i + 1).drop_last() == shape@.subrange(0, i as int));
        }
        match acc.checked_mul(d) {
            Some(next) => {
                if next > len {
                    proof {
                        lemma_prefix_size_le(shape@, i + 1);
                    }
                    return false;
                }
                acc = next;
            },
            None => {
                proof {
                    lemma_prefix_size_le(shape@, i + 1);
                }
                return false;
            },
        }
        i = i + 1;
    }
    proof {
        assert(shape@.subrange(0, shape@.len() as int) == shape@);
    }
    acc == len
}

/// A copy of a vector of dimensions.
fn copy_vec_usize(v: &Vec<usize>) -> (r: Vec<usize>)
    ensures
        r@ == v@,
{
    let mut r: Vec<usize> = Vec::new();
    let mut i: usize = 0;
    while i < v.len()
        invariant
            i <= v@.len(),
            r@ == v@.subrange(0, i as int),
        decreases v@.len() - i,
    {
        r.push(v[i]);
        proof {
            assert(v@.subrange(0, i + 1) == v@.subrange(0, i as int).push(v@[i as int]));
        }
        i = i + 1;
    }
    proof {
        assert(v@.subrange(0, v@.len() as int) == v@);
    }
    r
}

/// A copy of a vector of values.
pub(crate) fn copy_vec_u32(v: &[u32]) -> (r: Vec<u32>)
    ensures
        r@ == v@,
{
    let mut r: Vec<u32> = Vec::new();
    let mut i: usize = 0;
    while i < v.len()
        invariant
            i <= v@.len(),
            r@ == v@.subrange(0, i as int),
        decreases v@.len() - i,
    {
        r.push(v[i]);
        proof {
            assert(v@.subrange(0, i + 1) == v@.subrange(0, i as int).push(v@[i as int]));
        }
        i = i + 1;
    }
    proof {
        assert(v@.subrange(0, v@.len() as int) == v@);
    }
    r
}

} // verus!
