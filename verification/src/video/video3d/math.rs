//! Vectors and matrices of the geometry engine: 20.12 fixed-point values
//! held as their raw bits. Products round down and sums wrap.
use vstd::prelude::*;
use crate::video::video3d::raster::floor_div;

verus! {

/// One in the 20.12 format.
pub const N_ONE: i32 = 0x1000;

/// Product of two 20.12 values, rounded down, wrapping.
pub open spec fn n_mul(a: i32, b: i32) -> i32 {
    ((a * b) / 4096) as i32
}

pub fn mul_n(a: i32, b: i32) -> (r: i32)
    ensures
        r == n_mul(a, b),
{
    proof {
        assert(-0x4000_0000_0000_0000 <= a * b <= 0x4000_0000_0000_0000) by (nonlinear_arith)
            requires
                -0x8000_0000 <= a < 0x8000_0000,
                -0x8000_0000 <= b < 0x8000_0000;
    }
    floor_div((a as i64) * (b as i64), 4096) as i32
}

/// The wrapping sum of the first `k` products of the run of `o` from `oi`
/// with column `col` of the 4x4 matrix `c`, from the first.
pub open spec fn dot_col(o: Seq<i32>, oi: int, c: Seq<i32>, col: int, k: int) -> i32
    decreases k,
{
    if k <= 0 {
        0
    } else {
        dot_col(o, oi, c, col, k - 1).wrapping_add(n_mul(o[oi + k - 1], c[(k - 1) * 4 + col]))
    }
}

fn dot_col_exec(o: &[i32], oi: usize, c: &[i32; 16], col: usize, k: usize) -> (r: i32)
    requires
        oi + k <= o.len(),
        k <= 4,
        col < 4,
    ensures
        r == dot_col(o@, oi as int, c@, col as int, k as int),
{
    let mut acc: i32 = 0;
    let mut t: usize = 0;
    while t < k
        invariant
            oi + k <= o.len(),
            k <= 4,
            col < 4,
            t <= k,
            acc == dot_col(o@, oi as int, c@, col as int, t as int),
        decreases k - t,
    {
        acc = acc.wrapping_add(mul_n(o[oi + t], c[t * 4 + col]));
        t = t + 1;
    }
    acc
}

/// A vector of `S` 20.12 values.
#[derive(Clone, Copy)]
pub struct Vector<const S: usize> {
    pub elements: [i32; S],
}

/// The wrapping sum of the products of the first `k` elements.
pub open spec fn dot(a: Seq<i32>, b: Seq<i32>, k: int) -> i32
    decreases k,
{
    if k <= 0 {
        0
    } else {
        dot(a, b, k - 1).wrapping_add(n_mul(a[k - 1], b[k - 1]))
    }
}

impl<const S: usize> Vector<S> {
    pub fn new(from_elements: [i32; S]) -> (r: Self)
        ensures
            r.elements == from_elements,
    {
        Vector { elements: from_elements }
    }

    pub fn x(&self) -> (r: i32)
        requires
            S >= 1,
        ensures
            r == self.elements@[0],
    {
        self.elements[0]
    }

    pub fn y(&self) -> (r: i32)
        requires
            S >= 2,
        ensures
            r == self.elements@[1],
    {
        self.elements[1]
    }

    pub fn z(&self) -> (r: i32)
        requires
            S >= 3,
        ensures
            r == self.elements@[2],
    {
        self.elements[2]
    }

    pub fn w(&self) -> (r: i32)
        requires
            S >= 4,
        ensures
            r == self.elements@[3],
    {
        self.elements[3]
    }

    /// The dot product: the wrapping sum of the element products.
    pub fn dot_product(&self, other: &Self) -> (r: i32)
        ensures
            r == dot(self.elements@, other.elements@, S as int),
    {
        let mut acc: i32 = 0;
        let mut k: usize = 0;
        while k < S
            invariant
                k <= S,
                self.elements@.len() == S,
                other.elements@.len() == S,
                acc == dot(self.elements@, other.elements@, k as int),
            decreases S - k,
        {
            acc = acc.wrapping_add(mul_n(self.elements[k], other.elements[k]));
            k = k + 1;
        }
        acc
    }
}

/// A 4x4 matrix of 20.12 values, row by row.
#[derive(Clone, Copy)]
pub struct Matrix {
    pub elements: [i32; 16],
}

/// The product `o c` where `o` has `rows` rows of `k` elements (the
/// first `k` columns of each row of `c` taking part): row `j`, column `i`.
pub open spec fn product_entry(o: Seq<i32>, c: Seq<i32>, k: int, j: int, i: int) -> i32 {
    dot_col(o, j * k, c, i, k)
}

/// The matrix `c` after `mul_4x3` by `o`: the upper 3x4 block from `o`'s
/// 3x3 part, and the translation row added to `c`'s.
pub open spec fn after_4x3(o: Seq<i32>, c: Seq<i32>, idx: int) -> i32 {
    let j = idx / 4;
    let i = idx % 4;
    if j < 3 {
        product_entry(o, c, 3, j, i)
    } else {
        product_entry(o, c, 3, 3, i).wrapping_add(c[12 + i])
    }
}

/// The product `a b` of two 4x4 matrices.
pub open spec fn mat_product(a: Seq<i32>, b: Seq<i32>) -> Seq<i32> {
    Seq::new(16, |k: int| product_entry(a, b, 4, k / 4, k % 4))
}

/// `c` multiplied from the left by the 4x3 matrix `o`.
pub open spec fn mat_after_4x3(o: Seq<i32>, c: Seq<i32>) -> Seq<i32> {
    Seq::new(16, |k: int| after_4x3(o, c, k))
}

/// `c` with its upper 3x4 block multiplied from the left by the 3x3
/// matrix `o`.
pub open spec fn mat_after_3x3(o: Seq<i32>, c: Seq<i32>) -> Seq<i32> {
    Seq::new(16, |k: int| if k < 12 { product_entry(o, c, 3, k / 4, k % 4) } else { c[k] })
}

/// `c` translated by `o`.
pub open spec fn mat_after_trans(o: Seq<i32>, c: Seq<i32>) -> Seq<i32> {
    Seq::new(16, |k: int| if k < 12 { c[k] } else { c[k].wrapping_add(dot_col(o, 0, c, k - 12, 3)) })
}

/// `c` with its first three rows scaled by `o`.
pub open spec fn mat_after_scale(o: Seq<i32>, c: Seq<i32>) -> Seq<i32> {
    Seq::new(16, |k: int| if k < 12 { n_mul(c[k], o[k / 4]) } else { c[k] })
}

/// The 4x4 matrix the first 16 values of `v` give.
pub open spec fn mat_from_4x4(v: Seq<i32>) -> Seq<i32> {
    v.subrange(0, 16)
}

/// The 4x4 matrix a 4x3 one gives, its last column (0, 0, 0, 1).
pub open spec fn mat_from_4x3(v: Seq<i32>) -> Seq<i32> {
    Seq::new(16, |k: int| if k % 4 < 3 { v[(k / 4) * 3 + k % 4] } else if k == 15 { N_ONE } else { 0 })
}

pub open spec fn mat_identity() -> Seq<i32> {
    Seq::new(16, |k: int| if k % 5 == 0 { N_ONE } else { 0 })
}

impl Matrix {
    pub open spec fn view(&self) -> Seq<i32> {
        self.elements@
    }

    pub fn identity() -> (r: Self)
        ensures
            forall|k: int| 0 <= k < 16 ==> #[trigger] r.elements@[k] == if k % 5 == 0 { N_ONE } else { 0 },
            r@ == mat_identity(),
    {
        let r = Matrix { elements: [N_ONE, 0, 0, 0, 0, N_ONE, 0, 0, 0, 0, N_ONE, 0, 0, 0, 0, N_ONE] };
        assert(r@ =~= mat_identity());
        r
    }

    pub fn from_4x4(elements: &[i32]) -> (r: Self)
        requires
            elements@.len() >= 16,
        ensures
            r.elements@ == elements@.subrange(0, 16),
            r@ == mat_from_4x4(elements@),
    {
        let mut m = [0i32; 16];
        let mut k: usize = 0;
        while k < 16
            invariant
                elements@.len() >= 16,
                k <= 16,
                forall|t: int| 0 <= t < k ==> #[trigger] m@[t] == elements@[t],
            decreases 16 - k,
        {
            m[k] = elements[k];
            k = k + 1;
        }
        let r = Matrix { elements: m };
        assert(r.elements@ =~= elements@.subrange(0, 16));
        r
    }

    /// A 4x3 matrix extended to 4x4 with the last column (0, 0, 0, 1).
    pub fn from_4x3(elements: &[i32]) -> (r: Self)
        requires
            elements@.len() >= 12,
        ensures
            forall|j: int, i: int|
                0 <= j < 4 && 0 <= i < 4 ==> #[trigger] r.elements@[j * 4 + i] == if i < 3 {
                    elements@[j * 3 + i]
                } else if j == 3 {
                    N_ONE
                } else {
                    0
                },
            r@ == mat_from_4x3(elements@),
    {
        let m = [
            elements[0], elements[1], elements[2], 0,
            elements[3], elements[4], elements[5], 0,
            elements[6], elements[7], elements[8], 0,
            elements[9], elements[10], elements[11], N_ONE,
        ];
        let r = Matrix { elements: m };
        assert forall|j: int, i: int| 0 <= j < 4 && 0 <= i < 4 implies #[trigger] r.elements@[j * 4 + i] == if i < 3 {
            elements@[j * 3 + i]
        } else if j == 3 {
            N_ONE
        } else {
            0
        } by {
            assert(0 <= j * 4 + i < 16);
        }
        assert forall|k: int| 0 <= k < 16 implies #[trigger] r@[k] == mat_from_4x3(elements@)[k] by {
            let j = k / 4;
            let i = k % 4;
            assert(k == j * 4 + i);
        }
        assert(r@ =~= mat_from_4x3(elements@));
        r
    }

    /// Multiplies the matrix by `other` from the left: C' = M C.
    pub fn mul_4x4(&mut self, other: &[i32])
        requires
            other@.len() >= 16,
        ensures
            forall|j: int, i: int|
                0 <= j < 4 && 0 <= i < 4 ==> #[trigger] final(self).elements@[j * 4 + i] == product_entry(other@, old(self).elements@, 4, j, i),
            final(self)@ == mat_product(other@, old(self)@),
    {
        let c = self.elements;
        let mut k: usize = 0;
        while k < 16
            invariant
                other@.len() >= 16,
                k <= 16,
                forall|t: int| 0 <= t < k ==> #[trigger] self.elements@[t] == product_entry(other@, c@, 4, t / 4, t % 4),
            decreases 16 - k,
        {
            let v = dot_col_exec(other, (k / 4) * 4, &c, k % 4, 4);
            self.elements[k] = v;
            k = k + 1;
        }
        assert forall|j: int, i: int| 0 <= j < 4 && 0 <= i < 4 implies #[trigger] self.elements@[j * 4 + i] == product_entry(other@, c@, 4, j, i) by {
            let t = j * 4 + i;
            assert(t / 4 == j && t % 4 == i);
        }
        assert(self@ =~= mat_product(other@, c@));
    }

    /// Multiplies the matrix by the 4x3 matrix `other` (last column
    /// (0, 0, 0, 1)) from the left.
    pub fn mul_4x3(&mut self, other: &[i32])
        requires
            other@.len() >= 12,
        ensures
            forall|k: int| 0 <= k < 16 ==> #[trigger] final(self).elements@[k] == after_4x3(other@, old(self).elements@, k),
            final(self)@ == mat_after_4x3(other@, old(self)@),
    {
        let c = self.elements;
        let mut k: usize = 0;
        while k < 16
            invariant
                other@.len() >= 12,
                k <= 16,
                forall|t: int| 0 <= t < k ==> #[trigger] self.elements@[t] == after_4x3(other@, c@, t),
            decreases 16 - k,
        {
            let d = dot_col_exec(other, (k / 4) * 3, &c, k % 4, 3);
            let v = if k < 12 { d } else { d.wrapping_add(c[k]) };
            self.elements[k] = v;
            k = k + 1;
        }
        assert(self@ =~= mat_after_4x3(other@, c@));
    }

    /// Multiplies the upper 3x4 block of the matrix by the 3x3 matrix
    /// `other` from the left; the last row stays.
    pub fn mul_3x3(&mut self, other: &[i32])
        requires
            other@.len() >= 9,
        ensures
            forall|k: int| 0 <= k < 12 ==> #[trigger] final(self).elements@[k] == product_entry(other@, old(self).elements@, 3, k / 4, k % 4),
            forall|k: int| 12 <= k < 16 ==> #[trigger] final(self).elements@[k] == old(self).elements@[k],
            final(self)@ == mat_after_3x3(other@, old(self)@),
    {
        let c = self.elements;
        let mut k: usize = 0;
        while k < 12
            invariant
                other@.len() >= 9,
                k <= 12,
                forall|t: int| 0 <= t < k ==> #[trigger] self.elements@[t] == product_entry(other@, c@, 3, t / 4, t % 4),
                forall|t: int| 12 <= t < 16 ==> #[trigger] self.elements@[t] == c@[t],
            decreases 12 - k,
        {
            let v = dot_col_exec(other, (k / 4) * 3, &c, k % 4, 3);
            self.elements[k] = v;
            k = k + 1;
        }
        assert(self@ =~= mat_after_3x3(other@, c@));
    }

    /// Adds the translation `other` (x, y, z) taken through the matrix to
    /// its last row.
    pub fn mul_trans(&mut self, other: &[i32])
        requires
            other@.len() >= 3,
        ensures
            forall|i: int| 0 <= i < 4 ==> #[trigger] final(self).elements@[12 + i] == old(self).elements@[12 + i].wrapping_add(dot_col(other@, 0, old(self).elements@, i, 3)),
            forall|k: int| 0 <= k < 12 ==> #[trigger] final(self).elements@[k] == old(self).elements@[k],
            final(self)@ == mat_after_trans(other@, old(self)@),
    {
        let c = self.elements;
        let mut i: usize = 0;
        while i < 4
            invariant
                other@.len() >= 3,
                i <= 4,
                forall|t: int| 0 <= t < i ==> #[trigger] self.elements@[12 + t] == c@[12 + t].wrapping_add(dot_col(other@, 0, c@, t, 3)),
                forall|t: int| i <= t < 4 ==> #[trigger] self.elements@[12 + t] == c@[12 + t],
                forall|k: int| 0 <= k < 12 ==> #[trigger] self.elements@[k] == c@[k],
            decreases 4 - i,
        {
            let d = dot_col_exec(other, 0, &c, i, 3);
            self.elements[12 + i] = c[12 + i].wrapping_add(d);
            i = i + 1;
        }
        assert forall|k: int| 12 <= k < 16 implies #[trigger] self@[k] == mat_after_trans(other@, c@)[k] by {
            assert(self.elements@[12 + (k - 12)] == c@[12 + (k - 12)].wrapping_add(dot_col(other@, 0, c@, k - 12, 3)));
        }
        assert(self@ =~= mat_after_trans(other@, c@));
    }

    /// Scales the first three rows by `other`'s (x, y, z).
    pub fn mul_scale(&mut self, other: &[i32])
        requires
            other@.len() >= 3,
        ensures
            forall|k: int| 0 <= k < 12 ==> #[trigger] final(self).elements@[k] == n_mul(old(self).elements@[k], other@[k / 4]),
            forall|k: int| 12 <= k < 16 ==> #[trigger] final(self).elements@[k] == old(self).elements@[k],
            final(self)@ == mat_after_scale(other@, old(self)@),
    {
        let c = self.elements;
        let mut k: usize = 0;
        while k < 12
            invariant
                other@.len() >= 3,
                k <= 12,
                forall|t: int| 0 <= t < k ==> #[trigger] self.elements@[t] == n_mul(c@[t], other@[t / 4]),
                forall|t: int| k <= t < 16 ==> #[trigger] self.elements@[t] == c@[t],
            decreases 12 - k,
        {
            self.elements[k] = mul_n(c[k], other[k / 4]);
            k = k + 1;
        }
        assert(self@ =~= mat_after_scale(other@, c@));
    }

    /// The product of this matrix and `other`.
    pub fn mul(&self, other: &Self) -> (r: Self)
        ensures
            forall|j: int, i: int|
                0 <= j < 4 && 0 <= i < 4 ==> #[trigger] r.elements@[j * 4 + i] == product_entry(self.elements@, other.elements@, 4, j, i),
            r@ == mat_product(self@, other@),
    {
        let mut r = Matrix { elements: other.elements };
        r.mul_4x4(&self.elements);
        r
    }

    /// A 3-dimensional vector through the matrix's upper 3x3 block.
    pub fn mul_vector_3(&self, vector: &Vector<3>) -> (r: Vector<3>)
        ensures
            forall|i: int| 0 <= i < 3 ==> #[trigger] r.elements@[i] == dot_col(vector.elements@, 0, self.elements@, i, 3),
    {
        let a = dot_col_exec(&vector.elements, 0, &self.elements, 0, 3);
        let b = dot_col_exec(&vector.elements, 0, &self.elements, 1, 3);
        let c = dot_col_exec(&vector.elements, 0, &self.elements, 2, 3);
        Vector { elements: [a, b, c] }
    }

    /// A 4-dimensional vector through the matrix.
    pub fn mul_vector_4(&self, vector: &Vector<4>) -> (r: Vector<4>)
        ensures
            forall|i: int| 0 <= i < 4 ==> #[trigger] r.elements@[i] == dot_col(vector.elements@, 0, self.elements@, i, 4),
    {
        let a = dot_col_exec(&vector.elements, 0, &self.elements, 0, 4);
        let b = dot_col_exec(&vector.elements, 0, &self.elements, 1, 4);
        let c = dot_col_exec(&vector.elements, 0, &self.elements, 2, 4);
        let d = dot_col_exec(&vector.elements, 0, &self.elements, 3, 4);
        Vector { elements: [a, b, c, d] }
    }
}

} // verus!
