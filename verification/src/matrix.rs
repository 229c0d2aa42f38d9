//! 4x4 transform matrices with exact integer entries.
//!
//! Entries are stored in column-major order: the entry at `(row, col)` is
//! element `col * 4 + row` of the array.  Products are exact; a product is
//! only formed when every intermediate sum fits in an `i64`.

use vstd::prelude::*;
use vstd::std_specs::ops::MulSpecImpl;
use vstd::std_specs::convert::FromSpecImpl;

verus! {

/// Whether an integer fits in an `i64`.
pub open spec fn fits_i64(v: int) -> bool {
    i64::MIN <= v <= i64::MAX
}

/// Index of the entry at `(row, col)` in column-major order.
pub open spec fn cell(row: int, col: int) -> int {
    col * 4 + row
}

/// The product `a(row, k) * b(k, col)`.
pub open spec fn term(a: Seq<int>, b: Seq<int>, row: int, col: int, k: int) -> int {
    a[cell(row, k)] * b[cell(k, col)]
}

/// The entry at `(row, col)` of the product of `a` and `b`.
pub open spec fn entry(a: Seq<int>, b: Seq<int>, row: int, col: int) -> int {
    term(a, b, row, col, 0) + term(a, b, row, col, 1) + term(a, b, row, col, 2) + term(
        a,
        b,
        row,
        col,
        3,
    )
}

/// Whether every product and running sum of entry `(row, col)` of `a * b`
/// fits in an `i64`.
pub open spec fn entry_fits(a: Seq<int>, b: Seq<int>, row: int, col: int) -> bool {
    &&& fits_i64(term(a, b, row, col, 0))
    &&& fits_i64(term(a, b, row, col, 1))
    &&& fits_i64(term(a, b, row, col, 2))
    &&& fits_i64(term(a, b, row, col, 3))
    &&& fits_i64(term(a, b, row, col, 0) + term(a, b, row, col, 1))
    &&& fits_i64(term(a, b, row, col, 0) + term(a, b, row, col, 1) + term(a, b, row, col, 2))
    &&& fits_i64(entry(a, b, row, col))
}

/// Whether the product `a * b` can be formed without overflow.
pub open spec fn product_fits(a: Seq<int>, b: Seq<int>) -> bool {
    forall|row: int, col: int| 0 <= row < 4 && 0 <= col < 4 ==> #[trigger] entry_fits(a, b, row, col)
}

/// The matrix product `a * b`, in column-major order.
pub open spec fn mat_mul(a: Seq<int>, b: Seq<int>) -> Seq<int> {
    Seq::new(16, |i: int| entry(a, b, i % 4, i / 4))
}

/// The matrix that scales by `x` and `y` and then translates by `tx` and
/// `ty` (the general form of the constructors below).
pub open spec fn affine(x: int, y: int, tx: int, ty: int) -> Seq<int> {
    seq![x, 0, 0, 0, 0, y, 0, 0, 0, 0, 1, 0, tx, ty, 0, 1]
}

/// The identity matrix.
pub open spec fn identity_entries() -> Seq<int> {
    affine(1, 1, 0, 0)
}

/// Row `row` of matrix `m` applied to vector `v`.
pub open spec fn row_dot(m: Seq<int>, v: (int, int, int, int), row: int) -> int {
    m[cell(row, 0)] * v.0 + m[cell(row, 1)] * v.1 + m[cell(row, 2)] * v.2 + m[cell(row, 3)] * v.3
}

/// Whether every product and running sum of row `row` of `m * v` fits in
/// an `i64`.
pub open spec fn row_fits(m: Seq<int>, v: (int, int, int, int), row: int) -> bool {
    &&& fits_i64(m[cell(row, 0)] * v.0)
    &&& fits_i64(m[cell(row, 1)] * v.1)
    &&& fits_i64(m[cell(row, 2)] * v.2)
    &&& fits_i64(m[cell(row, 3)] * v.3)
    &&& fits_i64(m[cell(row, 0)] * v.0 + m[cell(row, 1)] * v.1)
    &&& fits_i64(m[cell(row, 0)] * v.0 + m[cell(row, 1)] * v.1 + m[cell(row, 2)] * v.2)
    &&& fits_i64(row_dot(m, v, row))
}

/// The entries of the identity matrix: one on the diagonal, zero elsewhere.
proof fn lemma_identity_cell(row: int, col: int)
    requires
        0 <= row < 4,
        0 <= col < 4,
    ensures
        identity_entries()[cell(row, col)] == (if row == col { 1int } else { 0int }),
{
    let id = identity_entries();
    assert(id[0] == 1 && id[1] == 0 && id[2] == 0 && id[3] == 0);
    assert(id[4] == 0 && id[5] == 1 && id[6] == 0 && id[7] == 0);
    assert(id[8] == 0 && id[9] == 0 && id[10] == 1 && id[11] == 0);
    assert(id[12] == 0 && id[13] == 0 && id[14] == 0 && id[15] == 1);
}

proof fn lemma_identity_entry(m: Seq<int>, row: int, col: int)
    requires
        m.len() == 16,
        0 <= row < 4,
        0 <= col < 4,
        fits_i64(m[cell(row, col)]),
    ensures
        entry_fits(identity_entries(), m, row, col),
        entry_fits(m, identity_entries(), row, col),
        entry(identity_entries(), m, row, col) == m[cell(row, col)],
        entry(m, identity_entries(), row, col) == m[cell(row, col)],
{
    let id = identity_entries();
    lemma_identity_cell(row, 0);
    lemma_identity_cell(row, 1);
    lemma_identity_cell(row, 2);
    lemma_identity_cell(row, 3);
    lemma_identity_cell(0, col);
    lemma_identity_cell(1, col);
    lemma_identity_cell(2, col);
    lemma_identity_cell(3, col);
    assert forall|k: int| 0 <= k < 4 implies term(id, m, row, col, k) == (if k == row { m[cell(k, col)] } else { 0 }) by {
        if k == row {
            assert(id[cell(row, k)] == 1);
        } else {
            assert(id[cell(row, k)] == 0);
        }
    }
    assert forall|k: int| 0 <= k < 4 implies term(m, id, row, col, k) == (if k == col { m[cell(row, k)] } else { 0 }) by {
        if k == col {
            assert(id[cell(k, col)] == 1);
        } else {
            assert(id[cell(k, col)] == 0);
        }
    }
    assert(term(id, m, row, col, 0) == (if 0 == row { m[cell(0, col)] } else { 0 }));
    assert(term(id, m, row, col, 1) == (if 1 == row { m[cell(1, col)] } else { 0 }));
    assert(term(id, m, row, col, 2) == (if 2 == row { m[cell(2, col)] } else { 0 }));
    assert(term(id, m, row, col, 3) == (if 3 == row { m[cell(3, col)] } else { 0 }));
    assert(term(m, id, row, col, 0) == (if 0 == col { m[cell(row, 0)] } else { 0 }));
    assert(term(m, id, row, col, 1) == (if 1 == col { m[cell(row, 1)] } else { 0 }));
    assert(term(m, id, row, col, 2) == (if 2 == col { m[cell(row, 2)] } else { 0 }));
    assert(term(m, id, row, col, 3) == (if 3 == col { m[cell(row, 3)] } else { 0 }));
}

/// The identity matrix is neutral on both sides of a product, and such
/// products never overflow.
pub proof fn lemma_identity_neutral(m: Seq<int>)
    requires
        m.len() == 16,
        forall|i: int| 0 <= i < 16 ==> #[trigger] fits_i64(m[i]),
    ensures
        product_fits(identity_entries(), m),
        product_fits(m, identity_entries()),
        mat_mul(identity_entries(), m) == m,
        mat_mul(m, identity_entries()) == m,
{
    let id = identity_entries();
    assert forall|row: int, col: int| 0 <= row < 4 && 0 <= col < 4 implies #[trigger] entry_fits(id, m, row, col) by {
        assert(fits_i64(m[cell(row, col)]));
        lemma_identity_entry(m, row, col);
    }
    assert forall|row: int, col: int| 0 <= row < 4 && 0 <= col < 4 implies #[trigger] entry_fits(m, id, row, col) by {
        assert(fits_i64(m[cell(row, col)]));
        lemma_identity_entry(m, row, col);
    }
    assert forall|i: int| 0 <= i < 16 implies #[trigger] mat_mul(id, m)[i] == m[i] by {
        assert(cell(i % 4, i / 4) == i);
        assert(fits_i64(m[i]));
        lemma_identity_entry(m, i % 4, i / 4);
    }
    assert forall|i: int| 0 <= i < 16 implies #[trigger] mat_mul(m, id)[i] == m[i] by {
        assert(cell(i % 4, i / 4) == i);
        assert(fits_i64(m[i]));
        lemma_identity_entry(m, i % 4, i / 4);
    }
    assert(mat_mul(id, m) =~= m);
    assert(mat_mul(m, id) =~= m);
}

/// Composing two scale-then-translate matrices gives the matrix that
/// scales by the product of the scales and translates by the first
/// translation plus the first scale applied to the second translation.
pub proof fn lemma_affine_compose(x1: int, y1: int, tx1: int, ty1: int, x2: int, y2: int, tx2: int, ty2: int)
    ensures
        mat_mul(affine(x1, y1, tx1, ty1), affine(x2, y2, tx2, ty2)) == affine(
            x1 * x2,
            y1 * y2,
            x1 * tx2 + tx1,
            y1 * ty2 + ty1,
        ),
{
    let a = affine(x1, y1, tx1, ty1);
    let b = affine(x2, y2, tx2, ty2);
    let c = affine(x1 * x2, y1 * y2, x1 * tx2 + tx1, y1 * ty2 + ty1);
    assert forall|i: int| 0 <= i < 16 implies mat_mul(a, b)[i] == c[i] by {
        let row = i % 4;
        let col = i / 4;
        assert(0 <= row < 4 && 0 <= col < 4);
        assert(i == cell(row, col));
        assert(entry(a, b, row, col) == c[cell(row, col)]) by (nonlinear_arith)
            requires
                0 <= row < 4,
                0 <= col < 4,
                a == affine(x1, y1, tx1, ty1),
                b == affine(x2, y2, tx2, ty2),
                c == affine(x1 * x2, y1 * y2, x1 * tx2 + tx1, y1 * ty2 + ty1),
        ;
    }
    assert(mat_mul(a, b) =~= c);
}

proof fn lemma_entry_assoc(a: Seq<int>, b: Seq<int>, c: Seq<int>, row: int, col: int)
    requires
        a.len() == 16,
        b.len() == 16,
        c.len() == 16,
        0 <= row < 4,
        0 <= col < 4,
    ensures
        entry(mat_mul(a, b), c, row, col) == entry(a, mat_mul(b, c), row, col),
{
    let ab = mat_mul(a, b);
    let bc = mat_mul(b, c);
    assert forall|k: int| 0 <= k < 4 implies #[trigger] ab[cell(row, k)] == entry(a, b, row, k) by {
        assert(cell(row, k) % 4 == row && cell(row, k) / 4 == k);
    }
    assert forall|k: int| 0 <= k < 4 implies #[trigger] bc[cell(k, col)] == entry(b, c, k, col) by {
        assert(cell(k, col) % 4 == k && cell(k, col) / 4 == col);
    }
    let av = Seq::new(4, |j: int| a[cell(row, j)]);
    let cv = Seq::new(4, |k: int| c[cell(k, col)]);
    let bm = |j: int, k: int| b[cell(j, k)];
    // (sum over j of a_j * b_jk) * c_k, term by term
    assert forall|k: int| 0 <= k < 4 implies #[trigger] (entry(a, b, row, k) * cv[k]) == av[0] * (bm(0, k) * cv[k]) + av[1] * (bm(1, k) * cv[k]) + av[2] * (bm(2, k) * cv[k]) + av[3] * (bm(3, k) * cv[k]) by {
        lemma_sum4_mul(av[0] * bm(0, k), av[1] * bm(1, k), av[2] * bm(2, k), av[3] * bm(3, k), cv[k]);
        lemma_mul_assoc3(av[0], bm(0, k), cv[k]);
        lemma_mul_assoc3(av[1], bm(1, k), cv[k]);
        lemma_mul_assoc3(av[2], bm(2, k), cv[k]);
        lemma_mul_assoc3(av[3], bm(3, k), cv[k]);
    }
    // a_j * (sum over k of b_jk * c_k), term by term
    assert forall|j: int| 0 <= j < 4 implies #[trigger] (av[j] * entry(b, c, j, col)) == av[j] * (bm(j, 0) * cv[0]) + av[j] * (bm(j, 1) * cv[1]) + av[j] * (bm(j, 2) * cv[2]) + av[j] * (bm(j, 3) * cv[3]) by {
        lemma_mul_sum4(av[j], bm(j, 0) * cv[0], bm(j, 1) * cv[1], bm(j, 2) * cv[2], bm(j, 3) * cv[3]);
    }
    assert(entry(mat_mul(a, b), c, row, col) == entry(a, b, row, 0) * cv[0] + entry(a, b, row, 1) * cv[1] + entry(a, b, row, 2) * cv[2] + entry(a, b, row, 3) * cv[3]);
    assert(entry(a, mat_mul(b, c), row, col) == av[0] * entry(b, c, 0, col) + av[1] * entry(b, c, 1, col) + av[2] * entry(b, c, 2, col) + av[3] * entry(b, c, 3, col));
    assert(entry(a, b, row, 0) * cv[0] == av[0] * (bm(0, 0) * cv[0]) + av[1] * (bm(1, 0) * cv[0]) + av[2] * (bm(2, 0) * cv[0]) + av[3] * (bm(3, 0) * cv[0]));
    assert(entry(a, b, row, 1) * cv[1] == av[0] * (bm(0, 1) * cv[1]) + av[1] * (bm(1, 1) * cv[1]) + av[2] * (bm(2, 1) * cv[1]) + av[3] * (bm(3, 1) * cv[1]));
    assert(entry(a, b, row, 2) * cv[2] == av[0] * (bm(0, 2) * cv[2]) + av[1] * (bm(1, 2) * cv[2]) + av[2] * (bm(2, 2) * cv[2]) + av[3] * (bm(3, 2) * cv[2]));
    assert(entry(a, b, row, 3) * cv[3] == av[0] * (bm(0, 3) * cv[3]) + av[1] * (bm(1, 3) * cv[3]) + av[2] * (bm(2, 3) * cv[3]) + av[3] * (bm(3, 3) * cv[3]));
    assert(av[0] * entry(b, c, 0, col) == av[0] * (bm(0, 0) * cv[0]) + av[0] * (bm(0, 1) * cv[1]) + av[0] * (bm(0, 2) * cv[2]) + av[0] * (bm(0, 3) * cv[3]));
    assert(av[1] * entry(b, c, 1, col) == av[1] * (bm(1, 0) * cv[0]) + av[1] * (bm(1, 1) * cv[1]) + av[1] * (bm(1, 2) * cv[2]) + av[1] * (bm(1, 3) * cv[3]));
    assert(av[2] * entry(b, c, 2, col) == av[2] * (bm(2, 0) * cv[0]) + av[2] * (bm(2, 1) * cv[1]) + av[2] * (bm(2, 2) * cv[2]) + av[2] * (bm(2, 3) * cv[3]));
    assert(av[3] * entry(b, c, 3, col) == av[3] * (bm(3, 0) * cv[0]) + av[3] * (bm(3, 1) * cv[1]) + av[3] * (bm(3, 2) * cv[2]) + av[3] * (bm(3, 3) * cv[3]));
}

proof fn lemma_sum4_mul(x0: int, x1: int, x2: int, x3: int, y: int)
    ensures
        (x0 + x1 + x2 + x3) * y == x0 * y + x1 * y + x2 * y + x3 * y,
{
    assert((x0 + x1 + x2 + x3) * y == x0 * y + x1 * y + x2 * y + x3 * y) by (nonlinear_arith);
}

proof fn lemma_mul_sum4(x: int, y0: int, y1: int, y2: int, y3: int)
    ensures
        x * (y0 + y1 + y2 + y3) == x * y0 + x * y1 + x * y2 + x * y3,
{
    assert(x * (y0 + y1 + y2 + y3) == x * y0 + x * y1 + x * y2 + x * y3) by (nonlinear_arith);
}

proof fn lemma_mul_assoc3(x: int, y: int, z: int)
    ensures
        (x * y) * z == x * (y * z),
{
    assert((x * y) * z == x * (y * z)) by (nonlinear_arith);
}

/// Matrix products are associative: transforms can be composed in either
/// grouping.
pub proof fn lemma_mat_mul_assoc(a: Seq<int>, b: Seq<int>, c: Seq<int>)
    requires
        a.len() == 16,
        b.len() == 16,
        c.len() == 16,
    ensures
        mat_mul(mat_mul(a, b), c) == mat_mul(a, mat_mul(b, c)),
{
    assert forall|i: int| 0 <= i < 16 implies mat_mul(mat_mul(a, b), c)[i] == mat_mul(a, mat_mul(b, c))[i] by {
        lemma_entry_assoc(a, b, c, i % 4, i / 4);
    }
    assert(mat_mul(mat_mul(a, b), c) =~= mat_mul(a, mat_mul(b, c)));
}

/// Translations compose by adding their offsets.
pub proof fn lemma_translate_compose(x1: int, y1: int, x2: int, y2: int)
    ensures
        mat_mul(affine(1, 1, x1, y1), affine(1, 1, x2, y2)) == affine(1, 1, x1 + x2, y1 + y2),
{
    lemma_affine_compose(1, 1, x1, y1, 1, 1, x2, y2);
}

/// Scales compose by multiplying their factors.
pub proof fn lemma_scale_compose(x1: int, y1: int, x2: int, y2: int)
    ensures
        mat_mul(affine(x1, y1, 0, 0), affine(x2, y2, 0, 0)) == affine(x1 * x2, y1 * y2, 0, 0),
{
    lemma_affine_compose(x1, y1, 0, 0, x2, y2, 0, 0);
}

/// A column vector of four entries.
pub type Vec4 = (i64, i64, i64, i64);

/// The entries of a vector as integers.
pub open spec fn vec_view(v: Vec4) -> (int, int, int, int) {
    (v.0 as int, v.1 as int, v.2 as int, v.3 as int)
}

/// A 4x4 matrix of integers in column-major order.
#[derive(Clone, Copy, Debug, PartialEq, Eq)]
pub struct Mat4 {
    data: [i64; 16],
}

impl View for Mat4 {
    type V = Seq<int>;

    closed spec fn view(&self) -> Seq<int> {
        self.data@.map_values(|x: i64| x as int)
    }
}

impl Mat4 {
    /// Every matrix has sixteen entries, each within `i64`.
    pub proof fn lemma_view(self)
        ensures
            self@.len() == 16,
            forall|i: int| 0 <= i < 16 ==> #[trigger] fits_i64(self@[i]),
    {
    }

    /// Two matrices with the same entries are the same matrix.
    pub proof fn lemma_view_injective(self, other: Mat4)
        requires
            self@ == other@,
        ensures
            self == other,
    {
        assert(self.data@ =~= other.data@) by {
            assert(self.data@.len() == 16 && other.data@.len() == 16);
            assert forall|i: int| 0 <= i < 16 implies self.data@[i] == other.data@[i] by {
                assert(self@[i] == self.data@[i] as int);
                assert(other@[i] == other.data@[i] as int);
                assert(self@[i] == other@[i]);
            }
        }
        broadcast use vstd::array::axiom_array_ext_equal;
        assert(self.data =~= other.data);
    }

    fn from_entries(data: [i64; 16]) -> (r: Self)
        ensures
            r@ == data@.map_values(|x: i64| x as int),
    {
        Self { data }
    }

    /// The identity matrix.
    pub fn identity() -> (r: Self)
        ensures
            r@ == identity_entries(),
    {
        let r = Self::from_entries([1, 0, 0, 0, 0, 1, 0, 0, 0, 0, 1, 0, 0, 0, 0, 1]);
        assert(r@ =~= identity_entries());
        r
    }

    /// The matrix that translates by `x` and `y`.
    pub fn translate(x: i64, y: i64) -> (r: Self)
        ensures
            r@ == affine(1, 1, x as int, y as int),
    {
        let r = Self::from_entries([1, 0, 0, 0, 0, 1, 0, 0, 0, 0, 1, 0, x, y, 0, 1]);
        assert(r@ =~= affine(1, 1, x as int, y as int));
        r
    }

    /// The matrix that scales by `x` and `y`.
    pub fn scale(x: i64, y: i64) -> (r: Self)
        ensures
            r@ == affine(x as int, y as int, 0, 0),
    {
        let r = Self::from_entries([x, 0, 0, 0, 0, y, 0, 0, 0, 0, 1, 0, 0, 0, 0, 1]);
        assert(r@ =~= affine(x as int, y as int, 0, 0));
        r
    }

    /// The entries in column-major order.
    pub fn as_array(&self) -> (r: &[i64; 16])
        ensures
            r@.map_values(|x: i64| x as int) == self@,
    {
        &self.data
    }

    /// The entry at `(row, col)`.
    pub fn at(&self, row: usize, col: usize) -> (r: i64)
        requires
            row < 4,
            col < 4,
        ensures
            r == self@[cell(row as int, col as int)],
    {
        self.data[col * 4 + row]
    }

    fn product_entry(&self, rhs: &Mat4, row: usize, col: usize) -> (r: i64)
        requires
            row < 4,
            col < 4,
            entry_fits(self@, rhs@, row as int, col as int),
        ensures
            r == entry(self@, rhs@, row as int, col as int),
    {
        let p0 = self.data[row] * rhs.data[col * 4];
        let p1 = self.data[4 + row] * rhs.data[col * 4 + 1];
        let p2 = self.data[8 + row] * rhs.data[col * 4 + 2];
        let p3 = self.data[12 + row] * rhs.data[col * 4 + 3];
        p0 + p1 + p2 + p3
    }

    /// The matrix product `self * rhs`.
    pub fn product(&self, rhs: &Mat4) -> (r: Mat4)
        requires
            product_fits(self@, rhs@),
        ensures
            r@ == mat_mul(self@, rhs@),
    {
        let r = Self::from_entries(
            [
                self.product_entry(rhs, 0, 0),
                self.product_entry(rhs, 1, 0),
                self.product_entry(rhs, 2, 0),
                self.product_entry(rhs, 3, 0),
                self.product_entry(rhs, 0, 1),
                self.product_entry(rhs, 1, 1),
                self.product_entry(rhs, 2, 1),
                self.product_entry(rhs, 3, 1),
                self.product_entry(rhs, 0, 2),
                self.product_entry(rhs, 1, 2),
                self.product_entry(rhs, 2, 2),
                self.product_entry(rhs, 3, 2),
                self.product_entry(rhs, 0, 3),
                self.product_entry(rhs, 1, 3),
                self.product_entry(rhs, 2, 3),
                self.product_entry(rhs, 3, 3),
            ],
        );
        assert(r@ =~= mat_mul(self@, rhs@));
        r
    }

    fn row_product(&self, v: &Vec4, row: usize) -> (r: i64)
        requires
            row < 4,
            row_fits(self@, vec_view(*v), row as int),
        ensures
            r == row_dot(self@, vec_view(*v), row as int),
    {
        let p0 = self.data[row] * v.0;
        let p1 = self.data[4 + row] * v.1;
        let p2 = self.data[8 + row] * v.2;
        let p3 = self.data[12 + row] * v.3;
        p0 + p1 + p2 + p3
    }

    /// The vector `self * v`.
    pub fn transform_vec(&self, v: &Vec4) -> (r: Vec4)
        requires
            forall|row: int| 0 <= row < 4 ==> #[trigger] row_fits(self@, vec_view(*v), row),
        ensures
            vec_view(r) == (
                row_dot(self@, vec_view(*v), 0),
                row_dot(self@, vec_view(*v), 1),
                row_dot(self@, vec_view(*v), 2),
                row_dot(self@, vec_view(*v), 3),
            ),
    {
        (self.row_product(v, 0), self.row_product(v, 1), self.row_product(v, 2), self.row_product(v, 3))
    }

    /// Replace `self` with `self * rhs`.
    pub fn mul_assign(&mut self, rhs: &Mat4)
        requires
            product_fits(old(self)@, rhs@),
        ensures
            final(self)@ == mat_mul(old(self)@, rhs@),
    {
        let r = self.product(rhs);
        *self = r;
    }
}

impl core::ops::Mul for Mat4 {
    type Output = Mat4;

    fn mul(self, rhs: Mat4) -> (r: Mat4)
        ensures
            r@ == mat_mul(self@, rhs@),
    {
        let r = self.product(&rhs);
        proof {
            let c = choose|m: Mat4| m@ == mat_mul(self@, rhs@);
            assert(c@ == mat_mul(self@, rhs@));
            c.lemma_view_injective(r);
        }
        r
    }
}

impl MulSpecImpl for Mat4 {
    open spec fn obeys_mul_spec() -> bool {
        true
    }

    open spec fn mul_req(self, rhs: Mat4) -> bool {
        product_fits(self@, rhs@)
    }

    open spec fn mul_spec(self, rhs: Mat4) -> Mat4 {
        choose|m: Mat4| m@ == mat_mul(self@, rhs@)
    }
}

impl core::ops::Mul<Vec4> for Mat4 {
    type Output = Vec4;

    fn mul(self, rhs: Vec4) -> (r: Vec4)
        ensures
            vec_view(r) == (
                row_dot(self@, vec_view(rhs), 0),
                row_dot(self@, vec_view(rhs), 1),
                row_dot(self@, vec_view(rhs), 2),
                row_dot(self@, vec_view(rhs), 3),
            ),
    {
        self.transform_vec(&rhs)
    }
}

impl MulSpecImpl<Vec4> for Mat4 {
    open spec fn obeys_mul_spec() -> bool {
        true
    }

    open spec fn mul_req(self, rhs: Vec4) -> bool {
        forall|row: int| 0 <= row < 4 ==> #[trigger] row_fits(self@, vec_view(rhs), row)
    }

    open spec fn mul_spec(self, rhs: Vec4) -> Vec4 {
        (
            row_dot(self@, vec_view(rhs), 0) as i64,
            row_dot(self@, vec_view(rhs), 1) as i64,
            row_dot(self@, vec_view(rhs), 2) as i64,
            row_dot(self@, vec_view(rhs), 3) as i64,
        )
    }
}

impl Default for Mat4 {
    fn default() -> (r: Self)
        ensures
            r@ == identity_entries(),
    {
        Self::identity()
    }
}

impl From<[i64; 16]> for Mat4 {
    fn from(data: [i64; 16]) -> (r: Self)
        ensures
            r@ == data@.map_values(|x: i64| x as int),
    {
        let r = Self::from_entries(data);
        proof {
            let c = choose|m: Mat4| m@ == data@.map_values(|x: i64| x as int);
            assert(c@ == data@.map_values(|x: i64| x as int));
            c.lemma_view_injective(r);
        }
        r
    }
}

impl FromSpecImpl<[i64; 16]> for Mat4 {
    open spec fn obeys_from_spec() -> bool {
        true
    }

    open spec fn from_spec(data: [i64; 16]) -> Mat4 {
        choose|m: Mat4| m@ == data@.map_values(|x: i64| x as int)
    }
}

} // verus!
