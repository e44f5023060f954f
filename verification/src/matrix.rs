//! Four-by-four matrices as flat arrays of sixteen entries, entry `4 * i + j`
//! standing in row `i` and column `j`, with the translation in entries 12 to
//! 14. A point is a row, multiplied into the matrix from the left; read
//! column by column, the same array is the transposed matrix, which is the
//! layout that graphics interfaces take.
//!
//! The functions are generic in the entry type and leave the arithmetic to
//! the caller: a product is taken with the two operations handed in, and the
//! contracts say which entries are combined and in which order, whatever the
//! operations compute.

use vstd::prelude::*;

verus! {

/// `r` is an outcome of multiplying row `row` of `a` into column `col` of
/// `b`: the four products are taken in order and summed from left to right.
pub open spec fn is_row_by_column<T, M: Fn(T, T) -> T, A: Fn(T, T) -> T>(
    times: M,
    plus: A,
    a: Seq<T>,
    b: Seq<T>,
    row: int,
    col: int,
    r: T,
) -> bool {
    exists|ab0: T, ab1: T, ab2: T, ab3: T, sum1: T, sum2: T|
        {
            &&& #[trigger] call_ensures(times, (a[4 * row], b[col]), ab0)
            &&& #[trigger] call_ensures(times, (a[4 * row + 1], b[4 + col]), ab1)
            &&& #[trigger] call_ensures(times, (a[4 * row + 2], b[8 + col]), ab2)
            &&& #[trigger] call_ensures(times, (a[4 * row + 3], b[12 + col]), ab3)
            &&& #[trigger] call_ensures(plus, (ab0, ab1), sum1)
            &&& #[trigger] call_ensures(plus, (sum1, ab2), sum2)
            &&& call_ensures(plus, (sum2, ab3), r)
        }
}

/// `r` is an outcome of the product `a` times `b`: each of its sixteen
/// entries is the row of `a` multiplied into the column of `b`.
pub open spec fn is_product<T, M: Fn(T, T) -> T, A: Fn(T, T) -> T>(
    times: M,
    plus: A,
    a: Seq<T>,
    b: Seq<T>,
    r: Seq<T>,
) -> bool {
    &&& r.len() == 16
    &&& forall|k: int|
        0 <= k < 16 ==> is_row_by_column(times, plus, a, b, k / 4, k % 4, #[trigger] r[k])
}

/// The entries of a translation by `(tx, ty, tz)`.
pub open spec fn translation_entries<T>(tx: T, ty: T, tz: T, zero: T, one: T) -> Seq<T> {
    seq![
        one, zero, zero, zero,
        zero, one, zero, zero,
        zero, zero, one, zero,
        tx, ty, tz, one,
    ]
}

/// The entries of a scaling by `(sx, sy, sz)`.
pub open spec fn scaling_entries<T>(sx: T, sy: T, sz: T, zero: T, one: T) -> Seq<T> {
    seq![
        sx, zero, zero, zero,
        zero, sy, zero, zero,
        zero, zero, sz, zero,
        zero, zero, zero, one,
    ]
}

/// The entries of the identity: ones on the diagonal, zeros elsewhere.
pub open spec fn identity_entries<T>(zero: T, one: T) -> Seq<T> {
    Seq::new(
        16,
        |k: int|
            if k / 4 == k % 4 {
                one
            } else {
                zero
            },
    )
}

/// In this arithmetic `zero` and `one` behave as their names say: a product
/// with `one` is the other factor, a product with `zero` is `zero`, and a sum
/// with `zero` is the other term.
pub open spec fn has_zero_and_one<T, M: Fn(T, T) -> T, A: Fn(T, T) -> T>(
    times: M,
    plus: A,
    zero: T,
    one: T,
) -> bool {
    &&& forall|x: T, y: T| #[trigger] call_ensures(times, (one, x), y) ==> y == x
    &&& forall|x: T, y: T| #[trigger] call_ensures(times, (x, one), y) ==> y == x
    &&& forall|x: T, y: T| #[trigger] call_ensures(times, (zero, x), y) ==> y == zero
    &&& forall|x: T, y: T| #[trigger] call_ensures(times, (x, zero), y) ==> y == zero
    &&& forall|x: T, y: T| #[trigger] call_ensures(plus, (zero, x), y) ==> y == x
    &&& forall|x: T, y: T| #[trigger] call_ensures(plus, (x, zero), y) ==> y == x
}

/// The operation has one outcome for each pair of arguments.
pub open spec fn is_function<T, F: Fn(T, T) -> T>(op: F) -> bool {
    forall|x: T, y: T, r1: T, r2: T|
        #[trigger] call_ensures(op, (x, y), r1) && #[trigger] call_ensures(op, (x, y), r2) ==> r1
            == r2
}

/// With operations that have one outcome each, a product has one outcome:
/// it is a function of the two matrices alone.
pub proof fn lemma_product_unique<T, M: Fn(T, T) -> T, A: Fn(T, T) -> T>(
    times: M,
    plus: A,
    a: Seq<T>,
    b: Seq<T>,
    r1: Seq<T>,
    r2: Seq<T>,
)
    requires
        is_function(times),
        is_function(plus),
        is_product(times, plus, a, b, r1),
        is_product(times, plus, a, b, r2),
    ensures
        r1 == r2,
{
    assert forall|k: int| 0 <= k < 16 implies r1[k] == r2[k] by {
        assert(is_row_by_column(times, plus, a, b, k / 4, k % 4, r1[k]));
        assert(is_row_by_column(times, plus, a, b, k / 4, k % 4, r2[k]));
    }
    assert(r1 =~= r2);
}

/// A scaling by one along every axis, and a translation by zero, are the
/// identity.
pub proof fn lemma_unit_scaling_is_identity<T>(zero: T, one: T)
    ensures
        scaling_entries(one, one, one, zero, one) == identity_entries(zero, one),
        translation_entries(zero, zero, zero, zero, one) == identity_entries(zero, one),
{
    assert(scaling_entries(one, one, one, zero, one) =~= identity_entries(zero, one));
    assert(translation_entries(zero, zero, zero, zero, one) =~= identity_entries(zero, one));
}

/// The identity on the left leaves a matrix as it is, in any arithmetic in
/// which `zero` and `one` behave as their names say.
pub proof fn lemma_identity_left<T, M: Fn(T, T) -> T, A: Fn(T, T) -> T>(
    times: M,
    plus: A,
    zero: T,
    one: T,
    m: Seq<T>,
    r: Seq<T>,
)
    requires
        m.len() == 16,
        has_zero_and_one(times, plus, zero, one),
        is_product(times, plus, identity_entries(zero, one), m, r),
    ensures
        r == m,
{
    let id = identity_entries(zero, one);
    assert forall|k: int| 0 <= k < 16 implies r[k] == m[k] by {
        let row = k / 4;
        let col = k % 4;
        assert(is_row_by_column(times, plus, id, m, row, col, r[k]));
        assert(id[4 * row] == if row == 0 { one } else { zero });
        assert(id[4 * row + 1] == if row == 1 { one } else { zero });
        assert(id[4 * row + 2] == if row == 2 { one } else { zero });
        assert(id[4 * row + 3] == if row == 3 { one } else { zero });
    }
    assert(r =~= m);
}

/// The identity on the right leaves a matrix as it is, in any arithmetic in
/// which `zero` and `one` behave as their names say.
pub proof fn lemma_identity_right<T, M: Fn(T, T) -> T, A: Fn(T, T) -> T>(
    times: M,
    plus: A,
    zero: T,
    one: T,
    m: Seq<T>,
    r: Seq<T>,
)
    requires
        m.len() == 16,
        has_zero_and_one(times, plus, zero, one),
        is_product(times, plus, m, identity_entries(zero, one), r),
    ensures
        r == m,
{
    let id = identity_entries(zero, one);
    assert forall|k: int| 0 <= k < 16 implies r[k] == m[k] by {
        let row = k / 4;
        let col = k % 4;
        assert(is_row_by_column(times, plus, m, id, row, col, r[k]));
        assert(id[col] == if col == 0 { one } else { zero });
        assert(id[4 + col] == if col == 1 { one } else { zero });
        assert(id[8 + col] == if col == 2 { one } else { zero });
        assert(id[12 + col] == if col == 3 { one } else { zero });
    }
    assert(r =~= m);
}

/// Builds the matrix of a translation: ones on the diagonal, the translation
/// in entries 12 to 14, zeros elsewhere.
pub fn translation_matrix<T: Copy>(tx: T, ty: T, tz: T, zero: T, one: T) -> (mat: [T; 16])
    ensures
        mat@ == translation_entries(tx, ty, tz, zero, one),
{
    let mat = [
        one, zero, zero, zero,
        zero, one, zero, zero,
        zero, zero, one, zero,
        tx, ty, tz, one,
    ];
    assert(mat@ =~= translation_entries(tx, ty, tz, zero, one));
    mat
}

/// Builds the matrix of a scaling: the three factors and a one on the
/// diagonal, zeros elsewhere.
pub fn scaling_matrix<T: Copy>(sx: T, sy: T, sz: T, zero: T, one: T) -> (mat: [T; 16])
    ensures
        mat@ == scaling_entries(sx, sy, sz, zero, one),
{
    let mat = [
        sx, zero, zero, zero,
        zero, sy, zero, zero,
        zero, zero, sz, zero,
        zero, zero, zero, one,
    ];
    assert(mat@ =~= scaling_entries(sx, sy, sz, zero, one));
    mat
}

/// Multiplies row `row` of `a` into column `col` of `b`.
fn row_by_column<T: Copy, M: Fn(T, T) -> T, A: Fn(T, T) -> T>(
    a: &[T; 16],
    b: &[T; 16],
    row: usize,
    col: usize,
    times: &M,
    plus: &A,
) -> (r: T)
    requires
        row < 4,
        col < 4,
        forall|x: T, y: T| call_requires(*times, (x, y)),
        forall|x: T, y: T| call_requires(*plus, (x, y)),
    ensures
        is_row_by_column(*times, *plus, a@, b@, row as int, col as int, r),
{
    let ab0 = times(a[4 * row], b[col]);
    let ab1 = times(a[4 * row + 1], b[4 + col]);
    let ab2 = times(a[4 * row + 2], b[8 + col]);
    let ab3 = times(a[4 * row + 3], b[12 + col]);
    let sum1 = plus(ab0, ab1);
    let sum2 = plus(sum1, ab2);
    plus(sum2, ab3)
}

/// Multiplies two matrices, `a` on the left: entry `4 * i + j` of the result
/// is row `i` of `a` multiplied into column `j` of `b`.
pub fn mult_matrix_4<T: Copy, M: Fn(T, T) -> T, A: Fn(T, T) -> T>(
    a: &[T; 16],
    b: &[T; 16],
    times: &M,
    plus: &A,
) -> (mat: [T; 16])
    requires
        forall|x: T, y: T| call_requires(*times, (x, y)),
        forall|x: T, y: T| call_requires(*plus, (x, y)),
    ensures
        is_product(*times, *plus, a@, b@, mat@),
{
    let mut mat = *a;
    let mut k: usize = 0;
    while k < 16
        invariant
            k <= 16,
            mat@.len() == 16,
            forall|x: T, y: T| call_requires(*times, (x, y)),
            forall|x: T, y: T| call_requires(*plus, (x, y)),
            forall|i: int|
                0 <= i < k ==> is_row_by_column(*times, *plus, a@, b@, i / 4, i % 4, #[trigger] mat@[i]),
        decreases 16 - k,
    {
        let r = row_by_column(a, b, k / 4, k % 4, times, plus);
        mat[k] = r;
        k += 1;
    }
    mat
}

} // verus!
