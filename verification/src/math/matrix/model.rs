//! The mathematical model of matrices.
//!
//! A `ROW` by `COL` matrix is modelled by the sequence of its rows,
//! each row the sequence of the mathematical integers of its elements.
//! The storage is row-major: `entries()[r][c]` is the element at row
//! `r` and column `c`, `col(n)` returns the backing array of row `n`,
//! and `row(n)` gathers column `n` across all rows — the names follow
//! the accessors of the matrix type.

use crate::math::vector::model::{
    add_ok, add_vals, div_scalar_vals, dot_int, dot_ok, dot_val, ints, scale_vals, seq_add,
    seq_scale, sub_ok, sub_vals,
};
use crate::math::vector::traits::VectorElement;
use vstd::prelude::*;

verus! {

/// The integer grid that models a grid of element values.
pub open spec fn ints2<T: VectorElement>(s: Seq<Seq<T>>) -> Seq<Seq<int>> {
    s.map_values(|row: Seq<T>| ints(row))
}

/// Whether `a` is a grid of `rows` rows of `cols` elements each.
pub open spec fn is_grid<A>(a: Seq<Seq<A>>, rows: nat, cols: nat) -> bool {
    a.len() == rows && forall|r: int| 0 <= r < rows ==> (#[trigger] a[r]).len() == cols
}

/// Elementwise sum of two grids.
pub open spec fn mat_add(a: Seq<Seq<int>>, b: Seq<Seq<int>>) -> Seq<Seq<int>> {
    Seq::new(a.len(), |r: int| Seq::new(a[r].len(), |c: int| a[r][c] + b[r][c]))
}

/// Elementwise difference of two grids.
pub open spec fn mat_sub(a: Seq<Seq<int>>, b: Seq<Seq<int>>) -> Seq<Seq<int>> {
    Seq::new(a.len(), |r: int| Seq::new(a[r].len(), |c: int| a[r][c] - b[r][c]))
}

/// Every element of a grid scaled by `s`.
pub open spec fn mat_scale(a: Seq<Seq<int>>, s: int) -> Seq<Seq<int>> {
    Seq::new(a.len(), |r: int| Seq::new(a[r].len(), |c: int| a[r][c] * s))
}

/// Column `n` of a grid: the n-th element of every row.
pub open spec fn mat_col(a: Seq<Seq<int>>, n: int) -> Seq<int> {
    Seq::new(a.len(), |r: int| a[r][n])
}

/// The matrix product: element `(l, n)` is the dot product of row `l`
/// of `a` with column `n` of `b`; `n_cols` is the width of `b`.
pub open spec fn mat_mul(a: Seq<Seq<int>>, b: Seq<Seq<int>>, n_cols: nat) -> Seq<Seq<int>> {
    Seq::new(a.len(), |l: int| Seq::new(n_cols, |n: int| dot_int(a[l], mat_col(b, n))))
}

/// The identity grid: one on the diagonal, zero elsewhere.
pub open spec fn mat_identity(n: nat) -> Seq<Seq<int>> {
    Seq::new(n, |r: int| Seq::new(n, |c: int| if r == c { 1int } else { 0int }))
}

/// Every elementwise sum of two grids is representable in `T`.
pub open spec fn mat_add_ok<T: VectorElement>(a: Seq<Seq<int>>, b: Seq<Seq<int>>) -> bool {
    forall|r: int| 0 <= r < a.len() ==> add_ok::<T>(#[trigger] a[r], b[r])
}

/// Every elementwise difference of two grids is representable in `T`.
pub open spec fn mat_sub_ok<T: VectorElement>(a: Seq<Seq<int>>, b: Seq<Seq<int>>) -> bool {
    forall|r: int| 0 <= r < a.len() ==> sub_ok::<T>(#[trigger] a[r], b[r])
}

/// Every element of a grid scaled by `s` is representable in `T`.
pub open spec fn mat_scale_ok<T: VectorElement>(a: Seq<Seq<int>>, s: int) -> bool {
    forall|r: int, c: int|
        0 <= r < a.len() && 0 <= c < a[r].len() ==> T::in_range(#[trigger] (a[r][c] * s))
}

/// Every dot product in the matrix product of `a` and `b` keeps all
/// its products and partial sums representable in `T`.
pub open spec fn mat_mul_ok<T: VectorElement>(
    a: Seq<Seq<int>>,
    b: Seq<Seq<int>>,
    n_cols: nat,
) -> bool {
    forall|l: int, n: int|
        0 <= l < a.len() && 0 <= n < n_cols ==> dot_ok::<T>(#[trigger] a[l], #[trigger] mat_col(b, n))
}

/// Elementwise sum of two grids, at the level of element values.
pub open spec fn mat_add_vals<T: VectorElement>(a: Seq<Seq<T>>, b: Seq<Seq<T>>) -> Seq<Seq<T>> {
    Seq::new(a.len(), |r: int| add_vals(a[r], b[r]))
}

/// Elementwise difference of two grids, at the level of element
/// values.
pub open spec fn mat_sub_vals<T: VectorElement>(a: Seq<Seq<T>>, b: Seq<Seq<T>>) -> Seq<Seq<T>> {
    Seq::new(a.len(), |r: int| sub_vals(a[r], b[r]))
}

/// Every element of a grid scaled by `s`, at the level of element
/// values.
pub open spec fn mat_scale_vals<T: VectorElement>(a: Seq<Seq<T>>, s: T) -> Seq<Seq<T>> {
    Seq::new(a.len(), |r: int| scale_vals(a[r], s))
}

/// Every element of a grid divided by `s`, at the level of element
/// values.
pub open spec fn mat_div_scalar_vals<T: VectorElement>(a: Seq<Seq<T>>, s: T) -> Seq<Seq<T>> {
    Seq::new(a.len(), |r: int| div_scalar_vals(a[r], s))
}

/// Every element of a grid divided by `s`, truncating.
pub open spec fn mat_div_scalar(a: Seq<Seq<int>>, s: int) -> Seq<Seq<int>> {
    Seq::new(
        a.len(),
        |r: int|
            Seq::new(a[r].len(), |c: int| crate::math::vector::traits::trunc_div(a[r][c], s)),
    )
}

/// `s` is nonzero and every truncating quotient in the grid is
/// representable in `T`.
pub open spec fn mat_div_scalar_ok<T: VectorElement>(a: Seq<Seq<int>>, s: int) -> bool {
    s != 0 && forall|r: int, c: int|
        0 <= r < a.len() && 0 <= c < a[r].len() ==> T::in_range(
            #[trigger] crate::math::vector::traits::trunc_div(a[r][c], s),
        )
}

/// The dot product distributes over an elementwise sum on the right.
proof fn lemma_dot_add_right(x: Seq<int>, u: Seq<int>, v: Seq<int>)
    requires
        x.len() == u.len(),
        u.len() == v.len(),
    ensures
        dot_int(x, seq_add(u, v)) == dot_int(x, u) + dot_int(x, v),
    decreases x.len(),
{
    if x.len() == 0 {
    } else {
        assert(seq_add(u, v).drop_last() =~= seq_add(u.drop_last(), v.drop_last()));
        lemma_dot_add_right(x.drop_last(), u.drop_last(), v.drop_last());
        assert(seq_add(u, v).last() == u.last() + v.last());
        assert(x.last() * (u.last() + v.last()) == x.last() * u.last() + x.last() * v.last())
            by (nonlinear_arith);
    }
}

/// A scalar factor on the right operand comes out of the dot product.
proof fn lemma_dot_scale_right(x: Seq<int>, v: Seq<int>, s: int)
    requires
        x.len() == v.len(),
    ensures
        dot_int(x, seq_scale(v, s)) == s * dot_int(x, v),
    decreases x.len(),
{
    if x.len() == 0 {
    } else {
        assert(seq_scale(v, s).drop_last() =~= seq_scale(v.drop_last(), s));
        lemma_dot_scale_right(x.drop_last(), v.drop_last(), s);
        assert(seq_scale(v, s).last() == v.last() * s);
        assert(x.last() * (v.last() * s) == s * (x.last() * v.last())) by (nonlinear_arith);
        assert(s * dot_int(x.drop_last(), v.drop_last()) + s * (x.last() * v.last()) == s * (
        dot_int(x.drop_last(), v.drop_last()) + x.last() * v.last())) by (nonlinear_arith);
    }
}

/// Summing the columns of `b` against `y` after pairing each with `x`
/// equals pairing `x` with the rows of `b` summed against `y`: the two
/// ways of evaluating the bilinear form `x * b * y` agree.
proof fn lemma_bilinear_exchange(x: Seq<int>, b: Seq<Seq<int>>, y: Seq<int>, k: int)
    requires
        is_grid(b, x.len(), y.len() as nat),
        0 <= k <= y.len(),
    ensures
        dot_int(Seq::new(k as nat, |n: int| dot_int(x, mat_col(b, n))), y.take(k)) == dot_int(
            x,
            Seq::new(x.len(), |m: int| dot_int(b[m].take(k), y.take(k))),
        ),
    decreases k,
{
    let outer = |k: int| Seq::new(k as nat, |n: int| dot_int(x, mat_col(b, n)));
    let inner = |k: int| Seq::new(x.len(), |m: int| dot_int(b[m].take(k), y.take(k)));
    if k == 0 {
        assert(outer(0) =~= Seq::<int>::empty());
        assert forall|m: int| 0 <= m < x.len() implies #[trigger] inner(0)[m] == 0 by {
            assert(b[m].take(0) =~= Seq::<int>::empty());
            assert(y.take(0) =~= Seq::<int>::empty());
        }
        lemma_dot_zero_right(x, inner(0));
    } else {
        lemma_bilinear_exchange(x, b, y, k - 1);
        // The outer dot product grows by one term.
        assert(outer(k).drop_last() =~= outer(k - 1));
        assert(y.take(k).drop_last() =~= y.take(k - 1));
        assert(dot_int(outer(k), y.take(k)) == dot_int(outer(k - 1), y.take(k - 1)) + dot_int(
            x,
            mat_col(b, k - 1),
        ) * y[k - 1]);
        // The inner vector grows by the scaled column k - 1.
        let col = mat_col(b, k - 1);
        assert forall|m: int| 0 <= m < x.len() implies #[trigger] inner(k)[m] == seq_add(
            inner(k - 1),
            seq_scale(col, y[k - 1]),
        )[m] by {
            assert(b[m].take(k).drop_last() =~= b[m].take(k - 1));
            assert(y.take(k).drop_last() =~= y.take(k - 1));
            assert(dot_int(b[m].take(k), y.take(k)) == dot_int(b[m].take(k - 1), y.take(k - 1))
                + b[m][k - 1] * y[k - 1]);
        }
        assert(inner(k) =~= seq_add(inner(k - 1), seq_scale(col, y[k - 1])));
        lemma_dot_add_right(x, inner(k - 1), seq_scale(col, y[k - 1]));
        lemma_dot_scale_right(x, col, y[k - 1]);
        assert(y[k - 1] * dot_int(x, col) == dot_int(x, col) * y[k - 1]) by (nonlinear_arith);
    }
}

/// The dot product with the zero vector is zero.
proof fn lemma_dot_zero_right(x: Seq<int>, z: Seq<int>)
    requires
        z.len() == x.len(),
        forall|m: int| 0 <= m < z.len() ==> z[m] == 0,
    ensures
        dot_int(x, z) == 0,
    decreases x.len(),
{
    if x.len() > 0 {
        lemma_dot_zero_right(x.drop_last(), z.drop_last());
        assert(x.last() * z.last() == 0) by (nonlinear_arith)
            requires
                z.last() == 0,
        ;
    }
}

/// The matrix product is associative: multiplying an `L` by `M` grid,
/// an `M` by `N` grid and an `N` by `P` grid gives the same result in
/// either order.
pub proof fn lemma_mat_mul_associative(
    a: Seq<Seq<int>>,
    b: Seq<Seq<int>>,
    c: Seq<Seq<int>>,
    n_b: nat,
    n_c: nat,
)
    requires
        is_grid(a, a.len(), b.len() as nat),
        is_grid(b, b.len(), n_b),
        is_grid(c, n_b, n_c),
    ensures
        mat_mul(mat_mul(a, b, n_b), c, n_c) == mat_mul(a, mat_mul(b, c, n_c), n_c),
{
    let lhs = mat_mul(mat_mul(a, b, n_b), c, n_c);
    let rhs = mat_mul(a, mat_mul(b, c, n_c), n_c);
    assert forall|l: int, p: int| 0 <= l < a.len() && 0 <= p < n_c implies lhs[l][p]
        == rhs[l][p] by {
        let x = a[l];
        let y = mat_col(c, p);
        lemma_bilinear_exchange(x, b, y, n_b as int);
        assert(y.take(n_b as int) =~= y);
        assert(mat_mul(a, b, n_b)[l] =~= Seq::new(n_b, |n: int| dot_int(x, mat_col(b, n))));
        assert forall|m: int| 0 <= m < x.len() implies b[m].take(n_b as int) == b[m] by {
            assert(b[m].take(n_b as int) =~= b[m]);
        }
        assert(Seq::new(x.len(), |m: int| dot_int(b[m].take(n_b as int), y.take(n_b as int)))
            =~= mat_col(mat_mul(b, c, n_c), p));
        assert(lhs[l][p] == dot_int(mat_mul(a, b, n_b)[l], mat_col(c, p)));
        assert(rhs[l][p] == dot_int(x, mat_col(mat_mul(b, c, n_c), p)));
    }
    assert forall|l: int| 0 <= l < a.len() implies lhs[l] == rhs[l] by {
        assert(lhs[l] =~= rhs[l]);
    }
    assert(lhs =~= rhs);
}

/// The value-level matrix product entry: the value-level dot product
/// of row `l` of `a` with column `n` of `b`.
pub open spec fn mat_mul_entry_val<T: VectorElement>(
    a: Seq<Seq<T>>,
    b: Seq<Seq<T>>,
    l: int,
    n: int,
) -> T {
    dot_val(a[l], Seq::new(b.len(), |r: int| b[r][n]))
}

} // verus!
