//! A fixed-size matrix of elements.
//!
//! The grid is stored row-major: `elements[r][c]` is the element at
//! row `r` and column `c` of the grid that `get`, `set` and the
//! arithmetic all use. The two extraction accessors read the grid the
//! other way round, as the columns of the transpose: `col(n)` returns
//! the backing array at index `n`, and `row(n)` gathers the `n`-th
//! element of every backing array. The product multiplies `col(l)` of
//! the left operand with `row(n)` of the right one, which is the
//! ordinary row-by-column matrix product on the stored grids.

pub mod model;
pub mod traits;

pub use self::traits::{MatrixElement, MatrixLike, SquareMatrix};

use crate::math::matrix::model::{
    ints2, is_grid, mat_add, mat_add_ok, mat_add_vals, mat_col, mat_div_scalar_ok,
    mat_div_scalar_vals, mat_mul, mat_mul_entry_val, mat_mul_ok, mat_scale, mat_scale_ok,
    mat_scale_vals, mat_sub, mat_sub_ok, mat_sub_vals,
};
use crate::math::vector::model::{
    dot_int, dot_val, ints, lemma_dot_int_take_step, lemma_dot_val_take_step,
};
use crate::math::vector::traits::{trunc_div, FloatElement, VectorElement, VectorLike};
use crate::math::vector::vector1::Vector1;
use crate::math::vector::vector2::Vector2;
use crate::math::vector::vector3::Vector3;
use crate::math::vector::vector4::Vector4;
use crate::num::{One, Zero};
use vstd::prelude::*;

verus! {

/// A `ROW` by `COL` grid of elements, stored row-major.
#[derive(Clone, Copy, Debug, PartialEq)]
pub struct Matrix<T: MatrixElement, const ROW: usize, const COL: usize> {
    pub elements: [[T; COL]; ROW],
}

impl<T: MatrixElement, const ROW: usize, const COL: usize> Zero for Matrix<T, ROW, COL> {
    open spec fn zero_spec() -> Self {
        Matrix {
            elements: vstd::array::spec_array_fill_for_copy_type::<[T; COL], ROW>(
                vstd::array::spec_array_fill_for_copy_type::<T, COL>(T::zero_spec()),
            ),
        }
    }

    fn zero() -> (r: Self) {
        let z = T::zero();
        Matrix { elements: [[z; COL]; ROW] }
    }

    fn is_zero(&self) -> (r: bool)
        ensures
            T::obeys_model() ==> r == (*self == Self::zero_spec()),
    {
        let mut i: usize = 0;
        let mut all_zero = true;
        proof {
            T::lemma_element_model(T::zero_spec(), T::zero_spec());
        }
        while i < ROW
            invariant
                0 <= i <= ROW,
                T::obeys_model() ==> all_zero == forall|r: int, c: int|
                    0 <= r < i && 0 <= c < COL ==> (#[trigger] self.entries()[r][c]).as_int()
                        == 0,
            decreases ROW - i,
        {
            let mut j: usize = 0;
            while j < COL
                invariant
                    0 <= j <= COL,
                    i < ROW,
                    T::obeys_model() ==> all_zero == ((forall|r: int, c: int|
                        0 <= r < i && 0 <= c < COL ==> (#[trigger] self.entries()[r][c]).as_int()
                            == 0) && (forall|c: int|
                        0 <= c < j ==> (#[trigger] self.entries()[i as int][c]).as_int() == 0)),
                decreases COL - j,
            {
                let e = self.elements[i][j];
                proof {
                    T::lemma_element_model(T::zero_spec(), T::zero_spec());
                    assert(self.entries()[i as int][j as int] == e);
                }
                if !e.eq_val(T::zero()) {
                    all_zero = false;
                }
                j += 1;
            }
            i += 1;
        }
        proof {
            let z = Self::zero_spec();
            if T::obeys_model() && all_zero {
                assert forall|r: int| 0 <= r < ROW implies self.elements@[r]
                    == z.elements@[r] by {
                    assert forall|c: int| 0 <= c < COL implies self.elements@[r]@[c]
                        == z.elements@[r]@[c] by {
                        T::lemma_element_model(self.entries()[r][c], T::zero_spec());
                    }
                    assert(self.elements@[r]@ =~= z.elements@[r]@);
                    assert(self.elements@[r] =~= z.elements@[r]);
                }
                assert(self.elements =~= z.elements);
            } else if T::obeys_model() {
                let (r, c) = choose|r: int, c: int|
                    0 <= r < ROW && 0 <= c < COL && (#[trigger] self.entries()[r][c]).as_int()
                        != 0;
                assert(z.entries()[r][c] == T::zero_spec());
                assert(self.entries()[r][c] != z.entries()[r][c]);
            }
        }
        all_zero
    }
}

impl<T: MatrixElement, const ROW: usize, const COL: usize> One for Matrix<T, ROW, COL> {
    open spec fn one_spec() -> Self {
        Matrix {
            elements: vstd::array::spec_array_fill_for_copy_type::<[T; COL], ROW>(
                vstd::array::spec_array_fill_for_copy_type::<T, COL>(T::one_spec()),
            ),
        }
    }

    fn one() -> (r: Self) {
        let o = T::one();
        Matrix { elements: [[o; COL]; ROW] }
    }
}

impl<T: MatrixElement, const ROW: usize, const COL: usize> Default for Matrix<T, ROW, COL> {
    /// The matrix of all zeroes.
    fn default() -> (r: Self)
        ensures
            r == Self::zero_spec(),
    {
        Self::zero()
    }
}

impl<T: MatrixElement, const ROW: usize, const COL: usize> MatrixLike<T, ROW, COL> for Matrix<
    T,
    ROW,
    COL,
> {
    open spec fn entries(&self) -> Seq<Seq<T>> {
        self.elements@.map_values(|row: [T; COL]| row@)
    }

    proof fn lemma_entries_shape(&self) {
    }

    fn get(&self, row: usize, col: usize) -> (r: T) {
        self.elements[row][col]
    }

    fn set(&mut self, row: usize, col: usize, value: T) {
        let mut v = self.elements[row];
        v[col] = value;
        self.elements[row] = v;
        proof {
            assert(self.entries() =~~= old(self).entries().update(
                row as int,
                old(self).entries()[row as int].update(col as int, value),
            ));
        }
    }
}

impl<T: MatrixElement, const ROW: usize, const COL: usize> Matrix<T, ROW, COL> {
    /// Creates a matrix holding the same grid as any matrix-shaped
    /// value.
    pub fn new<M: MatrixLike<T, ROW, COL>>(m: M) -> (result: Self)
        ensures
            result.entries() == m.entries(),
    {
        proof {
            m.lemma_entries_shape();
        }
        let z = T::zero();
        let mut elements = [[z; COL]; ROW];
        let mut r: usize = 0;
        while r < ROW
            invariant
                0 <= r <= ROW,
                is_grid(m.entries(), ROW as nat, COL as nat),
                elements@.len() == ROW,
                forall|i: int| 0 <= i < ROW ==> (#[trigger] elements@[i])@.len() == COL,
                forall|i: int, j: int|
                    0 <= i < r && 0 <= j < COL ==> (#[trigger] elements@[i]@[j])
                        == m.entries()[i][j],
            decreases ROW - r,
        {
            let mut rowv = elements[r];
            let mut c: usize = 0;
            while c < COL
                invariant
                    0 <= c <= COL,
                    r < ROW,
                    is_grid(m.entries(), ROW as nat, COL as nat),
                    rowv@.len() == COL,
                    forall|j: int| 0 <= j < c ==> rowv@[j] == m.entries()[r as int][j],
                decreases COL - c,
            {
                let e = m.get(r, c);
                rowv[c] = e;
                c += 1;
            }
            elements[r] = rowv;
            r += 1;
        }
        let result = Matrix { elements };
        proof {
            assert forall|i: int| 0 <= i < ROW implies result.entries()[i]
                == m.entries()[i] by {
                assert(result.entries()[i] =~= m.entries()[i]);
            }
            assert(result.entries() =~= m.entries());
        }
        result
    }

    /// The backing array at index `n`: the stored grid read as the
    /// columns of its transpose.
    pub fn col(&self, n: usize) -> (r: [T; COL])
        requires
            n < ROW,
        ensures
            r@ == self.entries()[n as int],
    {
        self.elements[n]
    }

    /// The `n`-th element of every backing array: one column of the
    /// stored grid.
    pub fn row(&self, n: usize) -> (r: [T; ROW])
        requires
            n < COL,
        ensures
            r@ == Seq::new(ROW as nat, |i: int| self.entries()[i][n as int]),
    {
        let z = T::zero();
        let mut v = [z; ROW];
        let mut i: usize = 0;
        while i < ROW
            invariant
                0 <= i <= ROW,
                n < COL,
                v@.len() == ROW,
                forall|j: int| 0 <= j < i ==> v@[j] == #[trigger] self.entries()[j][n as int],
            decreases ROW - i,
        {
            let e = self.elements[i][n];
            v[i] = e;
            i += 1;
        }
        proof {
            assert(v@ =~= Seq::new(ROW as nat, |i: int| self.entries()[i][n as int]));
        }
        v
    }

    /// Elementwise sum.
    pub fn add(self, rhs: Self) -> (result: Self)
        requires
            mat_add_ok::<T>(ints2(self.entries()), ints2(rhs.entries())),
        ensures
            result.entries() == mat_add_vals(self.entries(), rhs.entries()),
            ints2(result.entries()) == mat_add(ints2(self.entries()), ints2(rhs.entries())),
    {
        let z = T::zero();
        let mut elements = [[z; COL]; ROW];
        let mut r: usize = 0;
        while r < ROW
            invariant
                0 <= r <= ROW,
                mat_add_ok::<T>(ints2(self.entries()), ints2(rhs.entries())),
                elements@.len() == ROW,
                forall|i: int| 0 <= i < ROW ==> (#[trigger] elements@[i])@.len() == COL,
                forall|i: int, j: int|
                    0 <= i < r && 0 <= j < COL ==> (#[trigger] elements@[i]@[j])
                        == self.entries()[i][j].add_val(rhs.entries()[i][j]),
                forall|i: int, j: int|
                    0 <= i < r && 0 <= j < COL ==> (#[trigger] elements@[i]@[j]).as_int()
                        == ints2(self.entries())[i][j] + ints2(rhs.entries())[i][j],
            decreases ROW - r,
        {
            let mut rowv = elements[r];
            let mut c: usize = 0;
            while c < COL
                invariant
                    0 <= c <= COL,
                    r < ROW,
                    mat_add_ok::<T>(ints2(self.entries()), ints2(rhs.entries())),
                    rowv@.len() == COL,
                    forall|j: int|
                        0 <= j < c ==> rowv@[j] == self.entries()[r as int][j].add_val(
                            rhs.entries()[r as int][j],
                        ),
                    forall|j: int|
                        0 <= j < c ==> (#[trigger] rowv@[j]).as_int() == ints2(self.entries())[r as int][j] + ints2(rhs.entries())[r as int][j],
                decreases COL - c,
            {
                proof {
                    assert(ints2(self.entries())[r as int] == ints(self.entries()[r as int]));
                    assert(T::in_range(ints2(self.entries())[r as int][c as int] + ints2(rhs.entries())[r as int][c as int]));
                }
                let e = self.elements[r][c].add(rhs.elements[r][c]);
                rowv[c] = e;
                c += 1;
            }
            elements[r] = rowv;
            r += 1;
        }
        let result = Matrix { elements };
        proof {
            assert forall|i: int| 0 <= i < ROW implies result.entries()[i] == mat_add_vals(
                self.entries(),
                rhs.entries(),
            )[i] by {
                assert(result.entries()[i] =~= mat_add_vals(self.entries(), rhs.entries())[i]);
            }
            assert(result.entries() =~= mat_add_vals(self.entries(), rhs.entries()));
            assert forall|i: int| 0 <= i < ROW implies ints2(result.entries())[i] == mat_add(
                ints2(self.entries()),
                ints2(rhs.entries()),
            )[i] by {
                assert(ints2(result.entries())[i] =~= mat_add(
                    ints2(self.entries()),
                    ints2(rhs.entries()),
                )[i]);
            }
            assert(ints2(result.entries()) =~= mat_add(
                ints2(self.entries()),
                ints2(rhs.entries()),
            ));
        }
        result
    }

    /// Elementwise difference.
    pub fn sub(self, rhs: Self) -> (result: Self)
        requires
            mat_sub_ok::<T>(ints2(self.entries()), ints2(rhs.entries())),
        ensures
            result.entries() == mat_sub_vals(self.entries(), rhs.entries()),
            ints2(result.entries()) == mat_sub(ints2(self.entries()), ints2(rhs.entries())),
    {
        let z = T::zero();
        let mut elements = [[z; COL]; ROW];
        let mut r: usize = 0;
        while r < ROW
            invariant
                0 <= r <= ROW,
                mat_sub_ok::<T>(ints2(self.entries()), ints2(rhs.entries())),
                elements@.len() == ROW,
                forall|i: int| 0 <= i < ROW ==> (#[trigger] elements@[i])@.len() == COL,
                forall|i: int, j: int|
                    0 <= i < r && 0 <= j < COL ==> (#[trigger] elements@[i]@[j])
                        == self.entries()[i][j].sub_val(rhs.entries()[i][j]),
                forall|i: int, j: int|
                    0 <= i < r && 0 <= j < COL ==> (#[trigger] elements@[i]@[j]).as_int()
                        == ints2(self.entries())[i][j] - ints2(rhs.entries())[i][j],
            decreases ROW - r,
        {
            let mut rowv = elements[r];
            let mut c: usize = 0;
            while c < COL
                invariant
                    0 <= c <= COL,
                    r < ROW,
                    mat_sub_ok::<T>(ints2(self.entries()), ints2(rhs.entries())),
                    rowv@.len() == COL,
                    forall|j: int|
                        0 <= j < c ==> rowv@[j] == self.entries()[r as int][j].sub_val(
                            rhs.entries()[r as int][j],
                        ),
                    forall|j: int|
                        0 <= j < c ==> (#[trigger] rowv@[j]).as_int() == ints2(self.entries())[r as int][j] - ints2(rhs.entries())[r as int][j],
                decreases COL - c,
            {
                proof {
                    assert(ints2(self.entries())[r as int] == ints(self.entries()[r as int]));
                    assert(T::in_range(ints2(self.entries())[r as int][c as int] - ints2(rhs.entries())[r as int][c as int]));
                }
                let e = self.elements[r][c].sub(rhs.elements[r][c]);
                rowv[c] = e;
                c += 1;
            }
            elements[r] = rowv;
            r += 1;
        }
        let result = Matrix { elements };
        proof {
            assert forall|i: int| 0 <= i < ROW implies result.entries()[i] == mat_sub_vals(
                self.entries(),
                rhs.entries(),
            )[i] by {
                assert(result.entries()[i] =~= mat_sub_vals(self.entries(), rhs.entries())[i]);
            }
            assert(result.entries() =~= mat_sub_vals(self.entries(), rhs.entries()));
            assert forall|i: int| 0 <= i < ROW implies ints2(result.entries())[i] == mat_sub(
                ints2(self.entries()),
                ints2(rhs.entries()),
            )[i] by {
                assert(ints2(result.entries())[i] =~= mat_sub(
                    ints2(self.entries()),
                    ints2(rhs.entries()),
                )[i]);
            }
            assert(ints2(result.entries()) =~= mat_sub(
                ints2(self.entries()),
                ints2(rhs.entries()),
            ));
        }
        result
    }

    /// Every element scaled by `scalar`.
    pub fn mul_scalar(self, scalar: T) -> (result: Self)
        requires
            mat_scale_ok::<T>(ints2(self.entries()), scalar.as_int()),
        ensures
            result.entries() == mat_scale_vals(self.entries(), scalar),
            ints2(result.entries()) == mat_scale(ints2(self.entries()), scalar.as_int()),
    {
        let z = T::zero();
        let mut elements = [[z; COL]; ROW];
        let mut r: usize = 0;
        while r < ROW
            invariant
                0 <= r <= ROW,
                mat_scale_ok::<T>(ints2(self.entries()), scalar.as_int()),
                elements@.len() == ROW,
                forall|i: int| 0 <= i < ROW ==> (#[trigger] elements@[i])@.len() == COL,
                forall|i: int, j: int|
                    0 <= i < r && 0 <= j < COL ==> (#[trigger] elements@[i]@[j])
                        == self.entries()[i][j].mul_val(scalar),
                forall|i: int, j: int|
                    0 <= i < r && 0 <= j < COL ==> (#[trigger] elements@[i]@[j]).as_int()
                        == ints2(self.entries())[i][j] * scalar.as_int(),
            decreases ROW - r,
        {
            let mut rowv = elements[r];
            let mut c: usize = 0;
            while c < COL
                invariant
                    0 <= c <= COL,
                    r < ROW,
                    mat_scale_ok::<T>(ints2(self.entries()), scalar.as_int()),
                    rowv@.len() == COL,
                    forall|j: int|
                        0 <= j < c ==> rowv@[j] == self.entries()[r as int][j].mul_val(
                            scalar,
                        ),
                    forall|j: int|
                        0 <= j < c ==> (#[trigger] rowv@[j]).as_int() == ints2(self.entries())[r as int][j] * scalar.as_int(),
                decreases COL - c,
            {
                proof {
                    assert(ints2(self.entries())[r as int] == ints(self.entries()[r as int]));
                    assert(T::in_range(ints2(self.entries())[r as int][c as int] * scalar.as_int()));
                }
                let e = self.elements[r][c].mul(scalar);
                rowv[c] = e;
                c += 1;
            }
            elements[r] = rowv;
            r += 1;
        }
        let result = Matrix { elements };
        proof {
            assert forall|i: int| 0 <= i < ROW implies result.entries()[i] == mat_scale_vals(
                self.entries(),
                scalar,
            )[i] by {
                assert(result.entries()[i] =~= mat_scale_vals(self.entries(), scalar)[i]);
            }
            assert(result.entries() =~= mat_scale_vals(self.entries(), scalar));
            assert forall|i: int| 0 <= i < ROW implies ints2(result.entries())[i] == mat_scale(
                ints2(self.entries()),
                scalar.as_int(),
            )[i] by {
                assert(ints2(result.entries())[i] =~= mat_scale(
                    ints2(self.entries()),
                    scalar.as_int(),
                )[i]);
            }
            assert(ints2(result.entries()) =~= mat_scale(ints2(self.entries()), scalar.as_int()));
        }
        result
    }

    /// Every element divided by `scalar`, truncating on integer elements.
    pub fn div_scalar(self, scalar: T) -> (result: Self)
        requires
            mat_div_scalar_ok::<T>(ints2(self.entries()), scalar.as_int()),
        ensures
            result.entries() == mat_div_scalar_vals(self.entries(), scalar),
            ints2(result.entries()) == crate::math::matrix::model::mat_div_scalar(ints2(self.entries()), scalar.as_int()),
    {
        let z = T::zero();
        let mut elements = [[z; COL]; ROW];
        let mut r: usize = 0;
        while r < ROW
            invariant
                0 <= r <= ROW,
                mat_div_scalar_ok::<T>(ints2(self.entries()), scalar.as_int()),
                elements@.len() == ROW,
                forall|i: int| 0 <= i < ROW ==> (#[trigger] elements@[i])@.len() == COL,
                forall|i: int, j: int|
                    0 <= i < r && 0 <= j < COL ==> (#[trigger] elements@[i]@[j])
                        == self.entries()[i][j].div_val(scalar),
                forall|i: int, j: int|
                    0 <= i < r && 0 <= j < COL ==> (#[trigger] elements@[i]@[j]).as_int()
                        == trunc_div(ints2(self.entries())[i][j], scalar.as_int()),
            decreases ROW - r,
        {
            let mut rowv = elements[r];
            let mut c: usize = 0;
            while c < COL
                invariant
                    0 <= c <= COL,
                    r < ROW,
                    mat_div_scalar_ok::<T>(ints2(self.entries()), scalar.as_int()),
                    rowv@.len() == COL,
                    forall|j: int|
                        0 <= j < c ==> rowv@[j] == self.entries()[r as int][j].div_val(
                            scalar,
                        ),
                    forall|j: int|
                        0 <= j < c ==> (#[trigger] rowv@[j]).as_int() == trunc_div(ints2(self.entries())[r as int][j], scalar.as_int()),
                decreases COL - c,
            {
                proof {
                    assert(ints2(self.entries())[r as int] == ints(self.entries()[r as int]));
                    assert(T::in_range(trunc_div(ints2(self.entries())[r as int][c as int], scalar.as_int())));
                }
                let e = self.elements[r][c].div(scalar);
                rowv[c] = e;
                c += 1;
            }
            elements[r] = rowv;
            r += 1;
        }
        let result = Matrix { elements };
        proof {
            assert forall|i: int| 0 <= i < ROW implies result.entries()[i] == mat_div_scalar_vals(
                self.entries(),
                scalar,
            )[i] by {
                assert(result.entries()[i] =~= mat_div_scalar_vals(self.entries(), scalar)[i]);
            }
            assert(result.entries() =~= mat_div_scalar_vals(self.entries(), scalar));
            assert forall|i: int| 0 <= i < ROW implies ints2(result.entries())[i] == crate::math::matrix::model::mat_div_scalar(
                ints2(self.entries()),
                scalar.as_int(),
            )[i] by {
                assert(ints2(result.entries())[i] =~= crate::math::matrix::model::mat_div_scalar(
                    ints2(self.entries()),
                    scalar.as_int(),
                )[i]);
            }
            assert(ints2(result.entries()) =~= crate::math::matrix::model::mat_div_scalar(ints2(self.entries()), scalar.as_int()));
        }
        result
    }

    /// The matrix product: entry `(l, n)` of the result is the dot
    /// product of `col(l)` of `self` with `row(n)` of `rhs`, which is
    /// the ordinary row-by-column product on the stored grids.
    pub fn mul<const N: usize>(self, rhs: Matrix<T, COL, N>) -> (result: Matrix<T, ROW, N>)
        requires
            mat_mul_ok::<T>(ints2(self.entries()), ints2(rhs.entries()), N as nat),
        ensures
            result.entries() == Seq::new(
                ROW as nat,
                |l: int|
                    Seq::new(
                        N as nat,
                        |n: int| mat_mul_entry_val(self.entries(), rhs.entries(), l, n),
                    ),
            ),
            ints2(result.entries()) == mat_mul(
                ints2(self.entries()),
                ints2(rhs.entries()),
                N as nat,
            ),
    {
        let z = T::zero();
        let mut elements = [[z; N]; ROW];
        let mut l: usize = 0;
        while l < ROW
            invariant
                0 <= l <= ROW,
                mat_mul_ok::<T>(ints2(self.entries()), ints2(rhs.entries()), N as nat),
                elements@.len() == ROW,
                forall|i: int| 0 <= i < ROW ==> (#[trigger] elements@[i])@.len() == N,
                forall|i: int, j: int|
                    0 <= i < l && 0 <= j < N ==> (#[trigger] elements@[i]@[j])
                        == mat_mul_entry_val(self.entries(), rhs.entries(), i, j),
                forall|i: int, j: int|
                    0 <= i < l && 0 <= j < N ==> (#[trigger] elements@[i]@[j]).as_int()
                        == dot_int(ints2(self.entries())[i], mat_col(ints2(rhs.entries()), j)),
            decreases ROW - l,
        {
            let mut rowv = elements[l];
            let mut n: usize = 0;
            while n < N
                invariant
                    0 <= n <= N,
                    l < ROW,
                    mat_mul_ok::<T>(ints2(self.entries()), ints2(rhs.entries()), N as nat),
                    rowv@.len() == N,
                    forall|j: int|
                        0 <= j < n ==> rowv@[j] == mat_mul_entry_val(
                            self.entries(),
                            rhs.entries(),
                            l as int,
                            j,
                        ),
                    forall|j: int|
                        0 <= j < n ==> (#[trigger] rowv@[j]).as_int() == dot_int(
                            ints2(self.entries())[l as int],
                            mat_col(ints2(rhs.entries()), j),
                        ),
                decreases N - n,
            {
                let ghost a = self.entries()[l as int];
                let ghost bcol = Seq::new(COL as nat, |m: int| rhs.entries()[m][n as int]);
                proof {
                    assert(ints(a) =~= ints2(self.entries())[l as int]);
                    assert(ints(bcol) =~= mat_col(ints2(rhs.entries()), n as int));
                }
                let mut acc = T::zero();
                proof {
                    assert(a.take(0) =~= Seq::<T>::empty());
                    assert(bcol.take(0) =~= Seq::<T>::empty());
                    assert(ints(a).take(0) =~= Seq::<int>::empty());
                    assert(ints(bcol).take(0) =~= Seq::<int>::empty());
                    assert(T::in_range(dot_int(ints(a).take(0), ints(bcol).take(0))));
                    T::lemma_element_model(acc, acc);
                }
                let mut m: usize = 0;
                while m < COL
                    invariant
                        0 <= m <= COL,
                        l < ROW,
                        n < N,
                        mat_mul_ok::<T>(ints2(self.entries()), ints2(rhs.entries()), N as nat),
                        a == self.entries()[l as int],
                        bcol == Seq::new(COL as nat, |i: int| rhs.entries()[i][n as int]),
                        ints(a) == ints2(self.entries())[l as int],
                        ints(bcol) == mat_col(ints2(rhs.entries()), n as int),
                        acc == dot_val(a.take(m as int), bcol.take(m as int)),
                        acc.as_int() == dot_int(ints(a).take(m as int), ints(bcol).take(m as int)),
                    decreases COL - m,
                {
                    proof {
                        lemma_dot_val_take_step(a, bcol, m as int);
                        lemma_dot_int_take_step(ints(a), ints(bcol), m as int);
                        assert(T::in_range(ints(a)[m as int] * ints(bcol)[m as int]));
                        assert(T::in_range(
                            dot_int(ints(a).take(m as int + 1), ints(bcol).take(m as int + 1)),
                        ));
                        assert(self.entries()[l as int][m as int] == self.elements@[l as int]@[m as int]);
                        assert(rhs.entries()[m as int][n as int] == rhs.elements@[m as int]@[n as int]);
                    }
                    acc = acc.add(self.elements[l][m].mul(rhs.elements[m][n]));
                    m += 1;
                }
                proof {
                    assert(a.take(COL as int) =~= a);
                    assert(bcol.take(COL as int) =~= bcol);
                    assert(ints(a).take(COL as int) =~= ints(a));
                    assert(ints(bcol).take(COL as int) =~= ints(bcol));
                }
                rowv[n] = acc;
                n += 1;
            }
            elements[l] = rowv;
            l += 1;
        }
        let result = Matrix { elements };
        proof {
            let expect = Seq::new(
                ROW as nat,
                |l: int|
                    Seq::new(
                        N as nat,
                        |n: int| mat_mul_entry_val(self.entries(), rhs.entries(), l, n),
                    ),
            );
            assert forall|i: int| 0 <= i < ROW implies result.entries()[i] == expect[i] by {
                assert(result.entries()[i] =~= expect[i]);
            }
            assert(result.entries() =~= expect);
            let expect_int = mat_mul(ints2(self.entries()), ints2(rhs.entries()), N as nat);
            assert forall|i: int| 0 <= i < ROW implies ints2(result.entries())[i]
                == expect_int[i] by {
                assert(ints2(result.entries())[i] =~= expect_int[i]);
            }
            assert(ints2(result.entries()) =~= expect_int);
        }
        result
    }

    /// The product of a vector, read as one row, with this matrix:
    /// entry `n` of the result is the dot product of the vector with
    /// the `n`-th element of every backing array.
    pub fn mul_vector<V: VectorLike<T, ROW>>(&self, v: V) -> (result:
        crate::math::vector::array_wrapper::ArrayWrapper<T, COL>)
        requires
            forall|n: int|
                0 <= n < COL ==> crate::math::vector::model::dot_ok::<T>(
                    ints(v.vals()),
                    #[trigger] mat_col(ints2(self.entries()), n),
                ),
            v.vals().len() == ROW,
        ensures
            result.vals() == Seq::new(
                COL as nat,
                |n: int| dot_val(v.vals(), Seq::new(ROW as nat, |r: int| self.entries()[r][n])),
            ),
            ints(result.vals()) == Seq::new(
                COL as nat,
                |n: int| dot_int(ints(v.vals()), mat_col(ints2(self.entries()), n)),
            ),
    {
        let z = T::zero();
        let mut elements = [z; COL];
        let mut n: usize = 0;
        while n < COL
            invariant
                0 <= n <= COL,
                v.vals().len() == ROW,
                forall|j: int|
                    0 <= j < COL ==> crate::math::vector::model::dot_ok::<T>(
                        ints(v.vals()),
                        #[trigger] mat_col(ints2(self.entries()), j),
                    ),
                elements@.len() == COL,
                forall|j: int|
                    0 <= j < n ==> elements@[j] == dot_val(
                        v.vals(),
                        Seq::new(ROW as nat, |r: int| self.entries()[r][j]),
                    ),
                forall|j: int|
                    0 <= j < n ==> (#[trigger] elements@[j]).as_int() == dot_int(
                        ints(v.vals()),
                        mat_col(ints2(self.entries()), j),
                    ),
            decreases COL - n,
        {
            let ghost a = v.vals();
            let ghost bcol = Seq::new(ROW as nat, |r: int| self.entries()[r][n as int]);
            proof {
                assert(ints(bcol) =~= mat_col(ints2(self.entries()), n as int));
            }
            let mut acc = T::zero();
            proof {
                assert(a.take(0) =~= Seq::<T>::empty());
                assert(bcol.take(0) =~= Seq::<T>::empty());
                assert(ints(a).take(0) =~= Seq::<int>::empty());
                assert(ints(bcol).take(0) =~= Seq::<int>::empty());
                assert(T::in_range(dot_int(ints(a).take(0), ints(bcol).take(0))));
                T::lemma_element_model(acc, acc);
            }
            let mut r: usize = 0;
            while r < ROW
                invariant
                    0 <= r <= ROW,
                    n < COL,
                    v.vals().len() == ROW,
                    a == v.vals(),
                    bcol == Seq::new(ROW as nat, |i: int| self.entries()[i][n as int]),
                    ints(bcol) == mat_col(ints2(self.entries()), n as int),
                    crate::math::vector::model::dot_ok::<T>(ints(a), ints(bcol)),
                    acc == dot_val(a.take(r as int), bcol.take(r as int)),
                    acc.as_int() == dot_int(ints(a).take(r as int), ints(bcol).take(r as int)),
                decreases ROW - r,
            {
                proof {
                    lemma_dot_val_take_step(a, bcol, r as int);
                    lemma_dot_int_take_step(ints(a), ints(bcol), r as int);
                    assert(T::in_range(ints(a)[r as int] * ints(bcol)[r as int]));
                    assert(T::in_range(
                        dot_int(ints(a).take(r as int + 1), ints(bcol).take(r as int + 1)),
                    ));
                    assert(self.entries()[r as int][n as int] == self.elements@[r as int]@[n as int]);
                }
                let vr = v.get(r);
                acc = acc.add(vr.mul(self.elements[r][n]));
                r += 1;
            }
            proof {
                assert(a.take(ROW as int) =~= a);
                assert(bcol.take(ROW as int) =~= bcol);
                assert(ints(a).take(ROW as int) =~= ints(a));
                assert(ints(bcol).take(ROW as int) =~= ints(bcol));
            }
            elements[n] = acc;
            n += 1;
        }
        let result = crate::math::vector::array_wrapper::ArrayWrapper { elements };
        proof {
            let expect = Seq::new(
                COL as nat,
                |j: int| dot_val(v.vals(), Seq::new(ROW as nat, |r: int| self.entries()[r][j])),
            );
            assert(result.vals() =~= expect);
            let expect_int = Seq::new(
                COL as nat,
                |j: int| dot_int(ints(v.vals()), mat_col(ints2(self.entries()), j)),
            );
            assert(ints(result.vals()) =~= expect_int);
        }
        result
    }
}

/// Two matrices with the same grid of entries are the same matrix.
pub proof fn lemma_matrix_entries_injective<T: MatrixElement, const ROW: usize, const COL: usize>(
    m1: Matrix<T, ROW, COL>,
    m2: Matrix<T, ROW, COL>,
)
    requires
        m1.entries() == m2.entries(),
    ensures
        m1 == m2,
{
    assert forall|r: int| 0 <= r < ROW implies m1.elements@[r] == m2.elements@[r] by {
        assert(m1.entries()[r] == m2.entries()[r]);
        assert(m1.elements@[r]@ =~= m2.elements@[r]@);
        assert(m1.elements@[r] =~= m2.elements@[r]);
    }
    assert(m1.elements =~= m2.elements);
}

impl<T: MatrixElement, const ROW: usize, const COL: usize> From<[[T; COL]; ROW]> for Matrix<T, ROW, COL> {
    fn from(value: [[T; COL]; ROW]) -> (r: Self) {
        Matrix { elements: value }
    }
}

impl<T: MatrixElement, const ROW: usize, const COL: usize> vstd::std_specs::convert::FromSpecImpl<[[T; COL]; ROW]> for Matrix<T, ROW, COL> {
    open spec fn obeys_from_spec() -> bool {
        true
    }

    open spec fn from_spec(v: [[T; COL]; ROW]) -> Self {
        Matrix { elements: v }
    }
}

impl<T: MatrixElement, const ROW: usize> From<[Vector1<T>; ROW]> for Matrix<T, ROW, 1> {
    /// Creates the matrix whose rows are the given vectors.
    fn from(value: [Vector1<T>; ROW]) -> (r: Self)
        ensures
            r.entries() == Seq::new(ROW as nat, |i: int| seq![value@[i].x]),
    {
        let r = Self::new(value);
        proof {
            assert(r.entries() =~~= Seq::new(ROW as nat, |i: int| seq![value@[i].x]));
        }
        r
    }
}

impl<T: MatrixElement, const ROW: usize> vstd::std_specs::convert::FromSpecImpl<[Vector1<T>; ROW]> for Matrix<T, ROW, 1> {
    open spec fn obeys_from_spec() -> bool {
        false
    }

    open spec fn from_spec(v: [Vector1<T>; ROW]) -> Self {
        vstd::pervasive::arbitrary()
    }
}

impl<T: MatrixElement, const ROW: usize> From<[Vector2<T>; ROW]> for Matrix<T, ROW, 2> {
    /// Creates the matrix whose rows are the given vectors.
    fn from(value: [Vector2<T>; ROW]) -> (r: Self)
        ensures
            r.entries() == Seq::new(ROW as nat, |i: int| seq![value@[i].x, value@[i].y]),
    {
        let r = Self::new(value);
        proof {
            assert(r.entries() =~~= Seq::new(ROW as nat, |i: int| seq![value@[i].x, value@[i].y]));
        }
        r
    }
}

impl<T: MatrixElement, const ROW: usize> vstd::std_specs::convert::FromSpecImpl<[Vector2<T>; ROW]> for Matrix<T, ROW, 2> {
    open spec fn obeys_from_spec() -> bool {
        false
    }

    open spec fn from_spec(v: [Vector2<T>; ROW]) -> Self {
        vstd::pervasive::arbitrary()
    }
}

impl<T: MatrixElement, const ROW: usize> From<[Vector3<T>; ROW]> for Matrix<T, ROW, 3> {
    /// Creates the matrix whose rows are the given vectors.
    fn from(value: [Vector3<T>; ROW]) -> (r: Self)
        ensures
            r.entries() == Seq::new(ROW as nat, |i: int| seq![value@[i].x, value@[i].y, value@[i].z]),
    {
        let r = Self::new(value);
        proof {
            assert(r.entries() =~~= Seq::new(ROW as nat, |i: int| seq![value@[i].x, value@[i].y, value@[i].z]));
        }
        r
    }
}

impl<T: MatrixElement, const ROW: usize> vstd::std_specs::convert::FromSpecImpl<[Vector3<T>; ROW]> for Matrix<T, ROW, 3> {
    open spec fn obeys_from_spec() -> bool {
        false
    }

    open spec fn from_spec(v: [Vector3<T>; ROW]) -> Self {
        vstd::pervasive::arbitrary()
    }
}

impl<T: MatrixElement, const ROW: usize> From<[Vector4<T>; ROW]> for Matrix<T, ROW, 4> {
    /// Creates the matrix whose rows are the given vectors.
    fn from(value: [Vector4<T>; ROW]) -> (r: Self)
        ensures
            r.entries() == Seq::new(ROW as nat, |i: int| seq![value@[i].x, value@[i].y, value@[i].z, value@[i].w]),
    {
        let r = Self::new(value);
        proof {
            assert(r.entries() =~~= Seq::new(ROW as nat, |i: int| seq![value@[i].x, value@[i].y, value@[i].z, value@[i].w]));
        }
        r
    }
}

impl<T: MatrixElement, const ROW: usize> vstd::std_specs::convert::FromSpecImpl<[Vector4<T>; ROW]> for Matrix<T, ROW, 4> {
    open spec fn obeys_from_spec() -> bool {
        false
    }

    open spec fn from_spec(v: [Vector4<T>; ROW]) -> Self {
        vstd::pervasive::arbitrary()
    }
}

impl<T: MatrixElement + FloatElement> Matrix<T, 2, 2> {
    /// The rotation matrix of the angle `theta`, in radians.
    pub fn rotate(theta: T) -> (r: Self)
        ensures
            r.entries() == seq![
                seq![theta.cos_val(), theta.sin_val()],
                seq![theta.sin_val().neg_val(), theta.cos_val()],
            ],
    {
        proof {
            T::lemma_total();
        }
        let c = theta.cos();
        let s = theta.sin();
        let r = Matrix { elements: [[c, s], [s.neg(), c]] };
        proof {
            assert(r.entries() =~~= seq![
                seq![theta.cos_val(), theta.sin_val()],
                seq![theta.sin_val().neg_val(), theta.cos_val()],
            ]);
        }
        r
    }
}

} // verus!
