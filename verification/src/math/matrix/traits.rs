//! The requirements on matrix elements, and the capability of acting
//! like a matrix.

use crate::math::matrix::model::{ints2, is_grid, mat_identity};
use crate::math::vector::traits::{VectorElement, VectorLike};
use vstd::prelude::*;

verus! {

/// The requirements on the type of matrix elements: the same as on
/// vector elements.
pub trait MatrixElement: VectorElement {

}

impl<T: VectorElement> MatrixElement for T {

}

/// The capability of being read and written as a fixed `ROW` by `COL`
/// grid of elements. Implemented by arrays of vector-like rows and by
/// the matrix type itself.
pub trait MatrixLike<T: MatrixElement, const ROW: usize, const COL: usize> {
    /// The grid of element values this matrix-like value holds, as the
    /// sequence of its rows.
    spec fn entries(&self) -> Seq<Seq<T>>;

    /// The grid always holds `ROW` rows of `COL` elements each.
    proof fn lemma_entries_shape(&self)
        ensures
            is_grid(self.entries(), ROW as nat, COL as nat),
    ;

    /// Reads the element at row `row` and column `col`.
    fn get(&self, row: usize, col: usize) -> (r: T)
        requires
            row < ROW,
            col < COL,
        ensures
            r == self.entries()[row as int][col as int],
    ;

    /// Replaces the element at row `row` and column `col`.
    fn set(&mut self, row: usize, col: usize, value: T)
        requires
            row < ROW,
            col < COL,
        ensures
            final(self).entries() == old(self).entries().update(
                row as int,
                old(self).entries()[row as int].update(col as int, value),
            ),
    ;
}

impl<T: MatrixElement, V: VectorLike<T, COL> + Copy, const ROW: usize, const COL: usize> MatrixLike<
    T,
    ROW,
    COL,
> for [V; ROW] {
    open spec fn entries(&self) -> Seq<Seq<T>> {
        Seq::new(ROW as nat, |r: int| self@[r].vals())
    }

    proof fn lemma_entries_shape(&self) {
        assert forall|r: int| 0 <= r < ROW implies (#[trigger] self.entries()[r]).len()
            == COL by {
            self@[r].lemma_vals_len();
        }
    }

    fn get(&self, row: usize, col: usize) -> (r: T) {
        proof {
            self@[row as int].lemma_vals_len();
        }
        self[row].get(col)
    }

    fn set(&mut self, row: usize, col: usize, value: T) {
        proof {
            self@[row as int].lemma_vals_len();
        }
        let mut v = self[row];
        v.set(col, value);
        self[row] = v;
        proof {
            assert(self.entries() =~= old(self).entries().update(
                row as int,
                old(self).entries()[row as int].update(col as int, value),
            ));
        }
    }
}

/// A square matrix has an identity: one on the diagonal, zero
/// elsewhere.
pub trait SquareMatrix<T: MatrixElement, const N: usize>: MatrixLike<T, N, N> where Self: Sized {
    /// The identity matrix: one on the diagonal, zero elsewhere. The
    /// integer model states it exactly where the element's model is
    /// exact.
    fn identity() -> (r: Self)
        ensures
            T::obeys_model() ==> ints2(r.entries()) == mat_identity(N as nat),
    ;
}

impl<T: MatrixElement, const N: usize> SquareMatrix<T, N> for [[T; N]; N] {
    fn identity() -> (r: Self) {
        let zero = T::zero();
        let one = T::one();
        proof {
            T::lemma_element_model(zero, one);
        }
        let mut m = [[zero; N]; N];
        let mut i: usize = 0;
        while i < N
            invariant
                0 <= i <= N,
                zero == T::zero_spec(),
                one == T::one_spec(),
                T::zero_spec().as_int() == 0,
                T::obeys_model() ==> T::one_spec().as_int() == 1,
                m@.len() == N,
                forall|r: int| 0 <= r < N ==> (#[trigger] m@[r])@.len() == N,
                forall|r: int, c: int|
                    0 <= r < N && 0 <= c < N && r != c ==> (#[trigger] m@[r]@[c]) == zero,
                forall|r: int| 0 <= r < i ==> (#[trigger] m@[r]@[r]) == one,
                forall|r: int| i <= r < N ==> (#[trigger] m@[r]@[r]) == zero,
            decreases N - i,
        {
            let mut row = m[i];
            row[i] = one;
            m[i] = row;
            i += 1;
        }
        proof {
            if T::obeys_model() {
                assert(ints2(m.entries()) =~~= mat_identity(N as nat));
            }
        }
        m
    }
}

} // verus!
