//! Free-function forms of the geometric operations.

use crate::math::vector::model::{dot_int, dot_ok, dot_val, ints, sub_vals};
use crate::math::vector::model::{lemma_dot_int_take_step, lemma_dot_val_take_step};
use crate::math::vector::traits::{FloatElement, VectorElement, VectorLike};
use crate::num::Zero;
use vstd::prelude::*;

verus! {

/// The dot product of two vector-shaped values.
pub fn dot<T: VectorElement, const D: usize, A: VectorLike<T, D>, B: VectorLike<T, D>>(
    a: A,
    b: B,
) -> (r: T)
    requires
        dot_ok::<T>(ints(a.vals()), ints(b.vals())),
        a.vals().len() == D,
        b.vals().len() == D,
    ensures
        r == dot_val(a.vals(), b.vals()),
        r.as_int() == dot_int(ints(a.vals()), ints(b.vals())),
{
    let ghost av = a.vals();
    let ghost bv = b.vals();
    let mut result = T::zero();
    proof {
        assert(av.take(0) =~= Seq::<T>::empty());
        assert(bv.take(0) =~= Seq::<T>::empty());
        assert(ints(av).take(0) =~= Seq::<int>::empty());
        assert(ints(bv).take(0) =~= Seq::<int>::empty());
        assert(T::in_range(dot_int(ints(av).take(0), ints(bv).take(0))));
        T::lemma_element_model(result, result);
    }
    let mut i: usize = 0;
    while i < D
        invariant
            0 <= i <= D,
            av == a.vals(),
            bv == b.vals(),
            av.len() == D,
            bv.len() == D,
            dot_ok::<T>(ints(av), ints(bv)),
            result == dot_val(av.take(i as int), bv.take(i as int)),
            result.as_int() == dot_int(ints(av).take(i as int), ints(bv).take(i as int)),
        decreases D - i,
    {
        proof {
            lemma_dot_val_take_step(av, bv, i as int);
            lemma_dot_int_take_step(ints(av), ints(bv), i as int);
            assert(T::in_range(ints(av)[i as int] * ints(bv)[i as int]));
            assert(T::in_range(dot_int(ints(av).take(i as int + 1), ints(bv).take(i as int + 1))));
        }
        let ai = a.get(i);
        let bi = b.get(i);
        result = result.add(ai.mul(bi));
        i += 1;
    }
    proof {
        assert(av.take(D as int) =~= av);
        assert(bv.take(D as int) =~= bv);
        assert(ints(av).take(D as int) =~= ints(av));
        assert(ints(bv).take(D as int) =~= ints(bv));
    }
    result
}

/// The distance between two vector-shaped values: the length of their
/// difference.
pub fn distance<T: FloatElement, const D: usize, A: VectorLike<T, D>, B: VectorLike<T, D>>(
    a: A,
    b: B,
) -> (r: T)
    requires
        a.vals().len() == D,
        b.vals().len() == D,
    ensures
        r == dot_val(sub_vals(a.vals(), b.vals()), sub_vals(a.vals(), b.vals())).sqrt_val(),
{
    proof {
        T::lemma_total();
    }
    let ghost d = sub_vals(a.vals(), b.vals());
    let mut result = T::zero();
    proof {
        assert(d.take(0) =~= Seq::<T>::empty());
        T::lemma_element_model(result, result);
    }
    let mut i: usize = 0;
    while i < D
        invariant
            0 <= i <= D,
            d == sub_vals(a.vals(), b.vals()),
            a.vals().len() == D,
            b.vals().len() == D,
            result == dot_val(d.take(i as int), d.take(i as int)),
        decreases D - i,
    {
        proof {
            T::lemma_total();
            lemma_dot_val_take_step(d, d, i as int);
        }
        let e = a.get(i).sub(b.get(i));
        result = result.add(e.mul(e));
        i += 1;
    }
    proof {
        assert(d.take(D as int) =~= d);
    }
    result.sqrt()
}

} // verus!
