//! The mathematical model of vectors.
//!
//! A vector of dimension `D` is modelled by the sequence of the
//! mathematical integers of its elements. The spec functions here say
//! what each operation returns over that model, the `..._ok` predicates
//! say when every intermediate element value is representable, and the
//! proof functions state the algebraic laws the operations obey.

use crate::math::vector::traits::{trunc_div, FloatElement, VectorElement};
use vstd::prelude::*;

verus! {

/// The integer sequence that models a sequence of element values.
pub open spec fn ints<T: VectorElement>(s: Seq<T>) -> Seq<int> {
    s.map_values(|x: T| x.as_int())
}

/// Elementwise sum.
pub open spec fn seq_add(a: Seq<int>, b: Seq<int>) -> Seq<int> {
    Seq::new(a.len(), |i: int| a[i] + b[i])
}

/// Elementwise difference.
pub open spec fn seq_sub(a: Seq<int>, b: Seq<int>) -> Seq<int> {
    Seq::new(a.len(), |i: int| a[i] - b[i])
}

/// Elementwise product.
pub open spec fn seq_mul(a: Seq<int>, b: Seq<int>) -> Seq<int> {
    Seq::new(a.len(), |i: int| a[i] * b[i])
}

/// Elementwise truncating quotient.
pub open spec fn seq_div(a: Seq<int>, b: Seq<int>) -> Seq<int> {
    Seq::new(a.len(), |i: int| trunc_div(a[i], b[i]))
}

/// Elementwise negation.
pub open spec fn seq_neg(a: Seq<int>) -> Seq<int> {
    Seq::new(a.len(), |i: int| -a[i])
}

/// Every element scaled by `s`.
pub open spec fn seq_scale(a: Seq<int>, s: int) -> Seq<int> {
    Seq::new(a.len(), |i: int| a[i] * s)
}

/// Every element divided by `s`, truncating.
pub open spec fn seq_div_scalar(a: Seq<int>, s: int) -> Seq<int> {
    Seq::new(a.len(), |i: int| trunc_div(a[i], s))
}

/// The zero vector of dimension `n`.
pub open spec fn zero_seq(n: nat) -> Seq<int> {
    Seq::new(n, |i: int| 0)
}

/// The dot product of two equally long integer sequences.
pub open spec fn dot_int(a: Seq<int>, b: Seq<int>) -> int
    decreases a.len(),
{
    if a.len() == 0 {
        0
    } else {
        dot_int(a.drop_last(), b.drop_last()) + a.last() * b.last()
    }
}

/// The right-handed cross product of two three-element sequences.
pub open spec fn cross_int(a: Seq<int>, b: Seq<int>) -> Seq<int> {
    seq![
        a[1] * b[2] - a[2] * b[1],
        -(a[0] * b[2] - a[2] * b[0]),
        a[0] * b[1] - a[1] * b[0],
    ]
}

/// The z component of the cross product of two plane vectors.
pub open spec fn cross2_int(a: Seq<int>, b: Seq<int>) -> int {
    a[0] * b[1] - a[1] * b[0]
}

/// Every elementwise sum is representable in `T`.
pub open spec fn add_ok<T: VectorElement>(a: Seq<int>, b: Seq<int>) -> bool {
    forall|i: int| 0 <= i < a.len() ==> T::in_range(#[trigger] (a[i] + b[i]))
}

/// Every elementwise difference is representable in `T`.
pub open spec fn sub_ok<T: VectorElement>(a: Seq<int>, b: Seq<int>) -> bool {
    forall|i: int| 0 <= i < a.len() ==> T::in_range(#[trigger] (a[i] - b[i]))
}

/// Every elementwise product is representable in `T`.
pub open spec fn mul_ok<T: VectorElement>(a: Seq<int>, b: Seq<int>) -> bool {
    forall|i: int| 0 <= i < a.len() ==> T::in_range(#[trigger] (a[i] * b[i]))
}

/// No divisor is zero and every quotient is representable in `T`.
pub open spec fn div_ok<T: VectorElement>(a: Seq<int>, b: Seq<int>) -> bool {
    forall|i: int|
        0 <= i < a.len() ==> b[i] != 0 && T::in_range(#[trigger] trunc_div(a[i], b[i]))
}

/// Every negated element is representable in `T`.
pub open spec fn neg_ok<T: VectorElement>(a: Seq<int>) -> bool {
    forall|i: int| 0 <= i < a.len() ==> T::in_range(#[trigger] (-a[i]))
}

/// Every element scaled by `s` is representable in `T`.
pub open spec fn scale_ok<T: VectorElement>(a: Seq<int>, s: int) -> bool {
    forall|i: int| 0 <= i < a.len() ==> T::in_range(#[trigger] (a[i] * s))
}

/// `s` is nonzero and every truncating quotient is representable in `T`.
pub open spec fn div_scalar_ok<T: VectorElement>(a: Seq<int>, s: int) -> bool {
    s != 0 && forall|i: int| 0 <= i < a.len() ==> T::in_range(#[trigger] trunc_div(a[i], s))
}

/// Every elementwise product and every partial sum of the dot product
/// is representable in `T`.
pub open spec fn dot_ok<T: VectorElement>(a: Seq<int>, b: Seq<int>) -> bool {
    &&& forall|i: int| 0 <= i < a.len() ==> T::in_range(#[trigger] (a[i] * b[i]))
    &&& forall|k: int| 0 <= k <= a.len() ==> T::in_range(dot_int(#[trigger] a.take(k), b.take(k)))
}

/// Every product, difference, and negation in the cross product is
/// representable in `T`.
pub open spec fn cross_ok<T: VectorElement>(a: Seq<int>, b: Seq<int>) -> bool {
    &&& T::in_range(a[1] * b[2])
    &&& T::in_range(a[2] * b[1])
    &&& T::in_range(a[1] * b[2] - a[2] * b[1])
    &&& T::in_range(a[0] * b[2])
    &&& T::in_range(a[2] * b[0])
    &&& T::in_range(a[0] * b[2] - a[2] * b[0])
    &&& T::in_range(-(a[0] * b[2] - a[2] * b[0]))
    &&& T::in_range(a[0] * b[1])
    &&& T::in_range(a[1] * b[0])
    &&& T::in_range(a[0] * b[1] - a[1] * b[0])
}

/// Elementwise sum, at the level of element values.
pub open spec fn add_vals<T: VectorElement>(a: Seq<T>, b: Seq<T>) -> Seq<T> {
    Seq::new(a.len(), |i: int| a[i].add_val(b[i]))
}

/// Elementwise difference, at the level of element values.
pub open spec fn sub_vals<T: VectorElement>(a: Seq<T>, b: Seq<T>) -> Seq<T> {
    Seq::new(a.len(), |i: int| a[i].sub_val(b[i]))
}

/// Elementwise product, at the level of element values.
pub open spec fn mul_vals<T: VectorElement>(a: Seq<T>, b: Seq<T>) -> Seq<T> {
    Seq::new(a.len(), |i: int| a[i].mul_val(b[i]))
}

/// Elementwise quotient, at the level of element values.
pub open spec fn div_vals<T: VectorElement>(a: Seq<T>, b: Seq<T>) -> Seq<T> {
    Seq::new(a.len(), |i: int| a[i].div_val(b[i]))
}

/// Elementwise negation, at the level of element values.
pub open spec fn neg_vals<T: VectorElement>(a: Seq<T>) -> Seq<T> {
    Seq::new(a.len(), |i: int| a[i].neg_val())
}

/// Every element scaled by `s`, at the level of element values.
pub open spec fn scale_vals<T: VectorElement>(a: Seq<T>, s: T) -> Seq<T> {
    Seq::new(a.len(), |i: int| a[i].mul_val(s))
}

/// Every element divided by `s`, at the level of element values.
pub open spec fn div_scalar_vals<T: VectorElement>(a: Seq<T>, s: T) -> Seq<T> {
    Seq::new(a.len(), |i: int| a[i].div_val(s))
}

/// The dot product, at the level of element values: the left fold of
/// the elementwise products, starting from zero.
pub open spec fn dot_val<T: VectorElement>(a: Seq<T>, b: Seq<T>) -> T
    decreases a.len(),
{
    if a.len() == 0 {
        T::zero_spec()
    } else {
        dot_val(a.drop_last(), b.drop_last()).add_val(a.last().mul_val(b.last()))
    }
}

/// The right-handed cross product of two three-element vectors, at the
/// level of element values.
pub open spec fn cross_vals<T: VectorElement>(a: Seq<T>, b: Seq<T>) -> Seq<T> {
    seq![
        a[1].mul_val(b[2]).sub_val(a[2].mul_val(b[1])),
        a[0].mul_val(b[2]).sub_val(a[2].mul_val(b[0])).neg_val(),
        a[0].mul_val(b[1]).sub_val(a[1].mul_val(b[0])),
    ]
}

/// The z component of the cross product of two plane vectors, at the
/// level of element values.
pub open spec fn cross2_val<T: VectorElement>(a: Seq<T>, b: Seq<T>) -> T {
    a[0].mul_val(b[1]).sub_val(a[1].mul_val(b[0]))
}

/// The length of a vector, at the level of element values: the square
/// root of the dot product of the vector with itself.
pub open spec fn length_val<T: FloatElement>(a: Seq<T>) -> T {
    dot_val(a, a).sqrt_val()
}

/// The unsigned angle between two vectors, at the level of element
/// values: the arc cosine of the dot product over the product of the
/// lengths.
pub open spec fn angle_val<T: FloatElement>(a: Seq<T>, b: Seq<T>) -> T {
    dot_val(a, b).div_val(length_val(a).mul_val(length_val(b))).acos_val()
}

/// Extending both sequences by one element folds one more product into
/// the value-level dot product.
pub proof fn lemma_dot_val_take_step<T: VectorElement>(a: Seq<T>, b: Seq<T>, k: int)
    requires
        a.len() == b.len(),
        0 <= k < a.len(),
    ensures
        dot_val(a.take(k + 1), b.take(k + 1)) == dot_val(a.take(k), b.take(k)).add_val(
            a[k].mul_val(b[k]),
        ),
{
    assert(a.take(k + 1).drop_last() =~= a.take(k));
    assert(b.take(k + 1).drop_last() =~= b.take(k));
}


/// Extending both sequences by one element adds one product to the dot
/// product.
pub proof fn lemma_dot_int_take_step(a: Seq<int>, b: Seq<int>, k: int)
    requires
        a.len() == b.len(),
        0 <= k < a.len(),
    ensures
        dot_int(a.take(k + 1), b.take(k + 1)) == dot_int(a.take(k), b.take(k)) + a[k] * b[k],
{
    assert(a.take(k + 1).drop_last() =~= a.take(k));
    assert(b.take(k + 1).drop_last() =~= b.take(k));
}

/// Adding the zero vector changes nothing.
pub proof fn lemma_add_zero(a: Seq<int>)
    ensures
        seq_add(a, zero_seq(a.len())) == a,
{
    assert(seq_add(a, zero_seq(a.len())) =~= a);
}

/// Subtracting a vector from itself gives the zero vector.
pub proof fn lemma_sub_self(a: Seq<int>)
    ensures
        seq_sub(a, a) == zero_seq(a.len()),
{
    assert(seq_sub(a, a) =~= zero_seq(a.len()));
}

/// Adding a vector to its negation gives the zero vector.
pub proof fn lemma_add_neg(a: Seq<int>)
    ensures
        seq_add(a, seq_neg(a)) == zero_seq(a.len()),
{
    assert(seq_add(a, seq_neg(a)) =~= zero_seq(a.len()));
}

/// Vector addition is commutative.
pub proof fn lemma_add_comm(a: Seq<int>, b: Seq<int>)
    requires
        a.len() == b.len(),
    ensures
        seq_add(a, b) == seq_add(b, a),
{
    assert(seq_add(a, b) =~= seq_add(b, a));
}

/// Vector addition is associative.
pub proof fn lemma_add_assoc(a: Seq<int>, b: Seq<int>, c: Seq<int>)
    requires
        a.len() == b.len(),
        b.len() == c.len(),
    ensures
        seq_add(seq_add(a, b), c) == seq_add(a, seq_add(b, c)),
{
    assert(seq_add(seq_add(a, b), c) =~= seq_add(a, seq_add(b, c)));
}

/// Scaling by a nonzero scalar and then dividing by it is the
/// identity: truncating division recovers every element exactly,
/// because each scaled element is an exact multiple of the scalar.
pub proof fn lemma_scale_div_exact(a: Seq<int>, s: int)
    requires
        s != 0,
    ensures
        seq_div_scalar(seq_scale(a, s), s) == a,
{
    assert forall|i: int| 0 <= i < a.len() implies trunc_div(a[i] * s, s) == a[i] by {
        lemma_trunc_div_multiple(a[i], s);
    }
    assert(seq_div_scalar(seq_scale(a, s), s) =~= a);
}

/// Truncating division is exact on multiples.
proof fn lemma_trunc_div_multiple(x: int, s: int)
    requires
        s != 0,
    ensures
        trunc_div(x * s, s) == x,
{
    if x * s >= 0 {
        assert((x * s) / s == x) by (nonlinear_arith)
            requires
                s != 0,
                x * s >= 0,
        ;
    } else {
        assert((-(x * s)) / s == -x) by (nonlinear_arith)
            requires
                s != 0,
                x * s < 0,
        ;
    }
}

/// The cross product is anticommutative.
pub proof fn lemma_cross_anticommutative(a: Seq<int>, b: Seq<int>)
    requires
        a.len() == 3,
        b.len() == 3,
    ensures
        cross_int(a, b) == seq_neg(cross_int(b, a)),
{
    assert(cross_int(a, b) =~= seq_neg(cross_int(b, a)));
}

/// The dot product of a vector with itself is non-negative, and is
/// zero exactly on the zero vector.
pub proof fn lemma_dot_self_zero(a: Seq<int>)
    ensures
        dot_int(a, a) >= 0,
        dot_int(a, a) == 0 <==> a == zero_seq(a.len()),
    decreases a.len(),
{
    if a.len() == 0 {
        assert(a =~= zero_seq(a.len()));
    } else {
        let prefix = a.drop_last();
        lemma_dot_self_zero(prefix);
        assert(a.last() * a.last() >= 0) by (nonlinear_arith);
        assert(a.last() * a.last() == 0 ==> a.last() == 0) by (nonlinear_arith);
        if dot_int(a, a) == 0 {
            assert(dot_int(prefix, prefix) == 0);
            assert(prefix == zero_seq(prefix.len()));
            assert forall|i: int| 0 <= i < a.len() implies a[i] == 0 by {
                if i < a.len() - 1 {
                    assert(a[i] == prefix[i]);
                    assert(prefix[i] == zero_seq(prefix.len())[i]);
                }
            }
            assert(a =~= zero_seq(a.len()));
        }
        if a == zero_seq(a.len()) {
            assert forall|i: int| 0 <= i < prefix.len() implies prefix[i] == 0 by {
                assert(prefix[i] == a[i]);
            }
            assert(prefix =~= zero_seq(prefix.len()));
            assert(a.last() == a[a.len() - 1]);
        }
    }
}

} // verus!
