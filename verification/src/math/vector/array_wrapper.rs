//! The array-backed vector for arbitrary dimensions.

use crate::math::vector::model::{
    add_ok, add_vals, div_ok, div_scalar_ok, div_scalar_vals, div_vals, dot_int, dot_ok, dot_val,
    ints, lemma_dot_int_take_step, lemma_dot_val_take_step, mul_ok, mul_vals, neg_ok, neg_vals,
    scale_ok, scale_vals, seq_add, seq_div, seq_div_scalar, seq_mul, seq_neg, seq_scale, seq_sub,
    sub_ok, sub_vals,
};
use crate::math::vector::traits::{trunc_div, FloatElement, VectorElement, VectorLike};
use crate::num::{One, Zero};
use vstd::prelude::*;

verus! {

/// A vector of `DIMENSION` elements backed by one fixed-size array. It
/// offers the same indexed access and the same operations as the
/// named-field vectors, for the dimensions that have no named fields.
#[derive(Clone, Copy, Debug, PartialEq)]
pub struct ArrayWrapper<T: VectorElement, const DIMENSION: usize> {
    pub elements: [T; DIMENSION],
}

impl<T: VectorElement, const DIMENSION: usize> Zero for ArrayWrapper<T, DIMENSION> {
    open spec fn zero_spec() -> Self {
        ArrayWrapper {
            elements: vstd::array::spec_array_fill_for_copy_type::<T, DIMENSION>(T::zero_spec()),
        }
    }

    fn zero() -> (r: Self) {
        let z = T::zero();
        ArrayWrapper { elements: [z; DIMENSION] }
    }

    fn is_zero(&self) -> (r: bool)
        ensures
            T::obeys_model() ==> r == (*self == Self::zero_spec()),
    {
        let mut i: usize = 0;
        let mut all_zero = true;
        proof {
            T::lemma_element_model(T::zero_spec(), T::zero_spec());
        }
        while i < DIMENSION
            invariant
                0 <= i <= DIMENSION,
                T::obeys_model() ==> all_zero == forall|j: int|
                    0 <= j < i ==> self.vals()[j].as_int() == 0,
            decreases DIMENSION - i,
        {
            let e = self.elements[i];
            if !e.eq_val(T::zero()) {
                all_zero = false;
            }
            proof {
                T::lemma_element_model(T::zero_spec(), T::zero_spec());
                assert(self.vals()[i as int] == e);
            }
            i += 1;
        }
        proof {
            let z = Self::zero_spec();
            if T::obeys_model() && all_zero {
                assert forall|j: int| 0 <= j < DIMENSION implies self.elements@[j]
                    == z.elements@[j] by {
                    T::lemma_element_model(self.vals()[j], T::zero_spec());
                }
                assert(self.elements@ =~= z.elements@);
                assert(self.elements =~= z.elements);
            } else if T::obeys_model() {
                let j = choose|j: int| 0 <= j < DIMENSION && self.vals()[j].as_int() != 0;
                assert(z.elements@[j] == T::zero_spec());
                assert(self.elements@[j] != z.elements@[j]);
            }
        }
        all_zero
    }
}

impl<T: VectorElement, const DIMENSION: usize> One for ArrayWrapper<T, DIMENSION> {
    open spec fn one_spec() -> Self {
        ArrayWrapper {
            elements: vstd::array::spec_array_fill_for_copy_type::<T, DIMENSION>(T::one_spec()),
        }
    }

    fn one() -> (r: Self) {
        let o = T::one();
        ArrayWrapper { elements: [o; DIMENSION] }
    }
}

impl<T: VectorElement, const DIMENSION: usize> VectorLike<T, DIMENSION> for ArrayWrapper<
    T,
    DIMENSION,
> {
    open spec fn vals(&self) -> Seq<T> {
        self.elements@
    }

    proof fn lemma_vals_len(&self) {
    }

    fn get(&self, index: usize) -> (r: T) {
        self.elements[index]
    }

    fn set(&mut self, index: usize, value: T) {
        self.elements[index] = value;
    }
}

/// Round trip: the vector built from an array holds exactly the
/// array's elements, so reading every index in range gives the array
/// back; with the constructors' exact contracts, the same components
/// give the same vector through the explicit, tuple and array forms.
pub proof fn lemma_from_array_roundtrip<T: VectorElement, const DIMENSION: usize>(
    v: [T; DIMENSION],
)
    ensures
        forall|i: int|
            0 <= i < DIMENSION ==> <ArrayWrapper<T, DIMENSION> as vstd::std_specs::convert::FromSpec<
                [T; DIMENSION],
            >>::from_spec(v).vals()[i] == v@[i],
{
}

impl<T: VectorElement, const DIMENSION: usize> From<[T; DIMENSION]> for ArrayWrapper<T, DIMENSION> {
    fn from(value: [T; DIMENSION]) -> (r: Self) {
        ArrayWrapper { elements: value }
    }
}

impl<T: VectorElement, const DIMENSION: usize> vstd::std_specs::convert::FromSpecImpl<[T; DIMENSION]> for ArrayWrapper<T, DIMENSION> {
    open spec fn obeys_from_spec() -> bool {
        true
    }

    open spec fn from_spec(v: [T; DIMENSION]) -> Self {
        ArrayWrapper { elements: v }
    }
}

impl<T: VectorElement> From<(T,)> for ArrayWrapper<T, 1> {
    fn from(value: (T,)) -> (r: Self) {
        ArrayWrapper { elements: [value.0] }
    }
}

impl<T: VectorElement> vstd::std_specs::convert::FromSpecImpl<(T,)> for ArrayWrapper<T, 1> {
    open spec fn obeys_from_spec() -> bool {
        true
    }

    open spec fn from_spec(v: (T,)) -> Self {
        ArrayWrapper { elements: [v.0] }
    }
}

impl<T: VectorElement> From<(T, T)> for ArrayWrapper<T, 2> {
    fn from(value: (T, T)) -> (r: Self) {
        ArrayWrapper { elements: [value.0, value.1] }
    }
}

impl<T: VectorElement> vstd::std_specs::convert::FromSpecImpl<(T, T)> for ArrayWrapper<T, 2> {
    open spec fn obeys_from_spec() -> bool {
        true
    }

    open spec fn from_spec(v: (T, T)) -> Self {
        ArrayWrapper { elements: [v.0, v.1] }
    }
}

impl<T: VectorElement> From<(T, T, T)> for ArrayWrapper<T, 3> {
    fn from(value: (T, T, T)) -> (r: Self) {
        ArrayWrapper { elements: [value.0, value.1, value.2] }
    }
}

impl<T: VectorElement> vstd::std_specs::convert::FromSpecImpl<(T, T, T)> for ArrayWrapper<T, 3> {
    open spec fn obeys_from_spec() -> bool {
        true
    }

    open spec fn from_spec(v: (T, T, T)) -> Self {
        ArrayWrapper { elements: [v.0, v.1, v.2] }
    }
}

impl<T: VectorElement> From<(T, T, T, T)> for ArrayWrapper<T, 4> {
    fn from(value: (T, T, T, T)) -> (r: Self) {
        ArrayWrapper { elements: [value.0, value.1, value.2, value.3] }
    }
}

impl<T: VectorElement> vstd::std_specs::convert::FromSpecImpl<(T, T, T, T)> for ArrayWrapper<T, 4> {
    open spec fn obeys_from_spec() -> bool {
        true
    }

    open spec fn from_spec(v: (T, T, T, T)) -> Self {
        ArrayWrapper { elements: [v.0, v.1, v.2, v.3] }
    }
}

impl<T: VectorElement> From<(T, T, T, T, T)> for ArrayWrapper<T, 5> {
    fn from(value: (T, T, T, T, T)) -> (r: Self) {
        ArrayWrapper { elements: [value.0, value.1, value.2, value.3, value.4] }
    }
}

impl<T: VectorElement> vstd::std_specs::convert::FromSpecImpl<(T, T, T, T, T)> for ArrayWrapper<T, 5> {
    open spec fn obeys_from_spec() -> bool {
        true
    }

    open spec fn from_spec(v: (T, T, T, T, T)) -> Self {
        ArrayWrapper { elements: [v.0, v.1, v.2, v.3, v.4] }
    }
}

impl<T: VectorElement> From<(T, T, T, T, T, T)> for ArrayWrapper<T, 6> {
    fn from(value: (T, T, T, T, T, T)) -> (r: Self) {
        ArrayWrapper { elements: [value.0, value.1, value.2, value.3, value.4, value.5] }
    }
}

impl<T: VectorElement> vstd::std_specs::convert::FromSpecImpl<(T, T, T, T, T, T)> for ArrayWrapper<T, 6> {
    open spec fn obeys_from_spec() -> bool {
        true
    }

    open spec fn from_spec(v: (T, T, T, T, T, T)) -> Self {
        ArrayWrapper { elements: [v.0, v.1, v.2, v.3, v.4, v.5] }
    }
}

impl<T: VectorElement> ArrayWrapper<T, 1> {
    /// Creates the vector with the given components.
    pub fn new(element_0: T) -> (r: Self)
        ensures
            r.vals() == seq![element_0],
    {
        let r = ArrayWrapper { elements: [element_0] };
        proof {
            assert(r.vals() =~= seq![element_0]);
        }
        r
    }
}

impl<T: VectorElement> ArrayWrapper<T, 2> {
    /// Creates the vector with the given components.
    pub fn new(element_0: T, element_1: T) -> (r: Self)
        ensures
            r.vals() == seq![element_0, element_1],
    {
        let r = ArrayWrapper { elements: [element_0, element_1] };
        proof {
            assert(r.vals() =~= seq![element_0, element_1]);
        }
        r
    }
}

impl<T: VectorElement> ArrayWrapper<T, 3> {
    /// Creates the vector with the given components.
    pub fn new(element_0: T, element_1: T, element_2: T) -> (r: Self)
        ensures
            r.vals() == seq![element_0, element_1, element_2],
    {
        let r = ArrayWrapper { elements: [element_0, element_1, element_2] };
        proof {
            assert(r.vals() =~= seq![element_0, element_1, element_2]);
        }
        r
    }
}

impl<T: VectorElement> ArrayWrapper<T, 4> {
    /// Creates the vector with the given components.
    pub fn new(element_0: T, element_1: T, element_2: T, element_3: T) -> (r: Self)
        ensures
            r.vals() == seq![element_0, element_1, element_2, element_3],
    {
        let r = ArrayWrapper { elements: [element_0, element_1, element_2, element_3] };
        proof {
            assert(r.vals() =~= seq![element_0, element_1, element_2, element_3]);
        }
        r
    }
}

impl<T: VectorElement> ArrayWrapper<T, 5> {
    /// Creates the vector with the given components.
    pub fn new(element_0: T, element_1: T, element_2: T, element_3: T, element_4: T) -> (r: Self)
        ensures
            r.vals() == seq![element_0, element_1, element_2, element_3, element_4],
    {
        let r = ArrayWrapper { elements: [element_0, element_1, element_2, element_3, element_4] };
        proof {
            assert(r.vals() =~= seq![element_0, element_1, element_2, element_3, element_4]);
        }
        r
    }
}

impl<T: VectorElement> ArrayWrapper<T, 6> {
    /// Creates the vector with the given components.
    pub fn new(element_0: T, element_1: T, element_2: T, element_3: T, element_4: T, element_5: T) -> (r: Self)
        ensures
            r.vals() == seq![element_0, element_1, element_2, element_3, element_4, element_5],
    {
        let r = ArrayWrapper { elements: [element_0, element_1, element_2, element_3, element_4, element_5] };
        proof {
            assert(r.vals() =~= seq![element_0, element_1, element_2, element_3, element_4, element_5]);
        }
        r
    }
}

impl<T: VectorElement> ArrayWrapper<T, 7> {
    /// Creates the vector with the given components.
    pub fn new(element_0: T, element_1: T, element_2: T, element_3: T, element_4: T, element_5: T, element_6: T) -> (r: Self)
        ensures
            r.vals() == seq![element_0, element_1, element_2, element_3, element_4, element_5, element_6],
    {
        let r = ArrayWrapper { elements: [element_0, element_1, element_2, element_3, element_4, element_5, element_6] };
        proof {
            assert(r.vals() =~= seq![element_0, element_1, element_2, element_3, element_4, element_5, element_6]);
        }
        r
    }
}

impl<T: VectorElement> ArrayWrapper<T, 8> {
    /// Creates the vector with the given components.
    pub fn new(element_0: T, element_1: T, element_2: T, element_3: T, element_4: T, element_5: T, element_6: T, element_7: T) -> (r: Self)
        ensures
            r.vals() == seq![element_0, element_1, element_2, element_3, element_4, element_5, element_6, element_7],
    {
        let r = ArrayWrapper { elements: [element_0, element_1, element_2, element_3, element_4, element_5, element_6, element_7] };
        proof {
            assert(r.vals() =~= seq![element_0, element_1, element_2, element_3, element_4, element_5, element_6, element_7]);
        }
        r
    }
}

impl<T: VectorElement, const DIMENSION: usize> ArrayWrapper<T, DIMENSION> {
    /// Elementwise sum with anything vector-shaped.
    pub fn add<V: VectorLike<T, DIMENSION>>(self, rhs: V) -> (r: Self)
        requires
            add_ok::<T>(ints(self.vals()), ints(rhs.vals())),
            rhs.vals().len() == DIMENSION,
        ensures
            r.vals() == add_vals(self.vals(), rhs.vals()),
            ints(r.vals()) == seq_add(ints(self.vals()), ints(rhs.vals())),
    {
        let mut elements = self.elements;
        let mut i: usize = 0;
        while i < DIMENSION
            invariant
                0 <= i <= DIMENSION,
                rhs.vals().len() == DIMENSION,
                add_ok::<T>(ints(self.vals()), ints(rhs.vals())),
                elements@.len() == DIMENSION,
                forall|j: int|
                    0 <= j < i ==> elements@[j] == #[trigger] self.vals()[j].add_val(
                        rhs.vals()[j],
                    ),
                forall|j: int|
                    0 <= j < i ==> (#[trigger] elements@[j]).as_int() == ints(self.vals())[j] + ints(rhs.vals())[j],
            decreases DIMENSION - i,
        {
            let b = rhs.get(i);
            proof {
                assert(T::in_range(ints(self.vals())[i as int] + ints(rhs.vals())[i as int]));
            }
            let e = self.elements[i].add(b);
            elements[i] = e;
            i += 1;
        }
        let r = ArrayWrapper { elements };
        proof {
            assert(r.vals() =~= add_vals(self.vals(), rhs.vals()));
            assert(ints(r.vals()) =~= seq_add(ints(self.vals()), ints(rhs.vals())));
        }
        r
    }

    /// Elementwise sum with anything vector-shaped., assigned in place.
    pub fn add_assign<V: VectorLike<T, DIMENSION>>(&mut self, rhs: V)
        requires
            add_ok::<T>(ints(old(self).vals()), ints(rhs.vals())),
            rhs.vals().len() == DIMENSION,
        ensures
            final(self).vals() == add_vals(old(self).vals(), rhs.vals()),
            ints(final(self).vals()) == seq_add(ints(old(self).vals()), ints(rhs.vals())),
    {
        let v = *self;
        *self = v.add(rhs);
    }

    /// Elementwise difference with anything vector-shaped.
    pub fn sub<V: VectorLike<T, DIMENSION>>(self, rhs: V) -> (r: Self)
        requires
            sub_ok::<T>(ints(self.vals()), ints(rhs.vals())),
            rhs.vals().len() == DIMENSION,
        ensures
            r.vals() == sub_vals(self.vals(), rhs.vals()),
            ints(r.vals()) == seq_sub(ints(self.vals()), ints(rhs.vals())),
    {
        let mut elements = self.elements;
        let mut i: usize = 0;
        while i < DIMENSION
            invariant
                0 <= i <= DIMENSION,
                rhs.vals().len() == DIMENSION,
                sub_ok::<T>(ints(self.vals()), ints(rhs.vals())),
                elements@.len() == DIMENSION,
                forall|j: int|
                    0 <= j < i ==> elements@[j] == #[trigger] self.vals()[j].sub_val(
                        rhs.vals()[j],
                    ),
                forall|j: int|
                    0 <= j < i ==> (#[trigger] elements@[j]).as_int() == ints(self.vals())[j] - ints(rhs.vals())[j],
            decreases DIMENSION - i,
        {
            let b = rhs.get(i);
            proof {
                assert(T::in_range(ints(self.vals())[i as int] - ints(rhs.vals())[i as int]));
            }
            let e = self.elements[i].sub(b);
            elements[i] = e;
            i += 1;
        }
        let r = ArrayWrapper { elements };
        proof {
            assert(r.vals() =~= sub_vals(self.vals(), rhs.vals()));
            assert(ints(r.vals()) =~= seq_sub(ints(self.vals()), ints(rhs.vals())));
        }
        r
    }

    /// Elementwise difference with anything vector-shaped., assigned in place.
    pub fn sub_assign<V: VectorLike<T, DIMENSION>>(&mut self, rhs: V)
        requires
            sub_ok::<T>(ints(old(self).vals()), ints(rhs.vals())),
            rhs.vals().len() == DIMENSION,
        ensures
            final(self).vals() == sub_vals(old(self).vals(), rhs.vals()),
            ints(final(self).vals()) == seq_sub(ints(old(self).vals()), ints(rhs.vals())),
    {
        let v = *self;
        *self = v.sub(rhs);
    }

    /// Elementwise product with anything vector-shaped.
    pub fn mul<V: VectorLike<T, DIMENSION>>(self, rhs: V) -> (r: Self)
        requires
            mul_ok::<T>(ints(self.vals()), ints(rhs.vals())),
            rhs.vals().len() == DIMENSION,
        ensures
            r.vals() == mul_vals(self.vals(), rhs.vals()),
            ints(r.vals()) == seq_mul(ints(self.vals()), ints(rhs.vals())),
    {
        let mut elements = self.elements;
        let mut i: usize = 0;
        while i < DIMENSION
            invariant
                0 <= i <= DIMENSION,
                rhs.vals().len() == DIMENSION,
                mul_ok::<T>(ints(self.vals()), ints(rhs.vals())),
                elements@.len() == DIMENSION,
                forall|j: int|
                    0 <= j < i ==> elements@[j] == #[trigger] self.vals()[j].mul_val(
                        rhs.vals()[j],
                    ),
                forall|j: int|
                    0 <= j < i ==> (#[trigger] elements@[j]).as_int() == ints(self.vals())[j] * ints(rhs.vals())[j],
            decreases DIMENSION - i,
        {
            let b = rhs.get(i);
            proof {
                assert(T::in_range(ints(self.vals())[i as int] * ints(rhs.vals())[i as int]));
            }
            let e = self.elements[i].mul(b);
            elements[i] = e;
            i += 1;
        }
        let r = ArrayWrapper { elements };
        proof {
            assert(r.vals() =~= mul_vals(self.vals(), rhs.vals()));
            assert(ints(r.vals()) =~= seq_mul(ints(self.vals()), ints(rhs.vals())));
        }
        r
    }

    /// Elementwise product with anything vector-shaped., assigned in place.
    pub fn mul_assign<V: VectorLike<T, DIMENSION>>(&mut self, rhs: V)
        requires
            mul_ok::<T>(ints(old(self).vals()), ints(rhs.vals())),
            rhs.vals().len() == DIMENSION,
        ensures
            final(self).vals() == mul_vals(old(self).vals(), rhs.vals()),
            ints(final(self).vals()) == seq_mul(ints(old(self).vals()), ints(rhs.vals())),
    {
        let v = *self;
        *self = v.mul(rhs);
    }

    /// Elementwise quotient with anything vector-shaped, truncating on integer elements.
    pub fn div<V: VectorLike<T, DIMENSION>>(self, rhs: V) -> (r: Self)
        requires
            div_ok::<T>(ints(self.vals()), ints(rhs.vals())),
            rhs.vals().len() == DIMENSION,
        ensures
            r.vals() == div_vals(self.vals(), rhs.vals()),
            ints(r.vals()) == seq_div(ints(self.vals()), ints(rhs.vals())),
    {
        let mut elements = self.elements;
        let mut i: usize = 0;
        while i < DIMENSION
            invariant
                0 <= i <= DIMENSION,
                rhs.vals().len() == DIMENSION,
                div_ok::<T>(ints(self.vals()), ints(rhs.vals())),
                elements@.len() == DIMENSION,
                forall|j: int|
                    0 <= j < i ==> elements@[j] == #[trigger] self.vals()[j].div_val(
                        rhs.vals()[j],
                    ),
                forall|j: int|
                    0 <= j < i ==> (#[trigger] elements@[j]).as_int() == trunc_div(ints(self.vals())[j], ints(rhs.vals())[j]),
            decreases DIMENSION - i,
        {
            let b = rhs.get(i);
            proof {
                assert(T::in_range(trunc_div(ints(self.vals())[i as int], ints(rhs.vals())[i as int])));
            }
            let e = self.elements[i].div(b);
            elements[i] = e;
            i += 1;
        }
        let r = ArrayWrapper { elements };
        proof {
            assert(r.vals() =~= div_vals(self.vals(), rhs.vals()));
            assert(ints(r.vals()) =~= seq_div(ints(self.vals()), ints(rhs.vals())));
        }
        r
    }

    /// Elementwise quotient with anything vector-shaped, truncating on integer elements., assigned in place.
    pub fn div_assign<V: VectorLike<T, DIMENSION>>(&mut self, rhs: V)
        requires
            div_ok::<T>(ints(old(self).vals()), ints(rhs.vals())),
            rhs.vals().len() == DIMENSION,
        ensures
            final(self).vals() == div_vals(old(self).vals(), rhs.vals()),
            ints(final(self).vals()) == seq_div(ints(old(self).vals()), ints(rhs.vals())),
    {
        let v = *self;
        *self = v.div(rhs);
    }

    /// Every element scaled by `scalar`.
    pub fn mul_scalar(self, scalar: T) -> (r: Self)
        requires
            scale_ok::<T>(ints(self.vals()), scalar.as_int()),
        ensures
            r.vals() == scale_vals(self.vals(), scalar),
            ints(r.vals()) == seq_scale(ints(self.vals()), scalar.as_int()),
    {
        let mut elements = self.elements;
        let mut i: usize = 0;
        while i < DIMENSION
            invariant
                0 <= i <= DIMENSION,
                scale_ok::<T>(ints(self.vals()), scalar.as_int()),
                elements@.len() == DIMENSION,
                forall|j: int|
                    0 <= j < i ==> elements@[j] == #[trigger] self.vals()[j].mul_val(
                        scalar,
                    ),
                forall|j: int|
                    0 <= j < i ==> (#[trigger] elements@[j]).as_int() == ints(self.vals())[j] * scalar.as_int(),
            decreases DIMENSION - i,
        {
            proof {
                assert(T::in_range(ints(self.vals())[i as int] * scalar.as_int()));
            }
            let e = self.elements[i].mul(scalar);
            elements[i] = e;
            i += 1;
        }
        let r = ArrayWrapper { elements };
        proof {
            assert(r.vals() =~= scale_vals(self.vals(), scalar));
            assert(ints(r.vals()) =~= seq_scale(ints(self.vals()), scalar.as_int()));
        }
        r
    }

    /// Every element scaled by `scalar`., assigned in place.
    pub fn mul_scalar_assign(&mut self, scalar: T)
        requires
            scale_ok::<T>(ints(old(self).vals()), scalar.as_int()),
        ensures
            final(self).vals() == scale_vals(old(self).vals(), scalar),
            ints(final(self).vals()) == seq_scale(ints(old(self).vals()), scalar.as_int()),
    {
        let v = *self;
        *self = v.mul_scalar(scalar);
    }

    /// Every element divided by `scalar`, truncating on integer elements.
    pub fn div_scalar(self, scalar: T) -> (r: Self)
        requires
            div_scalar_ok::<T>(ints(self.vals()), scalar.as_int()),
        ensures
            r.vals() == div_scalar_vals(self.vals(), scalar),
            ints(r.vals()) == seq_div_scalar(ints(self.vals()), scalar.as_int()),
    {
        let mut elements = self.elements;
        let mut i: usize = 0;
        while i < DIMENSION
            invariant
                0 <= i <= DIMENSION,
                div_scalar_ok::<T>(ints(self.vals()), scalar.as_int()),
                elements@.len() == DIMENSION,
                forall|j: int|
                    0 <= j < i ==> elements@[j] == #[trigger] self.vals()[j].div_val(
                        scalar,
                    ),
                forall|j: int|
                    0 <= j < i ==> (#[trigger] elements@[j]).as_int() == trunc_div(ints(self.vals())[j], scalar.as_int()),
            decreases DIMENSION - i,
        {
            proof {
                assert(T::in_range(trunc_div(ints(self.vals())[i as int], scalar.as_int())));
            }
            let e = self.elements[i].div(scalar);
            elements[i] = e;
            i += 1;
        }
        let r = ArrayWrapper { elements };
        proof {
            assert(r.vals() =~= div_scalar_vals(self.vals(), scalar));
            assert(ints(r.vals()) =~= seq_div_scalar(ints(self.vals()), scalar.as_int()));
        }
        r
    }

    /// Every element divided by `scalar`, truncating on integer elements., assigned in place.
    pub fn div_scalar_assign(&mut self, scalar: T)
        requires
            div_scalar_ok::<T>(ints(old(self).vals()), scalar.as_int()),
        ensures
            final(self).vals() == div_scalar_vals(old(self).vals(), scalar),
            ints(final(self).vals()) == seq_div_scalar(ints(old(self).vals()), scalar.as_int()),
    {
        let v = *self;
        *self = v.div_scalar(scalar);
    }

    /// Elementwise negation.
    pub fn neg(self) -> (r: Self)
        requires
            neg_ok::<T>(ints(self.vals())),
        ensures
            r.vals() == neg_vals(self.vals()),
            ints(r.vals()) == seq_neg(ints(self.vals())),
    {
        let mut elements = self.elements;
        let mut i: usize = 0;
        while i < DIMENSION
            invariant
                0 <= i <= DIMENSION,
                neg_ok::<T>(ints(self.vals())),
                elements@.len() == DIMENSION,
                forall|j: int| 0 <= j < i ==> elements@[j] == #[trigger] self.vals()[j].neg_val(),
                forall|j: int|
                    0 <= j < i ==> (#[trigger] elements@[j]).as_int() == -ints(self.vals())[j],
            decreases DIMENSION - i,
        {
            proof {
                assert(T::in_range(-ints(self.vals())[i as int]));
            }
            let e = self.elements[i].neg();
            elements[i] = e;
            i += 1;
        }
        let r = ArrayWrapper { elements };
        proof {
            assert(r.vals() =~= neg_vals(self.vals()));
            assert(ints(r.vals()) =~= seq_neg(ints(self.vals())));
        }
        r
    }

    /// The sum of the squares of the elements. Exactly the dot product
    /// of the vector with itself.
    pub fn length_squared(&self) -> (r: T)
        requires
            dot_ok::<T>(ints(self.vals()), ints(self.vals())),
        ensures
            r == dot_val(self.vals(), self.vals()),
            r.as_int() == dot_int(ints(self.vals()), ints(self.vals())),
    {
        let v = *self;
        v.dot(v)
    }

    /// The dot product with anything vector-shaped.
    pub fn dot<V: VectorLike<T, DIMENSION>>(&self, rhs: V) -> (r: T)
        requires
            dot_ok::<T>(ints(self.vals()), ints(rhs.vals())),
            rhs.vals().len() == DIMENSION,
        ensures
            r == dot_val(self.vals(), rhs.vals()),
            r.as_int() == dot_int(ints(self.vals()), ints(rhs.vals())),
    {
        let ghost a = self.vals();
        let ghost b = rhs.vals();
        let mut result = T::zero();
        proof {
            assert(a.take(0) =~= Seq::<T>::empty());
            assert(b.take(0) =~= Seq::<T>::empty());
            assert(ints(a).take(0) =~= Seq::<int>::empty());
            assert(ints(b).take(0) =~= Seq::<int>::empty());
            assert(T::in_range(dot_int(ints(a).take(0), ints(b).take(0))));
            T::lemma_element_model(result, result);
        }
        let mut i: usize = 0;
        while i < DIMENSION
            invariant
                0 <= i <= DIMENSION,
                a == self.vals(),
                b == rhs.vals(),
                a.len() == DIMENSION,
                b.len() == DIMENSION,
                dot_ok::<T>(ints(a), ints(b)),
                result == dot_val(a.take(i as int), b.take(i as int)),
                result.as_int() == dot_int(ints(a).take(i as int), ints(b).take(i as int)),
            decreases DIMENSION - i,
        {
            let bi = rhs.get(i);
            proof {
                lemma_dot_val_take_step(a, b, i as int);
                lemma_dot_int_take_step(ints(a), ints(b), i as int);
                assert(T::in_range(ints(a)[i as int] * ints(b)[i as int]));
                assert(T::in_range(dot_int(ints(a).take(i as int + 1), ints(b).take(i as int + 1))));
            }
            result = result.add(self.elements[i].mul(bi));
            i += 1;
        }
        proof {
            assert(a.take(DIMENSION as int) =~= a);
            assert(b.take(DIMENSION as int) =~= b);
            assert(ints(a).take(DIMENSION as int) =~= ints(a));
            assert(ints(b).take(DIMENSION as int) =~= ints(b));
        }
        result
    }
}

impl<T: FloatElement, const DIMENSION: usize> ArrayWrapper<T, DIMENSION> {
    /// The length: the square root of the sum of the squared elements.
    pub fn length(&self) -> (r: T)
        ensures
            r == dot_val(self.vals(), self.vals()).sqrt_val(),
    {
        proof {
            T::lemma_total();
        }
        self.length_squared().sqrt()
    }

    /// The vector scaled to length one, by multiplying every element
    /// with the reciprocal of the length; the zero vector stays the
    /// zero vector.
    pub fn normalized(&self) -> (r: Self)
        ensures
            r == Self::zero_spec() || r.vals() == scale_vals(
                self.vals(),
                T::one_spec().div_val(dot_val(self.vals(), self.vals()).sqrt_val()),
            ),
            T::obeys_model() ==> (dot_val(self.vals(), self.vals()).sqrt_val().as_int() == 0
                ==> r == Self::zero_spec()),
            T::obeys_model() ==> (dot_val(self.vals(), self.vals()).sqrt_val().as_int() != 0
                ==> r.vals() == scale_vals(
                self.vals(),
                T::one_spec().div_val(dot_val(self.vals(), self.vals()).sqrt_val()),
            )),
    {
        proof {
            T::lemma_total();
        }
        let len = self.length();
        if !len.eq_val(T::zero()) {
            proof {
                T::lemma_element_model(T::zero_spec(), T::zero_spec());
            }
            let one_over_len = T::one().div_total(len);
            let v = *self;
            v.mul_scalar(one_over_len)
        } else {
            proof {
                T::lemma_element_model(T::zero_spec(), T::zero_spec());
            }
            Self::zero()
        }
    }

    /// Scales the vector to length one in place; the zero vector stays
    /// the zero vector.
    pub fn normalize(&mut self)
        ensures
            *final(self) == Self::zero_spec() || final(self).vals() == scale_vals(
                old(self).vals(),
                T::one_spec().div_val(dot_val(old(self).vals(), old(self).vals()).sqrt_val()),
            ),
            T::obeys_model() ==> (dot_val(old(self).vals(), old(self).vals()).sqrt_val().as_int()
                == 0 ==> *final(self) == Self::zero_spec()),
            T::obeys_model() ==> (dot_val(old(self).vals(), old(self).vals()).sqrt_val().as_int()
                != 0 ==> final(self).vals() == scale_vals(
                old(self).vals(),
                T::one_spec().div_val(dot_val(old(self).vals(), old(self).vals()).sqrt_val()),
            )),
    {
        let v = *self;
        *self = v.normalized();
    }

    /// The distance to `rhs`: the length of the difference.
    pub fn distance(&self, rhs: Self) -> (r: T)
        ensures
            r == dot_val(sub_vals(self.vals(), rhs.vals()), sub_vals(self.vals(), rhs.vals()))
                .sqrt_val(),
    {
        proof {
            T::lemma_total();
        }
        let v = *self;
        let diff = v.sub(rhs);
        diff.length()
    }
}


} // verus!
