//! Swizzle accessors: building a vector by selecting source
//! components, named by the sequence of axis letters selected.
//!
//! Each accessor returns a new vector whose component `i` is the
//! source component named by the i-th letter; a repeated letter simply
//! repeats the element. An accessor exists only on the types whose
//! dimension has every letter it names.

use crate::math::vector::traits::{VectorElement, VectorLike};
use crate::math::vector::vector1::Vector1;
use crate::math::vector::vector2::Vector2;
use crate::math::vector::vector3::Vector3;
use crate::math::vector::vector4::Vector4;
use vstd::prelude::*;

verus! {
impl<T: VectorElement> Vector1<T> {
    /// The `x` component.
    pub fn x(&self) -> (r: T)
        ensures
            r == self.vals()[0],
    {
        self.x
    }

    /// The components `x, x`, in that order.
    pub fn xx(&self) -> (r: Vector2<T>)
        ensures
            r.vals() == seq![self.vals()[0], self.vals()[0]],
    {
        let r = Vector2::<T> { x: self.x, y: self.x };
        proof {
            assert(r.vals() =~= seq![self.vals()[0], self.vals()[0]]);
        }
        r
    }
}

impl<T: VectorElement> Vector2<T> {
    /// The `x` component.
    pub fn x(&self) -> (r: T)
        ensures
            r == self.vals()[0],
    {
        self.x
    }

    /// The `y` component.
    pub fn y(&self) -> (r: T)
        ensures
            r == self.vals()[1],
    {
        self.y
    }

    /// The components `x, x`, in that order.
    pub fn xx(&self) -> (r: Vector2<T>)
        ensures
            r.vals() == seq![self.vals()[0], self.vals()[0]],
    {
        let r = Vector2::<T> { x: self.x, y: self.x };
        proof {
            assert(r.vals() =~= seq![self.vals()[0], self.vals()[0]]);
        }
        r
    }

    /// The components `x, y`, in that order.
    pub fn xy(&self) -> (r: Vector2<T>)
        ensures
            r.vals() == seq![self.vals()[0], self.vals()[1]],
    {
        let r = Vector2::<T> { x: self.x, y: self.y };
        proof {
            assert(r.vals() =~= seq![self.vals()[0], self.vals()[1]]);
        }
        r
    }

    /// The components `y, x`, in that order.
    pub fn yx(&self) -> (r: Vector2<T>)
        ensures
            r.vals() == seq![self.vals()[1], self.vals()[0]],
    {
        let r = Vector2::<T> { x: self.y, y: self.x };
        proof {
            assert(r.vals() =~= seq![self.vals()[1], self.vals()[0]]);
        }
        r
    }
}

impl<T: VectorElement> Vector3<T> {
    /// The `x` component.
    pub fn x(&self) -> (r: T)
        ensures
            r == self.vals()[0],
    {
        self.x
    }

    /// The `y` component.
    pub fn y(&self) -> (r: T)
        ensures
            r == self.vals()[1],
    {
        self.y
    }

    /// The `z` component.
    pub fn z(&self) -> (r: T)
        ensures
            r == self.vals()[2],
    {
        self.z
    }

    /// The components `x, x`, in that order.
    pub fn xx(&self) -> (r: Vector2<T>)
        ensures
            r.vals() == seq![self.vals()[0], self.vals()[0]],
    {
        let r = Vector2::<T> { x: self.x, y: self.x };
        proof {
            assert(r.vals() =~= seq![self.vals()[0], self.vals()[0]]);
        }
        r
    }

    /// The components `x, y`, in that order.
    pub fn xy(&self) -> (r: Vector2<T>)
        ensures
            r.vals() == seq![self.vals()[0], self.vals()[1]],
    {
        let r = Vector2::<T> { x: self.x, y: self.y };
        proof {
            assert(r.vals() =~= seq![self.vals()[0], self.vals()[1]]);
        }
        r
    }

    /// The components `y, x`, in that order.
    pub fn yx(&self) -> (r: Vector2<T>)
        ensures
            r.vals() == seq![self.vals()[1], self.vals()[0]],
    {
        let r = Vector2::<T> { x: self.y, y: self.x };
        proof {
            assert(r.vals() =~= seq![self.vals()[1], self.vals()[0]]);
        }
        r
    }

    /// The components `x, y, z`, in that order.
    pub fn xyz(&self) -> (r: Vector3<T>)
        ensures
            r.vals() == seq![self.vals()[0], self.vals()[1], self.vals()[2]],
    {
        let r = Vector3::<T> { x: self.x, y: self.y, z: self.z };
        proof {
            assert(r.vals() =~= seq![self.vals()[0], self.vals()[1], self.vals()[2]]);
        }
        r
    }

    /// The components `x, z, y`, in that order.
    pub fn xzy(&self) -> (r: Vector3<T>)
        ensures
            r.vals() == seq![self.vals()[0], self.vals()[2], self.vals()[1]],
    {
        let r = Vector3::<T> { x: self.x, y: self.z, z: self.y };
        proof {
            assert(r.vals() =~= seq![self.vals()[0], self.vals()[2], self.vals()[1]]);
        }
        r
    }
}

impl<T: VectorElement> Vector4<T> {
    /// The `x` component.
    pub fn x(&self) -> (r: T)
        ensures
            r == self.vals()[0],
    {
        self.x
    }

    /// The `y` component.
    pub fn y(&self) -> (r: T)
        ensures
            r == self.vals()[1],
    {
        self.y
    }

    /// The `z` component.
    pub fn z(&self) -> (r: T)
        ensures
            r == self.vals()[2],
    {
        self.z
    }

    /// The `w` component.
    pub fn w(&self) -> (r: T)
        ensures
            r == self.vals()[3],
    {
        self.w
    }

    /// The components `x, x`, in that order.
    pub fn xx(&self) -> (r: Vector2<T>)
        ensures
            r.vals() == seq![self.vals()[0], self.vals()[0]],
    {
        let r = Vector2::<T> { x: self.x, y: self.x };
        proof {
            assert(r.vals() =~= seq![self.vals()[0], self.vals()[0]]);
        }
        r
    }

    /// The components `x, y`, in that order.
    pub fn xy(&self) -> (r: Vector2<T>)
        ensures
            r.vals() == seq![self.vals()[0], self.vals()[1]],
    {
        let r = Vector2::<T> { x: self.x, y: self.y };
        proof {
            assert(r.vals() =~= seq![self.vals()[0], self.vals()[1]]);
        }
        r
    }

    /// The components `y, x`, in that order.
    pub fn yx(&self) -> (r: Vector2<T>)
        ensures
            r.vals() == seq![self.vals()[1], self.vals()[0]],
    {
        let r = Vector2::<T> { x: self.y, y: self.x };
        proof {
            assert(r.vals() =~= seq![self.vals()[1], self.vals()[0]]);
        }
        r
    }

    /// The components `x, y, z`, in that order.
    pub fn xyz(&self) -> (r: Vector3<T>)
        ensures
            r.vals() == seq![self.vals()[0], self.vals()[1], self.vals()[2]],
    {
        let r = Vector3::<T> { x: self.x, y: self.y, z: self.z };
        proof {
            assert(r.vals() =~= seq![self.vals()[0], self.vals()[1], self.vals()[2]]);
        }
        r
    }

    /// The components `x, z, y`, in that order.
    pub fn xzy(&self) -> (r: Vector3<T>)
        ensures
            r.vals() == seq![self.vals()[0], self.vals()[2], self.vals()[1]],
    {
        let r = Vector3::<T> { x: self.x, y: self.z, z: self.y };
        proof {
            assert(r.vals() =~= seq![self.vals()[0], self.vals()[2], self.vals()[1]]);
        }
        r
    }

    /// The components `x, y, z, w`, in that order.
    pub fn xyzw(&self) -> (r: Vector4<T>)
        ensures
            r.vals() == seq![self.vals()[0], self.vals()[1], self.vals()[2], self.vals()[3]],
    {
        let r = Vector4::<T> { x: self.x, y: self.y, z: self.z, w: self.w };
        proof {
            assert(r.vals() =~= seq![self.vals()[0], self.vals()[1], self.vals()[2], self.vals()[3]]);
        }
        r
    }

    /// The components `w, z, y, x`, in that order.
    pub fn wzyx(&self) -> (r: Vector4<T>)
        ensures
            r.vals() == seq![self.vals()[3], self.vals()[2], self.vals()[1], self.vals()[0]],
    {
        let r = Vector4::<T> { x: self.w, y: self.z, z: self.y, w: self.x };
        proof {
            assert(r.vals() =~= seq![self.vals()[3], self.vals()[2], self.vals()[1], self.vals()[0]]);
        }
        r
    }
}

} // verus!
