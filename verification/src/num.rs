//! Additive and multiplicative identities as capability traits.

use vstd::prelude::*;

verus! {

/// A type with a distinguished zero value.
pub trait Zero: Sized {
    /// The zero value, at the specification level.
    spec fn zero_spec() -> Self;

    /// Returns the zero value.
    fn zero() -> (r: Self)
        ensures
            r == Self::zero_spec(),
    ;

    /// Whether this value is the zero value. What the answer means is
    /// stated by each implementation.
    fn is_zero(&self) -> (r: bool);
}

/// A type with a distinguished one value.
pub trait One: Sized {
    /// The one value, at the specification level.
    spec fn one_spec() -> Self;

    /// Returns the one value.
    fn one() -> (r: Self)
        ensures
            r == Self::one_spec(),
    ;
}

impl Zero for i32 {
    open spec fn zero_spec() -> Self {
        0
    }

    fn zero() -> (r: Self) {
        0
    }

    fn is_zero(&self) -> (r: bool)
        ensures
            r == (*self == Self::zero_spec()),
    {
        *self == 0
    }
}

impl One for i32 {
    open spec fn one_spec() -> Self {
        1
    }

    fn one() -> (r: Self) {
        1
    }
}


impl Zero for i8 {
    open spec fn zero_spec() -> Self {
        0
    }

    fn zero() -> (r: Self) {
        0
    }

    fn is_zero(&self) -> (r: bool)
        ensures
            r == (*self == Self::zero_spec()),
    {
        *self == 0
    }
}

impl One for i8 {
    open spec fn one_spec() -> Self {
        1
    }

    fn one() -> (r: Self) {
        1
    }
}

impl Zero for i16 {
    open spec fn zero_spec() -> Self {
        0
    }

    fn zero() -> (r: Self) {
        0
    }

    fn is_zero(&self) -> (r: bool)
        ensures
            r == (*self == Self::zero_spec()),
    {
        *self == 0
    }
}

impl One for i16 {
    open spec fn one_spec() -> Self {
        1
    }

    fn one() -> (r: Self) {
        1
    }
}

impl Zero for i64 {
    open spec fn zero_spec() -> Self {
        0
    }

    fn zero() -> (r: Self) {
        0
    }

    fn is_zero(&self) -> (r: bool)
        ensures
            r == (*self == Self::zero_spec()),
    {
        *self == 0
    }
}

impl One for i64 {
    open spec fn one_spec() -> Self {
        1
    }

    fn one() -> (r: Self) {
        1
    }
}

impl Zero for isize {
    open spec fn zero_spec() -> Self {
        0
    }

    fn zero() -> (r: Self) {
        0
    }

    fn is_zero(&self) -> (r: bool)
        ensures
            r == (*self == Self::zero_spec()),
    {
        *self == 0
    }
}

impl One for isize {
    open spec fn one_spec() -> Self {
        1
    }

    fn one() -> (r: Self) {
        1
    }
}

impl Zero for u8 {
    open spec fn zero_spec() -> Self {
        0
    }

    fn zero() -> (r: Self) {
        0
    }

    fn is_zero(&self) -> (r: bool)
        ensures
            r == (*self == Self::zero_spec()),
    {
        *self == 0
    }
}

impl One for u8 {
    open spec fn one_spec() -> Self {
        1
    }

    fn one() -> (r: Self) {
        1
    }
}

impl Zero for u16 {
    open spec fn zero_spec() -> Self {
        0
    }

    fn zero() -> (r: Self) {
        0
    }

    fn is_zero(&self) -> (r: bool)
        ensures
            r == (*self == Self::zero_spec()),
    {
        *self == 0
    }
}

impl One for u16 {
    open spec fn one_spec() -> Self {
        1
    }

    fn one() -> (r: Self) {
        1
    }
}

impl Zero for u32 {
    open spec fn zero_spec() -> Self {
        0
    }

    fn zero() -> (r: Self) {
        0
    }

    fn is_zero(&self) -> (r: bool)
        ensures
            r == (*self == Self::zero_spec()),
    {
        *self == 0
    }
}

impl One for u32 {
    open spec fn one_spec() -> Self {
        1
    }

    fn one() -> (r: Self) {
        1
    }
}

impl Zero for u64 {
    open spec fn zero_spec() -> Self {
        0
    }

    fn zero() -> (r: Self) {
        0
    }

    fn is_zero(&self) -> (r: bool)
        ensures
            r == (*self == Self::zero_spec()),
    {
        *self == 0
    }
}

impl One for u64 {
    open spec fn one_spec() -> Self {
        1
    }

    fn one() -> (r: Self) {
        1
    }
}

impl Zero for usize {
    open spec fn zero_spec() -> Self {
        0
    }

    fn zero() -> (r: Self) {
        0
    }

    fn is_zero(&self) -> (r: bool)
        ensures
            r == (*self == Self::zero_spec()),
    {
        *self == 0
    }
}

impl One for usize {
    open spec fn one_spec() -> Self {
        1
    }

    fn one() -> (r: Self) {
        1
    }
}

} // verus!
