//! Image storage: a width-by-height grid of color values.

pub mod color;

use vstd::prelude::*;

verus! {

/// A rectangular image: `width * height` color values in row-major
/// order.
pub struct Image<ColorType> {
    width: usize,
    height: usize,
    data: Vec<ColorType>,
}

impl<ColorType> Image<ColorType> {
    /// The width in pixels, at the specification level.
    pub closed spec fn spec_width(&self) -> usize {
        self.width
    }

    /// The height in pixels, at the specification level.
    pub closed spec fn spec_height(&self) -> usize {
        self.height
    }

    /// The pixel data, at the specification level.
    pub closed spec fn spec_data(&self) -> Seq<ColorType> {
        self.data@
    }

    /// The width in pixels.
    pub fn width(&self) -> (r: usize)
        ensures
            r == self.spec_width(),
    {
        self.width
    }

    /// The height in pixels.
    pub fn height(&self) -> (r: usize)
        ensures
            r == self.spec_height(),
    {
        self.height
    }

    /// The pixel data, in row-major order.
    pub fn data(&self) -> (r: &Vec<ColorType>)
        ensures
            r@ == self.spec_data(),
    {
        &self.data
    }

    /// The pixel data of an image held exclusively.
    pub fn data_mut(&mut self) -> (r: &Vec<ColorType>)
        ensures
            *final(self) == *old(self),
            r@ == final(self).spec_data(),
    {
        &self.data
    }
}

} // verus!
