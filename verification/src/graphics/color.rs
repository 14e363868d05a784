//! A color of four eight-bit channels.

use vstd::prelude::*;

verus! {

/// A color as red, green, blue and alpha channels of one byte each.
#[derive(Debug, Clone, Copy, PartialEq, Eq, Default)]
pub struct Color32 {
    pub r: u8,
    pub g: u8,
    pub b: u8,
    pub a: u8,
}

} // verus!
