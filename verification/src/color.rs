//! Plain RGB colors, and the fixed palette the renderer uses.

use vstd::prelude::*;

verus! {

/// An RGB color as three plain channel values.
#[derive(Clone, Copy, Debug, PartialEq, Eq, Structural)]
pub struct Rgb {
    pub r: u8,
    pub g: u8,
    pub b: u8,
}

/// Background of cells whose tile blocks sight.
pub open spec fn spec_dark_wall() -> Rgb {
    Rgb { r: 0, g: 0, b: 100 }
}

/// Background of cells whose tile does not block sight.
pub open spec fn spec_dark_ground() -> Rgb {
    Rgb { r: 50, g: 50, b: 150 }
}

pub open spec fn spec_white() -> Rgb {
    Rgb { r: 255, g: 255, b: 255 }
}

pub open spec fn spec_yellow() -> Rgb {
    Rgb { r: 255, g: 255, b: 0 }
}

pub open spec fn spec_black() -> Rgb {
    Rgb { r: 0, g: 0, b: 0 }
}

pub fn dark_wall() -> (c: Rgb)
    ensures
        c == spec_dark_wall(),
{
    Rgb { r: 0, g: 0, b: 100 }
}

pub fn dark_ground() -> (c: Rgb)
    ensures
        c == spec_dark_ground(),
{
    Rgb { r: 50, g: 50, b: 150 }
}

pub fn white() -> (c: Rgb)
    ensures
        c == spec_white(),
{
    Rgb { r: 255, g: 255, b: 255 }
}

pub fn yellow() -> (c: Rgb)
    ensures
        c == spec_yellow(),
{
    Rgb { r: 255, g: 255, b: 0 }
}

pub fn black() -> (c: Rgb)
    ensures
        c == spec_black(),
{
    Rgb { r: 0, g: 0, b: 0 }
}

} // verus!
