use vstd::prelude::*;

verus! {

/// One pixel: three 8-bit channels. Equality is component-wise.
#[derive(Clone, Copy, Debug, PartialEq, Eq, Structural)]
pub struct RGB {
    pub r: u8,
    pub g: u8,
    pub b: u8,
}

/// The color every cell of a freshly constructed canvas holds.
pub open spec fn spec_default_color() -> RGB {
    RGB { r: 31, g: 95, b: 111 }
}

/// Executable twin of `spec_default_color`.
pub fn default_color() -> (c: RGB)
    ensures
        c == spec_default_color(),
{
    RGB { r: 31, g: 95, b: 111 }
}

/// The color a three-component byte sequence denotes.
pub open spec fn spec_color_of(color: Seq<u8>) -> RGB {
    RGB { r: color[0], g: color[1], b: color[2] }
}

} // verus!
