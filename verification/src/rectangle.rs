use vstd::prelude::*;

verus! {

/// A rectangle with unsigned 32-bit sides. Any representable width and
/// height are valid, including zero.
#[derive(Debug)]
pub struct Rectangle {
    pub width: u32,
    pub height: u32,
}

impl Rectangle {
    /// The mathematical area of the rectangle: the product of its width
    /// and height, as an unbounded integer.
    pub open spec fn area_spec(&self) -> int {
        self.width * self.height
    }
}

/// Returns the exact product of the rectangle's width and height.
///
/// Sides whose product does not fit in 32 bits are excluded up front, so
/// the multiplication is proved free of overflow.
pub fn area(rectangle: &Rectangle) -> (r: u32)
    requires
        rectangle.area_spec() <= u32::MAX,
    ensures
        r == rectangle.area_spec(),
{
    rectangle.width * rectangle.height
}

/// Whenever both sides are at most 65535 their product fits in 32 bits,
/// so `area` accepts every such rectangle and returns exactly
/// `width * height`.
pub proof fn lemma_area_of_small_sides(width: u32, height: u32)
    requires
        width <= 65535,
        height <= 65535,
    ensures
        (Rectangle { width, height }).area_spec() == width * height,
        (Rectangle { width, height }).area_spec() <= u32::MAX,
{
    assert(width * height <= 65535 * 65535) by (nonlinear_arith)
        requires
            width <= 65535,
            height <= 65535,
    ;
}

/// A rectangle whose width is zero has area zero, whatever its height.
pub proof fn lemma_area_of_zero_width(rectangle: Rectangle)
    requires
        rectangle.width == 0,
    ensures
        rectangle.area_spec() == 0,
{
}

} // verus!
