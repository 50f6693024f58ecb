//! The area of a rectangle, with its sides given in three ways.
use vstd::prelude::*;

verus! {

/// A rectangle, by its sides in pixels.
#[derive(Debug, Clone, Copy, PartialEq, Eq, Structural)]
pub struct Rectangle {
    pub width: u32,
    pub height: u32,
}

/// The area of a rectangle with sides `width` and `height`. It has to fit.
pub fn area1(width: u32, height: u32) -> (area: u32)
    requires
        width * height <= u32::MAX,
    ensures
        area == width * height,
{
    width * height
}

/// The area of a rectangle whose sides are the two parts of `dimensions`. It
/// has to fit.
pub fn area_tuple(dimensions: (u32, u32)) -> (area: u32)
    requires
        dimensions.0 * dimensions.1 <= u32::MAX,
    ensures
        area == dimensions.0 * dimensions.1,
{
    dimensions.0 * dimensions.1
}

/// The area of `rectangle`. It has to fit.
pub fn area_structs(rectangle: &Rectangle) -> (area: u32)
    requires
        rectangle.width * rectangle.height <= u32::MAX,
    ensures
        area == rectangle.width * rectangle.height,
{
    rectangle.width * rectangle.height
}

/// The area of the sample rectangle, 30 by 50, from two separate numbers.
pub fn main_rectangle1() -> (area: u32)
    ensures
        area == 1500,
{
    let width1: u32 = 30;
    let height1: u32 = 50;
    area1(width1, height1)
}

/// The area of the sample rectangle from a pair of numbers.
pub fn main_rectangle_tuple() -> (area: u32)
    ensures
        area == 1500,
{
    let rect1: (u32, u32) = (30, 50);
    area_tuple(rect1)
}

/// The sample rectangle as a struct, and its area.
pub fn main_rectangle_structs() -> (shown: (Rectangle, u32))
    ensures
        shown.0 == (Rectangle { width: 30, height: 50 }),
        shown.1 == 1500,
{
    let rect1 = Rectangle { width: 30, height: 50 };
    let area = area_structs(&rect1);
    (rect1, area)
}

} // verus!
