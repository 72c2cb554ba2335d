//! Geometry types.
use vstd::prelude::*;

verus! {

/// A three-dimensional vector.
#[derive(Debug, Default, Hash, PartialEq, Eq, PartialOrd, Ord)]
pub struct Vector3<T> {
    /// The x component.
    pub x: T,
    /// The y component.
    pub y: T,
    /// The z component.
    pub z: T,
}

/// A rectangle given by its origin (top-left corner) and its size.
#[derive(Debug, Copy, Clone, PartialEq, Eq, Structural)]
pub struct Rect {
    pub x: i32,
    pub y: i32,
    pub width: i32,
    pub height: i32,
}

/// A rectangle as the device takes it: the inclusive bounds of its pixels.
#[derive(Debug, Copy, Clone, PartialEq, Eq, Structural)]
pub struct LcdRect {
    pub left: i32,
    pub top: i32,
    pub right: i32,
    pub bottom: i32,
}

/// The device rectangle covering the pixels of `r`: its right and bottom bounds are the last
/// column and row inside it.
pub fn lcd_rect_from_rect(r: Rect) -> (o: LcdRect)
    requires
        i32::MIN <= r.x + r.width <= i32::MAX,
        i32::MIN <= r.x + r.width - 1,
        i32::MIN <= r.y + r.height <= i32::MAX,
        i32::MIN <= r.y + r.height - 1,
    ensures
        o.left == r.x,
        o.top == r.y,
        o.right == r.x + r.width - 1,
        o.bottom == r.y + r.height - 1,
{
    LcdRect {
        left: r.x,
        top: r.y,
        right: r.x + r.width - 1,
        bottom: r.y + r.height - 1,
    }
}

} // verus!
