//! A scene of rectangles and circles that can be selected, dragged, and
//! rigidly attached to one another, reached from outside through handles
//! that fail cleanly once the scene is gone.
use vstd::prelude::*;

pub mod fixed;
pub mod node;
pub mod shape;
pub mod context;
pub mod handle;

verus! {

/// The sum of two `u32` values; the sum must fit in `u32`.
pub fn add(a: u32, b: u32) -> (r: u32)
    requires
        a + b <= u32::MAX,
    ensures
        r == a + b,
{
    a + b
}

} // verus!
