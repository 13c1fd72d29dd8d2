//! Where monitors lie on the virtual screen.

use vstd::prelude::*;

verus! {

/// A monitor's place and size on the virtual screen, in physical pixels.
#[derive(Clone, Copy, Debug, PartialEq, Eq, Structural)]
pub struct MonitorBounds {
    pub x: i32,
    pub y: i32,
    pub width: u32,
    pub height: u32,
}

/// Whether two monitors are the same one: the same place and the same size.
pub fn same_monitor(left: &MonitorBounds, right: &MonitorBounds) -> (b: bool)
    ensures
        b == (left.x == right.x && left.y == right.y && left.width == right.width && left.height
            == right.height),
{
    left.x == right.x && left.y == right.y && left.width == right.width && left.height
        == right.height
}

} // verus!
