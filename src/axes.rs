//! Remapping of the accelerometer's axes into the display's frame.

use vstd::prelude::*;

verus! {

/// The display-frame axes of a sensor reading `(x, y, z)`: the first
/// in-plane axis is the sensor's `y`, the second is the negated sensor `x`,
/// and the out-of-plane axis is the negated sensor `z`.
pub open spec fn converted(x: int, y: int, z: int) -> (int, int, int) {
    (y, -x, -z)
}

/// Remaps a reading in milli-g from the sensor's axes into the display's.
/// The two negated axes must not hold `i32::MIN`, whose negation has no
/// `i32`.
pub fn convert_axes(x: i32, y: i32, z: i32) -> (r: (i32, i32, i32))
    requires
        x != i32::MIN,
        z != i32::MIN,
    ensures
        (r.0 as int, r.1 as int, r.2 as int) == converted(x as int, y as int, z as int),
{
    (y, -x, -z)
}

/// Remapping twice negates both in-plane axes and keeps the out-of-plane
/// axis: `converted(converted(x, y, z)) == (-x, -y, z)`.
pub proof fn axis_round_trip(x: int, y: int, z: int)
    ensures
        ({
            let (a, b, c) = converted(x, y, z);
            converted(a, b, c)
        }) == (-x, -y, z),
{
}

} // verus!
