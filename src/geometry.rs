//! Value types for points, velocities and the table, and the fixed units in
//! which they are measured.

use vstd::prelude::*;

verus! {

/// Length units in one table unit: positions, radii and table sizes count
/// billionths of a table unit.
pub const LENGTH_SCALE: i64 = 1_000_000_000;

/// Time units in one second: a time step counts microseconds.
pub const TIME_SCALE: i64 = 1_000_000;

/// Speed units in one table unit per second: a velocity counts length units
/// per time unit, that is `LENGTH_SCALE / TIME_SCALE` per table unit per second.
pub const SPEED_SCALE: i64 = 1_000;

/// A two-component vector, used as a position (in length units) or as a
/// velocity (in length units per time unit).
#[derive(Clone, Copy, Debug, PartialEq, Eq)]
pub struct Vector2D {
    /// The horizontal component.
    pub x: i64,
    /// The vertical component.
    pub y: i64,
}

impl Vector2D {
    /// Builds a vector from its two components.
    pub fn new(x: i64, y: i64) -> (r: Vector2D)
        ensures
            r.x == x,
            r.y == y,
    {
        Vector2D { x, y }
    }
}

/// Builds a vector from its two components.
pub fn new_vector2d(x: i64, y: i64) -> (r: Vector2D)
    ensures
        r.x == x,
        r.y == y,
{
    Vector2D::new(x, y)
}

/// The rectangular play area, from the origin `(0, 0)` to `(width, height)`.
///
/// Sizes are meant to be positive; that is the caller's to keep, and other
/// values give a well-defined but degenerate motion.
#[derive(Clone, Copy, Debug, PartialEq, Eq)]
pub struct Table {
    /// The extent along the x axis.
    pub width: i64,
    /// The extent along the y axis.
    pub height: i64,
}

impl Table {
    /// Builds a table of the given size; the size is stored as given.
    pub fn new(width: i64, height: i64) -> (r: Table)
        ensures
            r.width == width,
            r.height == height,
    {
        Table { width, height }
    }
}

/// Builds a table of the given size; the size is stored as given.
pub fn new_table(width: i64, height: i64) -> (r: Table)
    ensures
        r.width == width,
        r.height == height,
{
    Table::new(width, height)
}

} // verus!
