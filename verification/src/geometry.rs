//! Position and displacement primitives: arena coordinates derived from
//! marker bounding boxes, and heading vectors between coordinates.

use vstd::prelude::*;

verus! {

/// A 2-D point on the arena, in camera pixel units.
#[derive(Clone, Copy, PartialEq, Eq, Structural, Debug)]
pub struct Coordinate {
    pub x: u32,
    pub y: u32,
}

/// An axis-aligned box in a camera frame, as marker detection reports it.
#[derive(Clone, Copy, PartialEq, Eq, Structural, Debug)]
pub struct BoundingBox {
    pub x_min: u32,
    pub y_min: u32,
    pub x_max: u32,
    pub y_max: u32,
}

/// The arena position that a bounding box stands for: its center point.
pub open spec fn bbox_center(b: BoundingBox) -> Coordinate {
    Coordinate {
        x: (((b.x_min + b.x_max) as int) / 2) as u32,
        y: (((b.y_min + b.y_max) as int) / 2) as u32,
    }
}

impl Coordinate {
    /// Map a detected marker's bounding box to its arena coordinate.
    pub fn from_bbox(b: &BoundingBox) -> (c: Coordinate)
        ensures
            c == bbox_center(*b),
            c.x == ((b.x_min + b.x_max) as int) / 2,
            c.y == ((b.y_min + b.y_max) as int) / 2,
    {
        let x: u32 = ((b.x_min as u64 + b.x_max as u64) / 2) as u32;
        let y: u32 = ((b.y_min as u64 + b.y_max as u64) / 2) as u32;
        Coordinate { x, y }
    }
}

/// A directed displacement between two arena coordinates.
#[derive(Clone, Copy, PartialEq, Eq, Structural, Debug)]
pub struct Vector {
    pub dx: i64,
    pub dy: i64,
}

impl Vector {
    /// The displacement that carries `from` onto `to`.
    pub fn between(from: Coordinate, to: Coordinate) -> (v: Vector)
        ensures
            v.dx == to.x - from.x,
            v.dy == to.y - from.y,
    {
        Vector {
            dx: to.x as i64 - from.x as i64,
            dy: to.y as i64 - from.y as i64,
        }
    }
}

} // verus!
