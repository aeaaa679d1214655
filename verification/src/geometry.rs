//! Window and monitor geometry: sizes, positions, the monitor's edge zone and
//! the place where the text starts.
//!
//! World coordinates are relative to the monitor's origin; window-local
//! coordinates are relative to the window's top-left pixel. A window-local
//! pixel `(x, y)` of a window at `position` lies at `position + (x, y)` in the
//! world.

use vstd::prelude::*;

verus! {

/// Width of the edge zone of the monitor, in pixels.
pub const BOUNDARY_SIZE: i64 = 100;

/// How far above the monitor's top edge the hidden text is anchored.
pub const OFFSCREEN_MARGIN: i64 = 1000;

/// A width and a height in pixels.
#[derive(Clone, Copy, Debug, PartialEq, Eq, Structural)]
pub struct Size {
    pub width: u32,
    pub height: u32,
}

/// The top-left corner of a window in world coordinates. It may be negative
/// or lie beyond the monitor.
#[derive(Clone, Copy, Debug, PartialEq, Eq, Structural)]
pub struct Position {
    pub x: i32,
    pub y: i32,
}

/// A point in window-local or world coordinates, wide enough for every
/// difference of a monitor coordinate and a window position.
#[derive(Clone, Copy, Debug, PartialEq, Eq, Structural)]
pub struct Point {
    pub x: i64,
    pub y: i64,
}

/// Where the text is anchored in the world.
#[derive(Clone, Copy, Debug, PartialEq, Eq, Structural)]
pub enum Placement {
    /// Horizontally at the middle of the monitor, and far above its top edge:
    /// the text shows only in a window that was moved up there.
    OffscreenAbove,
    /// At the middle of the monitor, shifted to the left by half of
    /// `half_width`, which stands for the half width of the text block.
    MonitorCenter { half_width: u32 },
}

/// Near the left edge of the monitor.
pub open spec fn near_left(world_x: int) -> bool {
    world_x < BOUNDARY_SIZE
}

/// Near the right edge of the monitor.
pub open spec fn near_right(world_x: int, monitor: Size) -> bool {
    world_x >= monitor.width - BOUNDARY_SIZE
}

/// Near the top edge of the monitor.
pub open spec fn near_top(world_y: int) -> bool {
    world_y < BOUNDARY_SIZE
}

/// Near the bottom edge of the monitor.
pub open spec fn near_bottom(world_y: int, monitor: Size) -> bool {
    world_y >= monitor.height - BOUNDARY_SIZE
}

/// Whether a world coordinate lies in the edge zone of the monitor: within
/// `BOUNDARY_SIZE` of at least one of its four edges.
pub open spec fn in_boundary_zone(world_x: int, world_y: int, monitor: Size) -> bool {
    ||| near_left(world_x)
    ||| near_right(world_x, monitor)
    ||| near_top(world_y)
    ||| near_bottom(world_y, monitor)
}

/// The anchor of the text in world coordinates.
pub open spec fn anchor_of(placement: Placement, monitor: Size) -> (int, int) {
    match placement {
        Placement::OffscreenAbove => (
            (monitor.width / 2) as int,
            -monitor.height - OFFSCREEN_MARGIN,
        ),
        Placement::MonitorCenter { half_width } => (
            monitor.width / 2 - half_width / 2,
            (monitor.height / 2) as int,
        ),
    }
}

/// The window-local coordinate at which the text starts: its anchor, seen
/// from a window at `position`. It is not clipped to the window.
pub open spec fn origin_of(placement: Placement, monitor: Size, position: Position) -> (int, int) {
    (anchor_of(placement, monitor).0 - position.x, anchor_of(placement, monitor).1 - position.y)
}

impl Size {
    /// Half of this size in each direction: the size of the window on a
    /// monitor of this size.
    pub fn half(&self) -> (half: Size)
        ensures
            half.width == self.width / 2,
            half.height == self.height / 2,
    {
        Size { width: self.width / 2, height: self.height / 2 }
    }

    /// Number of pixels of a buffer of this size.
    pub open spec fn area(&self) -> int {
        self.width * self.height
    }
}

impl Position {
    /// The origin of the world.
    pub fn origin() -> (origin: Position)
        ensures
            origin.x == 0,
            origin.y == 0,
    {
        Position { x: 0, y: 0 }
    }

    /// The position that a query gave, or the origin where the platform could
    /// not tell.
    pub fn or_origin(queried: Option<Position>) -> (position: Position)
        ensures
            position == match queried {
                Some(p) => p,
                None => (Position { x: 0, y: 0 }),
            },
    {
        match queried {
            Some(p) => p,
            None => Position::origin(),
        }
    }

    /// The world coordinate of the window-local pixel `(x, y)` of a window at
    /// this position.
    pub fn to_world(&self, x: u32, y: u32) -> (world: Point)
        ensures
            world.x == self.x + x,
            world.y == self.y + y,
    {
        Point { x: self.x as i64 + x as i64, y: self.y as i64 + y as i64 }
    }
}

impl Point {
    /// Whether this world coordinate lies in the edge zone of `monitor`.
    pub fn is_in_boundary_zone(&self, monitor: Size) -> (inside: bool)
        ensures
            inside == in_boundary_zone(self.x as int, self.y as int, monitor),
    {
        let right: i64 = monitor.width as i64 - BOUNDARY_SIZE;
        let bottom: i64 = monitor.height as i64 - BOUNDARY_SIZE;
        self.x < BOUNDARY_SIZE || self.x >= right || self.y < BOUNDARY_SIZE || self.y >= bottom
    }
}

impl Placement {
    /// The anchor of the text in world coordinates.
    pub fn anchor(&self, monitor: Size) -> (anchor: Point)
        ensures
            (anchor.x as int, anchor.y as int) == anchor_of(*self, monitor),
    {
        match self {
            Placement::OffscreenAbove => Point {
                x: (monitor.width / 2) as i64,
                y: -(monitor.height as i64) - OFFSCREEN_MARGIN,
            },
            Placement::MonitorCenter { half_width } => Point {
                x: (monitor.width / 2) as i64 - (*half_width / 2) as i64,
                y: (monitor.height / 2) as i64,
            },
        }
    }

    /// The window-local coordinate at which the text starts in a window at
    /// `position`.
    pub fn origin(&self, monitor: Size, position: Position) -> (origin: Point)
        ensures
            (origin.x as int, origin.y as int) == origin_of(*self, monitor, position),
    {
        let anchor = self.anchor(monitor);
        Point { x: anchor.x - position.x as i64, y: anchor.y - position.y as i64 }
    }
}

/// Whether the whole extent of a window lies within `BOUNDARY_SIZE` of one
/// edge of the monitor.
pub open spec fn window_within_zone(size: Size, position: Position, monitor: Size) -> bool {
    ||| position.x + size.width <= BOUNDARY_SIZE
    ||| position.x >= monitor.width - BOUNDARY_SIZE
    ||| position.y + size.height <= BOUNDARY_SIZE
    ||| position.y >= monitor.height - BOUNDARY_SIZE
}

} // verus!
