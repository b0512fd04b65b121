use vstd::prelude::*;

use crate::geometry::Point;

verus! {

pub const WALL_THICKNESS: i64 = 10;

pub const LEFT_WALL: i64 = -450;

pub const RIGHT_WALL: i64 = 450;

pub const BOTTOM_WALL: i64 = -300;

pub const TOP_WALL: i64 = 300;

/// World units per map unit when the road network is drawn.
pub const SCALEUP_FACTOR: i64 = 40;

pub const ROAD_THICKNESS: i64 = 20;

/// An axis-aligned rectangle given by its center and its extent. An extent
/// may be negative, which draws the rectangle mirrored.
#[derive(Clone, Copy, Debug, PartialEq, Eq, Structural)]
pub struct Rect {
    pub center_x: i64,
    pub center_y: i64,
    pub width: i64,
    pub height: i64,
}

/// Which side of the arena a wall stands on.
#[derive(Clone, Copy, Debug, PartialEq, Eq, Structural)]
pub enum WallLocation {
    Left,
    Right,
    Bottom,
    Top,
}

pub open spec fn arena_width() -> int {
    RIGHT_WALL - LEFT_WALL
}

pub open spec fn arena_height() -> int {
    TOP_WALL - BOTTOM_WALL
}

/// The rectangle of a wall: each wall runs along its side of the arena and
/// reaches over the corners by its thickness.
pub open spec fn wall_rect(w: WallLocation) -> Rect {
    match w {
        WallLocation::Left => Rect {
            center_x: LEFT_WALL,
            center_y: 0,
            width: WALL_THICKNESS,
            height: (arena_height() + WALL_THICKNESS) as i64,
        },
        WallLocation::Right => Rect {
            center_x: RIGHT_WALL,
            center_y: 0,
            width: WALL_THICKNESS,
            height: (arena_height() + WALL_THICKNESS) as i64,
        },
        WallLocation::Bottom => Rect {
            center_x: 0,
            center_y: BOTTOM_WALL,
            width: (arena_width() + WALL_THICKNESS) as i64,
            height: WALL_THICKNESS,
        },
        WallLocation::Top => Rect {
            center_x: 0,
            center_y: TOP_WALL,
            width: (arena_width() + WALL_THICKNESS) as i64,
            height: WALL_THICKNESS,
        },
    }
}

impl WallLocation {
    /// The center of the wall.
    pub fn position(&self) -> (p: (i64, i64))
        ensures
            p == (wall_rect(*self).center_x, wall_rect(*self).center_y),
    {
        match self {
            WallLocation::Left => (LEFT_WALL, 0),
            WallLocation::Right => (RIGHT_WALL, 0),
            WallLocation::Bottom => (0, BOTTOM_WALL),
            WallLocation::Top => (0, TOP_WALL),
        }
    }

    /// The extent of the wall.
    pub fn size(&self) -> (s: (i64, i64))
        ensures
            s == (wall_rect(*self).width, wall_rect(*self).height),
    {
        let arena_height = TOP_WALL - BOTTOM_WALL;
        let arena_width = RIGHT_WALL - LEFT_WALL;
        match self {
            WallLocation::Left | WallLocation::Right => (WALL_THICKNESS, arena_height + WALL_THICKNESS),
            WallLocation::Bottom | WallLocation::Top => (arena_width + WALL_THICKNESS, WALL_THICKNESS),
        }
    }

    pub fn rect(&self) -> (r: Rect)
        ensures
            r == wall_rect(*self),
    {
        let (center_x, center_y) = self.position();
        let (width, height) = self.size();
        Rect { center_x, center_y, width, height }
    }
}

/// Where the road from `start` to `end` is drawn: the map is scaled up by
/// `SCALEUP_FACTOR` and shifted left by a quarter of the arena's width; the
/// road covers the span between its ends, widened by `ROAD_THICKNESS`.
pub open spec fn road_rect_of(start: Point, end: Point) -> Rect {
    Rect {
        center_x: ((start.x + end.x) * SCALEUP_FACTOR / 2 - arena_width() / 4) as i64,
        center_y: ((start.y + end.y) * SCALEUP_FACTOR / 2) as i64,
        width: ((start.x - end.x) * SCALEUP_FACTOR + ROAD_THICKNESS) as i64,
        height: ((start.y - end.y) * SCALEUP_FACTOR + ROAD_THICKNESS) as i64,
    }
}

/// The rectangle that draws the road from `start` to `end`.
pub fn road_rect(start: Point, end: Point) -> (r: Rect)
    ensures
        r == road_rect_of(start, end),
{
    let sx = start.x as i64;
    let sy = start.y as i64;
    let ex = end.x as i64;
    let ey = end.y as i64;
    let offset_x = (RIGHT_WALL - LEFT_WALL) / 4;
    Rect {
        center_x: (sx * SCALEUP_FACTOR + ex * SCALEUP_FACTOR) / 2 - offset_x,
        center_y: (sy * SCALEUP_FACTOR + ey * SCALEUP_FACTOR) / 2,
        width: sx * SCALEUP_FACTOR - ex * SCALEUP_FACTOR + ROAD_THICKNESS,
        height: sy * SCALEUP_FACTOR - ey * SCALEUP_FACTOR + ROAD_THICKNESS,
    }
}

} // verus!
