use vstd::prelude::*;

use crate::geometry::{squared_distance, squared_distance_between, Point};
use crate::selection::SelectionMode;

verus! {

/// One drawn piece of the path, from the previous waypoint `start` to the
/// waypoint `end` that was added after it. `handle` names what the
/// presentation layer drew for it, so that it can be removed later.
#[derive(Clone, Copy, Debug, PartialEq, Eq, Structural)]
pub struct PathSegment {
    pub start: Point,
    pub end: Point,
    pub handle: u64,
}

impl PathSegment {
    /// Twice the midpoint: the sum of the two ends, coordinate by coordinate.
    pub fn midpoint_doubled(&self) -> (r: (i64, i64))
        ensures
            r.0 == self.start.x + self.end.x,
            r.1 == self.start.y + self.end.y,
    {
        (self.start.x as i64 + self.end.x as i64, self.start.y as i64 + self.end.y as i64)
    }

    /// The vector from the new waypoint back to the previous one: the
    /// segment's orientation is the angle `atan2(r.1, r.0)`, which is `0` for
    /// a segment of length zero.
    pub fn direction(&self) -> (r: (i64, i64))
        ensures
            r.0 == self.start.x - self.end.x,
            r.1 == self.start.y - self.end.y,
    {
        (self.start.x as i64 - self.end.x as i64, self.start.y as i64 - self.end.y as i64)
    }

    /// The square of the segment's length.
    pub fn squared_length(&self) -> (r: u128)
        ensures
            r == squared_distance(self.start, self.end),
    {
        squared_distance_between(self.start, self.end)
    }
}

/// What a path holds: its waypoints in the order they were placed, and the
/// segments between consecutive waypoints.
pub struct PathModel {
    pub points: Seq<Point>,
    pub segments: Seq<PathSegment>,
}

/// Each segment joins two consecutive waypoints, and there is one segment
/// fewer than there are waypoints (none when there are none).
pub open spec fn segments_follow_points(m: PathModel) -> bool {
    &&& m.segments.len() == (if m.points.len() == 0 { 0 } else { m.points.len() - 1 })
    &&& forall|i: int|
        0 <= i < m.segments.len() ==> (#[trigger] m.segments[i]).start == m.points[i]
            && m.segments[i].end == m.points[i + 1]
}

/// The path after a click at `p` in mode `mode`, where `handle` names what
/// is drawn for a new segment. Only a click in path mode counts; the first
/// waypoint adds no segment.
pub open spec fn placed(m: PathModel, mode: SelectionMode, p: Point, handle: u64) -> PathModel {
    if mode != SelectionMode::PlacingPath {
        m
    } else if m.points.len() == 0 {
        PathModel { points: m.points.push(p), segments: m.segments }
    } else {
        PathModel {
            points: m.points.push(p),
            segments: m.segments.push(PathSegment { start: m.points.last(), end: p, handle }),
        }
    }
}

/// The path after a sequence of clicks, each a position and the handle for a
/// segment it may add, all in the same mode.
pub open spec fn placed_all(m: PathModel, mode: SelectionMode, clicks: Seq<(Point, u64)>) -> PathModel
    decreases clicks.len(),
{
    if clicks.len() == 0 {
        m
    } else {
        let rest = placed_all(m, mode, clicks.drop_last());
        placed(rest, mode, clicks.last().0, clicks.last().1)
    }
}

/// The handles of a sequence of segments, in order.
pub open spec fn handles_of(segments: Seq<PathSegment>) -> Seq<u64> {
    segments.map_values(|s: PathSegment| s.handle)
}

/// The empty path.
pub open spec fn empty_path() -> PathModel {
    PathModel { points: Seq::empty(), segments: Seq::empty() }
}

/// Starting from an empty path, `n` clicks in path mode leave the `n` clicked
/// positions as waypoints, in order, and `n - 1` segments (none for no click).
pub proof fn lemma_clicks_in_path_mode(clicks: Seq<(Point, u64)>)
    ensures
        placed_all(empty_path(), SelectionMode::PlacingPath, clicks).points == clicks.map_values(
            |c: (Point, u64)| c.0,
        ),
        placed_all(empty_path(), SelectionMode::PlacingPath, clicks).segments.len() == (if clicks.len()
            == 0 {
            0
        } else {
            clicks.len() - 1
        }),
    decreases clicks.len(),
{
    if clicks.len() > 0 {
        let init = clicks.drop_last();
        lemma_clicks_in_path_mode(init);
        assert(clicks.map_values(|c: (Point, u64)| c.0) =~= init.map_values(
            |c: (Point, u64)| c.0,
        ).push(clicks.last().0));
    }
}

/// Clicks in any mode but path mode leave the path as it was.
pub proof fn lemma_clicks_outside_path_mode(m: PathModel, mode: SelectionMode, clicks: Seq<(Point, u64)>)
    requires
        mode != SelectionMode::PlacingPath,
    ensures
        placed_all(m, mode, clicks) == m,
    decreases clicks.len(),
{
    if clicks.len() > 0 {
        lemma_clicks_outside_path_mode(m, mode, clicks.drop_last());
    }
}

/// The course that the player draws for the courier.
#[derive(Debug)]
pub struct PathBuilder {
    points: Vec<Point>,
    segments: Vec<PathSegment>,
}

impl View for PathBuilder {
    type V = PathModel;

    closed spec fn view(&self) -> PathModel {
        PathModel { points: self.points@, segments: self.segments@ }
    }
}

impl PathBuilder {
    /// Segments join consecutive waypoints.
    pub open spec fn wf(&self) -> bool {
        segments_follow_points(self@)
    }

    /// An empty path.
    pub fn new() -> (path: PathBuilder)
        ensures
            path.wf(),
            path@.points.len() == 0,
            path@.segments.len() == 0,
    {
        PathBuilder { points: Vec::new(), segments: Vec::new() }
    }

    /// Adds a waypoint at `p` when `mode` is path mode, and then, if a
    /// waypoint came before it, the segment from that one to `p`, drawn as
    /// `handle`. Returns the new segment. In any other mode nothing changes.
    pub fn add_point(&mut self, mode: SelectionMode, p: Point, handle: u64) -> (added: Option<PathSegment>)
        requires
            old(self).wf(),
        ensures
            final(self).wf(),
            final(self)@ == placed(old(self)@, mode, p, handle),
            added == (if mode == SelectionMode::PlacingPath && old(self)@.points.len() > 0 {
                Some(PathSegment { start: old(self)@.points.last(), end: p, handle })
            } else {
                None
            }),
    {
        if mode != SelectionMode::PlacingPath {
            return None;
        }
        let len = self.points.len();
        if len == 0 {
            self.points.push(p);
            None
        } else {
            let segment = PathSegment { start: self.points[len - 1], end: p, handle };
            self.segments.push(segment);
            self.points.push(p);
            Some(segment)
        }
    }

    /// Empties the path, in any mode, and returns the handles of the
    /// segments it held, in order, for the presentation layer to remove.
    pub fn clear(&mut self) -> (handles: Vec<u64>)
        ensures
            final(self).wf(),
            final(self)@.points.len() == 0,
            final(self)@.segments.len() == 0,
            handles@ == handles_of(old(self)@.segments),
    {
        let mut handles: Vec<u64> = Vec::new();
        let mut i: usize = 0;
        while i < self.segments.len()
            invariant
                i <= self.segments@.len(),
                handles@ == handles_of(self.segments@.take(i as int)),
            decreases self.segments@.len() - i,
        {
            handles.push(self.segments[i].handle);
            i += 1;
            proof {
                assert(self.segments@.take(i as int) =~= self.segments@.take(i - 1).push(
                    self.segments@[i - 1],
                ));
            }
        }
        proof {
            assert(self.segments@.take(i as int) =~= self.segments@);
        }
        self.points.clear();
        self.segments.clear();
        handles
    }

    pub fn points(&self) -> (r: &Vec<Point>)
        ensures
            r@ == self@.points,
    {
        &self.points
    }

    pub fn segments(&self) -> (r: &Vec<PathSegment>)
        ensures
            r@ == self@.segments,
    {
        &self.segments
    }
}

} // verus!
