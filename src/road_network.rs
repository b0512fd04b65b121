use vstd::prelude::*;

use crate::geometry::Point;

verus! {

/// A road between two intersections, named by their handles. The pair is
/// unordered; it is kept as it was given.
#[derive(Clone, Copy, Debug, PartialEq, Eq, Structural)]
pub struct RoadSegment {
    pub a: usize,
    pub b: usize,
}

/// Why a road network could not be built.
#[derive(Clone, Copy, Debug, PartialEq, Eq, Structural)]
pub enum ValidationError {
    /// An edge names an intersection that is not in the network.
    UnknownIntersection,
}

/// What a road network holds: the intersections' positions, indexed by their
/// handles, and the roads in the order they were given.
pub struct RoadNetworkModel {
    pub intersections: Seq<Point>,
    pub segments: Seq<RoadSegment>,
}

/// Every edge names two intersections among the first `n`.
pub open spec fn edges_in_range(n: nat, edges: Seq<(usize, usize)>) -> bool {
    forall|i: int| 0 <= i < edges.len() ==> (#[trigger] edges[i]).0 < n && edges[i].1 < n
}

/// The roads that a list of edges gives, one for each edge, duplicates kept.
pub open spec fn segments_of_edges(edges: Seq<(usize, usize)>) -> Seq<RoadSegment> {
    edges.map_values(|e: (usize, usize)| RoadSegment { a: e.0, b: e.1 })
}

/// Every road joins two intersections of the network.
pub open spec fn segments_in_range(m: RoadNetworkModel) -> bool {
    forall|i: int|
        0 <= i < m.segments.len() ==> (#[trigger] m.segments[i]).a < m.intersections.len()
            && m.segments[i].b < m.intersections.len()
}

/// The two end positions of each road, in the order of the roads.
pub open spec fn segment_positions(m: RoadNetworkModel) -> Seq<(Point, Point)> {
    m.segments.map_values(
        |s: RoadSegment| (m.intersections[s.a as int], m.intersections[s.b as int]),
    )
}

/// The network built from `intersections` and `edges`.
pub open spec fn network_of(intersections: Seq<Point>, edges: Seq<(usize, usize)>) -> RoadNetworkModel {
    RoadNetworkModel { intersections, segments: segments_of_edges(edges) }
}

/// Built from edges that all name known intersections, a network yields one
/// pair of positions per edge, in the order of the edges, duplicates kept:
/// the positions of the two intersections that the edge names.
pub proof fn lemma_built_segments_follow_edges(intersections: Seq<Point>, edges: Seq<(usize, usize)>)
    requires
        edges_in_range(intersections.len(), edges),
    ensures
        segments_in_range(network_of(intersections, edges)),
        segment_positions(network_of(intersections, edges)).len() == edges.len(),
        forall|i: int|
            0 <= i < edges.len() ==> #[trigger] segment_positions(network_of(intersections, edges))[i]
                == (intersections[edges[i].0 as int], intersections[edges[i].1 as int]),
{
    assert forall|i: int| 0 <= i < edges.len() implies #[trigger] segment_positions(
        network_of(intersections, edges),
    )[i] == (intersections[edges[i].0 as int], intersections[edges[i].1 as int]) by {
        assert(edges_in_range(intersections.len(), edges) ==> edges[i].0 < intersections.len());
    }
}

/// The fixed map of roads; read-only once built.
#[derive(Debug)]
pub struct RoadNetwork {
    intersections: Vec<Point>,
    segments: Vec<RoadSegment>,
}

impl View for RoadNetwork {
    type V = RoadNetworkModel;

    closed spec fn view(&self) -> RoadNetworkModel {
        RoadNetworkModel { intersections: self.intersections@, segments: self.segments@ }
    }
}

impl RoadNetwork {
    #[verifier::type_invariant]
    spec fn well_formed(&self) -> bool {
        segments_in_range(self@)
    }

    /// Builds the network whose intersection with handle `i` stands at
    /// `intersections[i]`, with one road for each edge, in order. Fails when
    /// an edge names a handle that no intersection has.
    pub fn build(intersections: Vec<Point>, edges: Vec<(usize, usize)>) -> (r: Result<RoadNetwork, ValidationError>)
        ensures
            r is Ok <==> edges_in_range(intersections@.len(), edges@),
            r matches Ok(net) ==> segments_in_range(net@) && net@ == network_of(intersections@, edges@),
            r matches Err(e) ==> e == ValidationError::UnknownIntersection,
    {
        let n = intersections.len();
        let mut segments: Vec<RoadSegment> = Vec::new();
        let mut i: usize = 0;
        while i < edges.len()
            invariant
                n == intersections@.len(),
                i <= edges@.len(),
                edges_in_range(n as nat, edges@.take(i as int)),
                segments@ == segments_of_edges(edges@.take(i as int)),
            decreases edges@.len() - i,
        {
            let (a, b) = edges[i];
            if a >= n || b >= n {
                assert(!edges_in_range(n as nat, edges@)) by {
                    assert(edges@[i as int] == (a, b));
                }
                return Err(ValidationError::UnknownIntersection);
            }
            segments.push(RoadSegment { a, b });
            proof {
                assert(edges@.take(i + 1) =~= edges@.take(i as int).push(edges@[i as int]));
                assert(segments_of_edges(edges@.take(i + 1)) =~= segments_of_edges(
                    edges@.take(i as int),
                ).push(RoadSegment { a, b }));
                assert forall|j: int| 0 <= j < i + 1 implies (#[trigger] edges@.take(i + 1)[j]).0
                    < n && edges@.take(i + 1)[j].1 < n by {
                    if j < i {
                        assert(edges@.take(i + 1)[j] == edges@.take(i as int)[j]);
                    }
                }
            }
            i += 1;
        }
        proof {
            assert(edges@.take(i as int) =~= edges@);
            lemma_built_segments_follow_edges(intersections@, edges@);
        }
        Ok(RoadNetwork { intersections, segments })
    }

    pub fn intersection_count(&self) -> (r: usize)
        ensures
            r == self@.intersections.len(),
    {
        self.intersections.len()
    }

    pub fn segment_count(&self) -> (r: usize)
        ensures
            r == self@.segments.len(),
    {
        self.segments.len()
    }

    /// The position of the intersection with handle `h`.
    pub fn intersection(&self, h: usize) -> (p: Point)
        requires
            h < self@.intersections.len(),
        ensures
            p == self@.intersections[h as int],
    {
        self.intersections[h]
    }

    /// The road at place `i` of the order in which roads were given.
    pub fn segment(&self, i: usize) -> (s: RoadSegment)
        requires
            i < self@.segments.len(),
        ensures
            s == self@.segments[i as int],
    {
        self.segments[i]
    }

    /// The positions of the two intersections that `segment` joins.
    pub fn positions_of(&self, segment: RoadSegment) -> (r: (Point, Point))
        requires
            segment.a < self@.intersections.len(),
            segment.b < self@.intersections.len(),
        ensures
            r == (self@.intersections[segment.a as int], self@.intersections[segment.b as int]),
    {
        (self.intersections[segment.a], self.intersections[segment.b])
    }

    /// The end positions of every road, in the order the roads were given,
    /// duplicates included.
    pub fn iter_segments(&self) -> (r: Vec<(Point, Point)>)
        ensures
            r@ == segment_positions(self@),
    {
        proof {
            use_type_invariant(self);
        }
        let mut r: Vec<(Point, Point)> = Vec::new();
        let mut i: usize = 0;
        while i < self.segments.len()
            invariant
                segments_in_range(self@),
                i <= self@.segments.len(),
                r@ == segment_positions(self@).take(i as int),
            decreases self@.segments.len() - i,
        {
            let s = self.segments[i];
            r.push(self.positions_of(s));
            proof {
                assert(segment_positions(self@).take(i + 1) =~= segment_positions(self@).take(
                    i as int,
                ).push(segment_positions(self@)[i as int]));
            }
            i += 1;
        }
        proof {
            assert(segment_positions(self@).take(i as int) =~= segment_positions(self@));
        }
        r
    }
}

} // verus!
