use vstd::prelude::*;

use crate::geometry::Point;
use crate::road_network::{network_of, RoadNetwork};

verus! {

/// The intersections of the town map, by handle:
///
/// ```text
/// 0--------6
/// |        |
/// 1---7    5--8
/// |   |    |
/// 2---3----4
/// ```
pub open spec fn town_intersections() -> Seq<Point> {
    seq![
        Point { x: 0, y: 0 },
        Point { x: 0, y: 2 },
        Point { x: 0, y: 4 },
        Point { x: 4, y: 4 },
        Point { x: 9, y: 4 },
        Point { x: 9, y: 2 },
        Point { x: 9, y: 0 },
        Point { x: 4, y: 2 },
        Point { x: 12, y: 2 },
    ]
}

/// The roads of the town map: each of its ten roads is listed once from each
/// of its two ends, and both listings are kept.
pub open spec fn town_edges() -> Seq<(usize, usize)> {
    seq![
        (0, 6), (0, 1), (1, 0), (1, 2), (1, 7), (2, 1), (2, 3), (3, 2), (3, 4), (3, 7),
        (4, 3), (4, 5), (5, 4), (5, 6), (5, 8), (6, 0), (6, 5), (7, 1), (7, 3), (8, 5),
    ]
}

/// Builds the town map: nine intersections and twenty directed listings of
/// its roads, as `town_intersections` and `town_edges` give them.
pub fn create_graph() -> (net: RoadNetwork)
    ensures
        net@ == network_of(town_intersections(), town_edges()),
{
    let intersections: Vec<Point> = vec![
        Point::new(0, 0),
        Point::new(0, 2),
        Point::new(0, 4),
        Point::new(4, 4),
        Point::new(9, 4),
        Point::new(9, 2),
        Point::new(9, 0),
        Point::new(4, 2),
        Point::new(12, 2),
    ];
    let (a, b, c, d, e, f, g, h, i): (usize, usize, usize, usize, usize, usize, usize, usize, usize) = (
        0,
        1,
        2,
        3,
        4,
        5,
        6,
        7,
        8,
    );
    let edges: Vec<(usize, usize)> = vec![
        (a, g), (a, b), (b, a), (b, c), (b, h), (c, b), (c, d), (d, c), (d, e), (d, h),
        (e, d), (e, f), (f, e), (f, g), (f, i), (g, a), (g, f), (h, b), (h, d), (i, f),
    ];
    proof {
        assert(intersections@ =~= town_intersections());
        assert(edges@ =~= town_edges());
    }
    let built = RoadNetwork::build(intersections, edges);
    built.unwrap()
}

} // verus!
