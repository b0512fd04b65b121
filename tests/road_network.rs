use paperboy::{create_graph, road_rect, Point, Rect, RoadNetwork, RoadSegment, ValidationError, WallLocation};

fn p(x: i32, y: i32) -> Point {
    Point::new(x, y)
}

#[test]
fn build_keeps_edges_in_order_with_duplicates() {
    let points = vec![p(0, 0), p(1, 0), p(1, 1)];
    let edges = vec![(0, 1), (1, 0), (1, 2), (0, 1)];
    let net = RoadNetwork::build(points, edges).unwrap();
    assert_eq!(net.intersection_count(), 3);
    assert_eq!(net.segment_count(), 4);
    assert_eq!(
        net.iter_segments(),
        vec![(p(0, 0), p(1, 0)), (p(1, 0), p(0, 0)), (p(1, 0), p(1, 1)), (p(0, 0), p(1, 0))]
    );
    assert_eq!(net.segment(1), RoadSegment { a: 1, b: 0 });
    assert_eq!(net.intersection(2), p(1, 1));
}

#[test]
fn build_rejects_unknown_intersection() {
    let r = RoadNetwork::build(vec![p(0, 0), p(1, 0)], vec![(0, 1), (1, 2)]);
    assert_eq!(r.unwrap_err(), ValidationError::UnknownIntersection);
    let r = RoadNetwork::build(vec![p(0, 0)], vec![(5, 0)]);
    assert_eq!(r.unwrap_err(), ValidationError::UnknownIntersection);
}

#[test]
fn build_without_intersections_takes_no_edges() {
    let empty = RoadNetwork::build(vec![], vec![]).unwrap();
    assert_eq!(empty.segment_count(), 0);
    assert!(empty.iter_segments().is_empty());
    assert!(RoadNetwork::build(vec![], vec![(0, 0)]).is_err());
}

#[test]
fn iter_segments_is_restartable() {
    let net = RoadNetwork::build(vec![p(0, 0), p(3, 4)], vec![(0, 1), (1, 1)]).unwrap();
    let first = net.iter_segments();
    let second = net.iter_segments();
    assert_eq!(first, second);
    assert_eq!(first.len(), 2);
    assert_eq!(first[1], (p(3, 4), p(3, 4)));
}

#[test]
fn two_intersections_one_edge() {
    let net = RoadNetwork::build(vec![p(0, 0), p(2, 2)], vec![(0, 1)]).unwrap();
    assert_eq!(net.iter_segments(), vec![(p(0, 0), p(2, 2))]);
    let seg = net.segment(0);
    assert_eq!(seg, RoadSegment { a: 0, b: 1 });
    assert_eq!(net.positions_of(seg), (p(0, 0), p(2, 2)));
}

#[test]
fn town_map_has_nine_intersections_and_twenty_listings() {
    let net = create_graph();
    assert_eq!(net.intersection_count(), 9);
    assert_eq!(net.segment_count(), 20);
    let segments = net.iter_segments();
    assert_eq!(segments[0], (p(0, 0), p(9, 0)));
    assert_eq!(segments[14], (p(9, 2), p(12, 2)));
    assert_eq!(segments[19], (p(12, 2), p(9, 2)));
    for (a, b) in &segments {
        assert!(segments.contains(&(*b, *a)));
    }
}

#[test]
fn road_rect_scales_and_shifts() {
    let r = road_rect(p(0, 0), p(9, 0));
    assert_eq!(r, Rect { center_x: 180 - 225, center_y: 0, width: -360 + 20, height: 20 });
    let r = road_rect(p(0, 4), p(0, 2));
    assert_eq!(r, Rect { center_x: -225, center_y: 120, width: 20, height: 80 + 20 });
}

#[test]
fn walls_surround_the_arena() {
    assert_eq!(WallLocation::Left.position(), (-450, 0));
    assert_eq!(WallLocation::Top.position(), (0, 300));
    assert_eq!(WallLocation::Right.size(), (10, 610));
    assert_eq!(WallLocation::Bottom.size(), (910, 10));
    assert_eq!(
        WallLocation::Bottom.rect(),
        Rect { center_x: 0, center_y: -300, width: 910, height: 10 }
    );
}
