use cadaver::epa::{
    closest_edge, epa_round, next_vertex, seed_polygon, split_edge, EpaStep, EPA_MAX_ROUNDS,
};
use cadaver::gjk::{gjk_round, nearest_simplex, GjkStep, TriangleEdge, GJK_MAX_ROUNDS};
use cadaver::shape::{box_corner, support_vertex, BoxCorner};

#[test]
fn box_corner_follows_direction_signs() {
    assert_eq!(box_corner(true, true), BoxCorner::UpperRight);
    assert_eq!(box_corner(true, false), BoxCorner::LowerRight);
    assert_eq!(box_corner(false, true), BoxCorner::UpperLeft);
    assert_eq!(box_corner(false, false), BoxCorner::LowerLeft);
}

#[test]
fn box_corner_zero_component_takes_non_positive_side() {
    // direction (0, 1): x is not strictly positive
    let dir = (0.0f32, 1.0f32);
    assert_eq!(box_corner(dir.0 > 0.0, dir.1 > 0.0), BoxCorner::UpperLeft);
    // direction (0, 0)
    assert_eq!(box_corner(0.0f32 > 0.0, 0.0f32 > 0.0), BoxCorner::LowerLeft);
}

#[test]
fn support_vertex_picks_largest() {
    assert_eq!(support_vertex(&vec![1, 7, 3, -2]), 1);
    assert_eq!(support_vertex(&vec![-5]), 0);
}

#[test]
fn support_vertex_later_corner_wins_ties() {
    assert_eq!(support_vertex(&vec![4, 9, 2, 9]), 3);
    assert_eq!(support_vertex(&vec![0, 0, 0, 0]), 3);
}

#[test]
fn nearest_simplex_decision_table() {
    assert_eq!(nearest_simplex(false, false), None);
    assert_eq!(nearest_simplex(true, false), Some(TriangleEdge::AB));
    assert_eq!(nearest_simplex(false, true), Some(TriangleEdge::AC));
    assert_eq!(nearest_simplex(true, true), Some(TriangleEdge::AB));
}

#[test]
fn gjk_round_rejects_point_behind_direction() {
    assert_eq!(gjk_round(0, true, false, false), GjkStep::Separated);
    assert_eq!(gjk_round(5, true, true, true), GjkStep::Separated);
}

#[test]
fn gjk_round_detects_enclosed_origin() {
    assert_eq!(gjk_round(0, false, false, false), GjkStep::Enclosed);
    assert_eq!(gjk_round(GJK_MAX_ROUNDS - 1, false, false, false), GjkStep::Enclosed);
}

#[test]
fn gjk_round_refines_until_budget() {
    assert_eq!(gjk_round(0, false, true, false), GjkStep::Refine(TriangleEdge::AB));
    assert_eq!(gjk_round(30, false, false, true), GjkStep::Refine(TriangleEdge::AC));
    assert_eq!(gjk_round(31, false, false, true), GjkStep::Exhausted);
    assert_eq!(GJK_MAX_ROUNDS, 32);
}

#[test]
fn gjk_search_gives_up_after_thirty_two_rounds() {
    let mut rounds = 0u32;
    let mut last = GjkStep::Refine(TriangleEdge::AB);
    while let GjkStep::Refine(_) = last {
        last = gjk_round(rounds, false, true, false);
        rounds += 1;
    }
    assert_eq!(last, GjkStep::Exhausted);
    assert_eq!(rounds, 32);
}

#[test]
fn next_vertex_wraps_around() {
    assert_eq!(next_vertex(0, 3), 1);
    assert_eq!(next_vertex(1, 3), 2);
    assert_eq!(next_vertex(2, 3), 0);
    assert_eq!(next_vertex(0, 1), 0);
}

#[test]
fn closest_edge_picks_smallest_distance() {
    assert_eq!(closest_edge(&vec![30, 10, 20]), 1);
    assert_eq!(closest_edge(&vec![-4, 10, 20]), 0);
}

#[test]
fn closest_edge_later_edge_wins_ties() {
    assert_eq!(closest_edge(&vec![10, 5, 7, 5]), 3);
    assert_eq!(closest_edge(&vec![2, 2, 2]), 2);
}

#[test]
fn epa_round_decisions() {
    assert_eq!(epa_round(0, true), EpaStep::Converged);
    assert_eq!(epa_round(0, false), EpaStep::Expand);
    assert_eq!(epa_round(254, false), EpaStep::Expand);
    assert_eq!(epa_round(255, false), EpaStep::Exhausted);
    assert_eq!(epa_round(255, true), EpaStep::Converged);
    assert_eq!(EPA_MAX_ROUNDS, 256);
}

#[test]
fn split_edge_inserts_before_far_vertex() {
    let mut poly = vec!['a', 'b', 'c'];
    split_edge(&mut poly, 0, 'x');
    assert_eq!(poly, vec!['a', 'x', 'b', 'c']);
    split_edge(&mut poly, 3, 'y');
    assert_eq!(poly, vec!['y', 'a', 'x', 'b', 'c']);
}

#[test]
fn seed_polygon_fixes_winding() {
    assert_eq!(seed_polygon(1, 2, 3, false), vec![1, 2, 3]);
    assert_eq!(seed_polygon(1, 2, 3, true), vec![1, 3, 2]);
}
