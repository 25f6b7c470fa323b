use vstd::prelude::*;

verus! {

/// Number of refinement rounds after which the search gives up and reports
/// no intersection.
pub const GJK_MAX_ROUNDS: u32 = 32;

/// An edge of the GJK triangle `(a, b, c)`, where `a` is the point sampled
/// last and `(b, c)` the segment it was sampled from.
#[derive(Clone, Copy, Debug, PartialEq, Eq, Structural)]
pub enum TriangleEdge {
    /// The edge from the new point `a` to `b`.
    AB,
    /// The edge from the new point `a` to `c`.
    AC,
}

/// What one GJK round concluded.
#[derive(Clone, Copy, Debug, PartialEq, Eq, Structural)]
pub enum GjkStep {
    /// The Minkowski difference does not reach past the origin: no overlap.
    Separated,
    /// The triangle encloses the origin: the shapes overlap.
    Enclosed,
    /// Keep this edge as the next segment, with its outward normal as the
    /// next search direction.
    Refine(TriangleEdge),
    /// The round budget is spent without a decision: treated as no overlap.
    Exhausted,
}

/// The edge of a GJK triangle nearest the origin, or `None` when the
/// triangle encloses the origin.
///
/// `ab_towards_origin` and `ac_towards_origin` tell whether the outward
/// normal of edge `ab`, resp. `ac`, points toward the origin. When both
/// point away the origin is enclosed; otherwise `ab` is preferred.
pub open spec fn nearest_edge_spec(ab_towards_origin: bool, ac_towards_origin: bool) -> Option<
    TriangleEdge,
> {
    if ab_towards_origin {
        Some(TriangleEdge::AB)
    } else if ac_towards_origin {
        Some(TriangleEdge::AC)
    } else {
        None
    }
}

/// Picks the next simplex of a GJK triangle from the orientation of the
/// outward normals of its two non-base edges.
pub fn nearest_simplex(ab_towards_origin: bool, ac_towards_origin: bool) -> (r: Option<
    TriangleEdge,
>)
    ensures
        r == nearest_edge_spec(ab_towards_origin, ac_towards_origin),
        r is None <==> (!ab_towards_origin && !ac_towards_origin),
{
    if !ab_towards_origin && !ac_towards_origin {
        None
    } else if ab_towards_origin {
        Some(TriangleEdge::AB)
    } else {
        Some(TriangleEdge::AC)
    }
}

/// The outcome of round `round` (counted from zero) of the GJK search.
///
/// `behind` tells whether the new point's projection on the search
/// direction is negative. A round whose refinement would need a further
/// round past the budget ends the search.
pub open spec fn gjk_round_spec(
    round: u32,
    behind: bool,
    ab_towards_origin: bool,
    ac_towards_origin: bool,
) -> GjkStep {
    if behind {
        GjkStep::Separated
    } else {
        match nearest_edge_spec(ab_towards_origin, ac_towards_origin) {
            None => GjkStep::Enclosed,
            Some(e) => if round + 1 < GJK_MAX_ROUNDS {
                GjkStep::Refine(e)
            } else {
                GjkStep::Exhausted
            },
        }
    }
}

/// Decides one round of the GJK search from the sign tests on the point
/// sampled in that round.
pub fn gjk_round(round: u32, behind: bool, ab_towards_origin: bool, ac_towards_origin: bool) -> (r:
    GjkStep)
    requires
        round < GJK_MAX_ROUNDS,
    ensures
        r == gjk_round_spec(round, behind, ab_towards_origin, ac_towards_origin),
        round + 1 == GJK_MAX_ROUNDS ==> !(r is Refine),
{
    if behind {
        return GjkStep::Separated;
    }
    match nearest_simplex(ab_towards_origin, ac_towards_origin) {
        None => GjkStep::Enclosed,
        Some(edge) => {
            if round + 1 < GJK_MAX_ROUNDS {
                GjkStep::Refine(edge)
            } else {
                GjkStep::Exhausted
            }
        },
    }
}

} // verus!
