use vstd::prelude::*;
use crate::shape::is_last_min;
use vstd::arithmetic::div_mod::{lemma_mod_self_0, lemma_small_mod};

verus! {

/// Number of expansion rounds after which EPA gives up without a result.
pub const EPA_MAX_ROUNDS: u32 = 256;

/// What one EPA round concluded.
#[derive(Clone, Copy, Debug, PartialEq, Eq, Structural)]
pub enum EpaStep {
    /// The new support point lies within tolerance of the closest edge: the
    /// edge gives the penetration normal and depth.
    Converged,
    /// Insert the new support point before the closest edge's far vertex and
    /// go on.
    Expand,
    /// The round budget is spent without convergence: no usable result.
    Exhausted,
}

/// The vertex that follows `i` in a closed polygon of `n` vertices.
pub open spec fn next_vertex_spec(i: int, n: int) -> int {
    if i + 1 == n {
        0
    } else {
        i + 1
    }
}

/// Index of the far vertex of edge `i`, the edge from vertex `i` to the next
/// one in a closed polygon of `n` vertices.
pub fn next_vertex(i: usize, n: usize) -> (r: usize)
    requires
        i < n,
    ensures
        r == next_vertex_spec(i as int, n as int),
        r < n,
        r as int == (i as int + 1) % (n as int),
{
    if i + 1 == n {
        proof {
            lemma_mod_self_0(n as int);
        }
        0
    } else {
        proof {
            lemma_small_mod((i + 1) as nat, n as nat);
        }
        i + 1
    }
}

/// Seeds the EPA polygon with the GJK triangle `(a, b, c)` in
/// counter-clockwise order: when the triangle as given winds clockwise, its
/// last two points are swapped.
pub fn seed_polygon<T>(a: T, b: T, c: T, clockwise: bool) -> (r: Vec<T>)
    ensures
        r@ == (if clockwise {
            seq![a, c, b]
        } else {
            seq![a, b, c]
        }),
{
    let mut r: Vec<T> = Vec::new();
    r.push(a);
    if clockwise {
        r.push(c);
        r.push(b);
    } else {
        r.push(b);
        r.push(c);
    }
    proof {
        if clockwise {
            assert(r@ =~= seq![a, c, b]);
        } else {
            assert(r@ =~= seq![a, b, c]);
        }
    }
    r
}

/// Index of the polygon edge closest to the origin, given for each edge in
/// scan order (edge `i` runs from vertex `i` to the next one) the order key
/// of its signed distance from the origin.
///
/// The scan keeps the running best with a non-strict comparison, so on
/// exact distance ties the edge scanned last wins.
pub fn closest_edge(distances: &Vec<i64>) -> (r: usize)
    requires
        distances@.len() > 0,
    ensures
        is_last_min(distances@, r as int),
{
    let mut best: usize = 0;
    let mut best_distance: i64 = distances[0];
    let mut i: usize = 1;
    while i < distances.len()
        invariant
            1 <= i <= distances@.len(),
            best < i,
            best_distance == distances@[best as int],
            forall|k: int| 0 <= k < i ==> best_distance <= distances@[k],
            forall|k: int| best < k < i ==> best_distance < distances@[k],
        decreases distances@.len() - i,
    {
        if distances[i] <= best_distance {
            best = i;
            best_distance = distances[i];
        }
        i = i + 1;
    }
    best
}

/// The outcome of round `round` (counted from zero) of EPA, where
/// `converged` tells whether the new support point's projection on the
/// closest edge's normal exceeds that edge's distance by less than the
/// tolerance.
pub open spec fn epa_round_spec(round: u32, converged: bool) -> EpaStep {
    if converged {
        EpaStep::Converged
    } else if round + 1 < EPA_MAX_ROUNDS {
        EpaStep::Expand
    } else {
        EpaStep::Exhausted
    }
}

/// Decides one round of EPA from its convergence test.
pub fn epa_round(round: u32, converged: bool) -> (r: EpaStep)
    requires
        round < EPA_MAX_ROUNDS,
    ensures
        r == epa_round_spec(round, converged),
        round + 1 == EPA_MAX_ROUNDS ==> r != EpaStep::Expand,
{
    if converged {
        EpaStep::Converged
    } else if round + 1 < EPA_MAX_ROUNDS {
        EpaStep::Expand
    } else {
        EpaStep::Exhausted
    }
}

/// Splits edge `edge` of the closed polygon `poly` by inserting `p` just
/// before the edge's far vertex. When the far vertex is the first one, `p`
/// goes to the front, which in a closed polygon is the same place.
pub fn split_edge<T>(poly: &mut Vec<T>, edge: usize, p: T)
    requires
        edge < old(poly)@.len(),
    ensures
        final(poly)@ == old(poly)@.insert(
            next_vertex_spec(edge as int, old(poly)@.len() as int),
            p,
        ),
{
    let at = next_vertex(edge, poly.len());
    poly.insert(at, p);
}

} // verus!
