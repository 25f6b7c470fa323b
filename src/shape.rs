use vstd::prelude::*;

verus! {

/// One of the four corners of an axis-aligned box.
#[derive(Clone, Copy, Debug, PartialEq, Eq, Structural)]
pub enum BoxCorner {
    /// Largest x, largest y.
    UpperRight,
    /// Largest x, smallest y.
    LowerRight,
    /// Smallest x, largest y.
    UpperLeft,
    /// Smallest x, smallest y.
    LowerLeft,
}

/// The corner of an axis-aligned box that is farthest along a direction.
///
/// Each axis is decided on its own by a strict sign test: `x_positive` is
/// `dir.x > 0`, `y_positive` is `dir.y > 0`. A zero component therefore
/// selects the corner on the non-positive side of that axis.
pub open spec fn box_corner_spec(x_positive: bool, y_positive: bool) -> BoxCorner {
    if x_positive {
        if y_positive { BoxCorner::UpperRight } else { BoxCorner::LowerRight }
    } else {
        if y_positive { BoxCorner::UpperLeft } else { BoxCorner::LowerLeft }
    }
}

/// Support corner of an axis-aligned box, from the strict signs of the
/// direction's components.
pub fn box_corner(x_positive: bool, y_positive: bool) -> (r: BoxCorner)
    ensures
        r == box_corner_spec(x_positive, y_positive),
{
    match (x_positive, y_positive) {
        (true, true) => BoxCorner::UpperRight,
        (true, false) => BoxCorner::LowerRight,
        (false, true) => BoxCorner::UpperLeft,
        (false, false) => BoxCorner::LowerLeft,
    }
}

/// `i` holds a largest key, and no later index holds one as large: among
/// equal maxima the last one wins.
pub open spec fn is_last_max(keys: Seq<i64>, i: int) -> bool {
    &&& 0 <= i < keys.len()
    &&& forall|k: int| 0 <= k < keys.len() ==> keys[k] <= keys[i]
    &&& forall|k: int| i < k < keys.len() ==> keys[k] < keys[i]
}

/// `i` holds a smallest key, and no later index holds one as small: among
/// equal minima the last one wins.
pub open spec fn is_last_min(keys: Seq<i64>, i: int) -> bool {
    &&& 0 <= i < keys.len()
    &&& forall|k: int| 0 <= k < keys.len() ==> keys[i] <= keys[k]
    &&& forall|k: int| i < k < keys.len() ==> keys[i] < keys[k]
}

/// Index of the support vertex of a convex polygon, given for each vertex
/// in scan order the order key of its dot product with the direction.
///
/// The scan keeps the running best with a non-strict comparison, so on
/// exact ties the vertex scanned last wins.
pub fn support_vertex(dots: &Vec<i64>) -> (r: usize)
    requires
        dots@.len() > 0,
    ensures
        is_last_max(dots@, r as int),
{
    let mut best: usize = 0;
    let mut best_dot: i64 = dots[0];
    let mut i: usize = 1;
    while i < dots.len()
        invariant
            1 <= i <= dots@.len(),
            best < i,
            best_dot == dots@[best as int],
            forall|k: int| 0 <= k < i ==> dots@[k] <= best_dot,
            forall|k: int| best < k < i ==> dots@[k] < best_dot,
        decreases dots@.len() - i,
    {
        if dots[i] >= best_dot {
            best = i;
            best_dot = dots[i];
        }
        i = i + 1;
    }
    best
}

} // verus!
