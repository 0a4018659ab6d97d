//! Point-in-region containment.
//!
//! A region is a set of rings, each ring a closed loop of 2-D fixed-point
//! coordinates tagged as an outer boundary or a hole.  A point is contained
//! by the region when it lies inside (or on) at least one outer ring and
//! does not lie inside (or on) any hole ring.  Ring containment follows the
//! classic even-odd (ray casting) rule, with points that fall exactly on a
//! ring edge counting as inside: district boundaries are shared edges, and
//! a point on a shared edge belongs to both districts rather than neither.
//!
//! Coordinates are plain integers; callers pick the fixed-point scale (the
//! containment test is invariant under scaling).  They are bounded by
//! `COORD_LIMIT` so that the edge cross products fit in `i128`.

use vstd::prelude::*;

verus! {

/// Largest coordinate magnitude accepted by the containment test; keeps all
/// intermediate cross products well inside the `i128` range.
pub const COORD_LIMIT: i64 = 1_000_000_000_000_000_000;

/// One query coordinate: a (longitude, latitude) pair in the same
/// fixed-point coordinate system as the region geometry.
#[derive(Clone, Copy, Debug, PartialEq, Eq, Structural)]
pub struct QueryPoint {
    pub x: i64,
    pub y: i64,
}

/// One boundary loop of a region, tagged as outer boundary or hole.
#[derive(Clone, Debug)]
pub struct Ring {
    pub is_hole: bool,
    pub vertices: Vec<QueryPoint>,
}

/// One polygonal district area: outer rings minus their holes.
#[derive(Clone, Debug)]
pub struct Region {
    pub rings: Vec<Ring>,
}

pub open spec fn coord_ok(v: i64) -> bool {
    -COORD_LIMIT <= v <= COORD_LIMIT
}

pub open spec fn point_ok(p: QueryPoint) -> bool {
    coord_ok(p.x) && coord_ok(p.y)
}

pub open spec fn ring_ok(ring: Seq<QueryPoint>) -> bool {
    forall|i: int| 0 <= i < ring.len() ==> point_ok(#[trigger] ring[i])
}

pub open spec fn region_ok(region: Region) -> bool {
    forall|i: int|
        0 <= i < region.rings@.len() ==> ring_ok(#[trigger] region.rings@[i].vertices@)
}

/// Cross product of the vectors (a -> b) and (a -> p): zero when p lies on
/// the line through a and b, and its sign tells on which side p falls.
pub open spec fn edge_cross(a: QueryPoint, b: QueryPoint, p: QueryPoint) -> int {
    (b.x - a.x) * (p.y - a.y) - (p.x - a.x) * (b.y - a.y)
}

/// Whether p lies exactly on the closed segment from a to b.
pub open spec fn on_segment(a: QueryPoint, b: QueryPoint, p: QueryPoint) -> bool {
    &&& edge_cross(a, b, p) == 0
    &&& (a.x <= p.x <= b.x || b.x <= p.x <= a.x)
    &&& (a.y <= p.y <= b.y || b.y <= p.y <= a.y)
}

/// The even-odd rule's crossing test: whether the horizontal ray from p
/// towards +x crosses the edge from a to b.  The strict/non-strict mix on
/// the y comparisons counts an edge endpoint lying exactly at p's height
/// for only one of the two edges that meet there.
pub open spec fn ray_crosses(a: QueryPoint, b: QueryPoint, p: QueryPoint) -> bool {
    &&& (a.y > p.y) != (b.y > p.y)
    &&& if b.y > a.y {
        edge_cross(a, b, p) > 0
    } else {
        edge_cross(a, b, p) < 0
    }
}

/// The vertex that follows vertex i, wrapping around to close the ring.
pub open spec fn ring_next(ring: Seq<QueryPoint>, i: int) -> QueryPoint {
    if i + 1 == ring.len() {
        ring[0]
    } else {
        ring[i + 1]
    }
}

/// How many of the first k edges of the ring the ray from p crosses.
pub open spec fn crossings_before(ring: Seq<QueryPoint>, p: QueryPoint, k: int) -> nat
    decreases k,
{
    if k <= 0 {
        0
    } else {
        crossings_before(ring, p, k - 1) + (if ray_crosses(
            ring[k - 1],
            ring_next(ring, k - 1),
            p,
        ) {
            1nat
        } else {
            0nat
        })
    }
}

/// Whether p lies exactly on one of the ring's edges.
pub open spec fn point_on_ring(ring: Seq<QueryPoint>, p: QueryPoint) -> bool {
    exists|i: int| 0 <= i < ring.len() && on_segment(#[trigger] ring[i], ring_next(ring, i), p)
}

/// Boundary-inclusive even-odd containment in a single ring.
pub open spec fn ring_contains(ring: Seq<QueryPoint>, p: QueryPoint) -> bool {
    point_on_ring(ring, p) || crossings_before(ring, p, ring.len() as int) % 2 == 1
}

/// Containment in the region: inside the union of the outer rings and
/// outside the union of the holes.
pub open spec fn region_contains(region: Region, p: QueryPoint) -> bool {
    &&& exists|i: int|
        0 <= i < region.rings@.len() && !(#[trigger] region.rings@[i]).is_hole
            && ring_contains(region.rings@[i].vertices@, p)
    &&& !exists|i: int|
        0 <= i < region.rings@.len() && (#[trigger] region.rings@[i]).is_hole
            && ring_contains(region.rings@[i].vertices@, p)
}

/// Hole handling: a point inside (or on) any hole ring is never
/// contained by the region, however many outer rings cover it; a point
/// inside some outer ring and inside no hole ring always is contained.
pub proof fn lemma_hole_handling(region: Region, p: QueryPoint)
    ensures
        (exists|i: int|
            0 <= i < region.rings@.len() && (#[trigger] region.rings@[i]).is_hole
                && ring_contains(region.rings@[i].vertices@, p)) ==> !region_contains(region, p),
        ((exists|i: int|
            0 <= i < region.rings@.len() && !(#[trigger] region.rings@[i]).is_hole
                && ring_contains(region.rings@[i].vertices@, p)) && !(exists|i: int|
            0 <= i < region.rings@.len() && (#[trigger] region.rings@[i]).is_hole
                && ring_contains(region.rings@[i].vertices@, p))) ==> region_contains(region, p),
{
}

proof fn lemma_cross_term_bounds(x: int, y: int)
    requires
        -2_000_000_000_000_000_000 <= x <= 2_000_000_000_000_000_000,
        -2_000_000_000_000_000_000 <= y <= 2_000_000_000_000_000_000,
    ensures
        -4_000_000_000_000_000_000_000_000_000_000_000_000 <= x * y
            <= 4_000_000_000_000_000_000_000_000_000_000_000_000,
{
    assert(-4_000_000_000_000_000_000_000_000_000_000_000_000 <= x * y
        <= 4_000_000_000_000_000_000_000_000_000_000_000_000) by (nonlinear_arith)
        requires
            -2_000_000_000_000_000_000 <= x <= 2_000_000_000_000_000_000,
            -2_000_000_000_000_000_000 <= y <= 2_000_000_000_000_000_000,
    ;
}

/// Exact evaluation of `edge_cross` in 128-bit arithmetic.
fn edge_cross_exec(a: QueryPoint, b: QueryPoint, p: QueryPoint) -> (c: i128)
    requires
        point_ok(a),
        point_ok(b),
        point_ok(p),
    ensures
        c == edge_cross(a, b, p),
{
    let ax = a.x as i128;
    let ay = a.y as i128;
    let bx = b.x as i128;
    let by = b.y as i128;
    let px = p.x as i128;
    let py = p.y as i128;
    proof {
        lemma_cross_term_bounds(bx - ax, py - ay);
        lemma_cross_term_bounds(px - ax, by - ay);
    }
    (bx - ax) * (py - ay) - (px - ax) * (by - ay)
}

fn on_segment_exec(a: QueryPoint, b: QueryPoint, p: QueryPoint) -> (r: bool)
    requires
        point_ok(a),
        point_ok(b),
        point_ok(p),
    ensures
        r == on_segment(a, b, p),
{
    let c = edge_cross_exec(a, b, p);
    c == 0 && (a.x <= p.x && p.x <= b.x || b.x <= p.x && p.x <= a.x) && (a.y <= p.y && p.y <= b.y
        || b.y <= p.y && p.y <= a.y)
}

fn ray_crosses_exec(a: QueryPoint, b: QueryPoint, p: QueryPoint) -> (r: bool)
    requires
        point_ok(a),
        point_ok(b),
        point_ok(p),
    ensures
        r == ray_crosses(a, b, p),
{
    if (a.y > p.y) != (b.y > p.y) {
        let c = edge_cross_exec(a, b, p);
        if b.y > a.y {
            c > 0
        } else {
            c < 0
        }
    } else {
        false
    }
}

/// Boundary-inclusive even-odd test of one ring.
pub fn ring_contains_point(ring: &Vec<QueryPoint>, p: QueryPoint) -> (r: bool)
    requires
        ring_ok(ring@),
        point_ok(p),
    ensures
        r == ring_contains(ring@, p),
{
    let n = ring.len();
    let mut parity = false;
    let mut i: usize = 0;
    while i < n
        invariant
            n == ring@.len(),
            0 <= i <= n,
            ring_ok(ring@),
            point_ok(p),
            parity == (crossings_before(ring@, p, i as int) % 2 == 1),
            forall|j: int|
                0 <= j < i ==> !on_segment(#[trigger] ring@[j], ring_next(ring@, j), p),
        decreases n - i,
    {
        let a = ring[i];
        let b = if i + 1 == n {
            ring[0]
        } else {
            ring[i + 1]
        };
        assert(b == ring_next(ring@, i as int));
        if on_segment_exec(a, b, p) {
            assert(point_on_ring(ring@, p));
            return true;
        }
        if ray_crosses_exec(a, b, p) {
            parity = !parity;
        }
        i = i + 1;
    }
    assert(!point_on_ring(ring@, p));
    parity
}

/// Whether the region's area contains the point.
///
/// Scans the rings once: the point is contained when some outer ring
/// contains it and no hole ring does.
pub fn shape_contains_point(shape: &Region, point: &QueryPoint) -> (b: bool)
    requires
        region_ok(*shape),
        point_ok(*point),
    ensures
        b == region_contains(*shape, *point),
{
    let n = shape.rings.len();
    let mut in_outer = false;
    let mut in_hole = false;
    let mut i: usize = 0;
    while i < n
        invariant
            n == shape.rings@.len(),
            0 <= i <= n,
            region_ok(*shape),
            point_ok(*point),
            in_outer == exists|j: int|
                0 <= j < i && !(#[trigger] shape.rings@[j]).is_hole && ring_contains(
                    shape.rings@[j].vertices@,
                    *point,
                ),
            in_hole == exists|j: int|
                0 <= j < i && (#[trigger] shape.rings@[j]).is_hole && ring_contains(
                    shape.rings@[j].vertices@,
                    *point,
                ),
        decreases n - i,
    {
        let ring = &shape.rings[i];
        let c = ring_contains_point(&ring.vertices, *point);
        if ring.is_hole {
            in_hole = in_hole || c;
        } else {
            in_outer = in_outer || c;
        }
        i = i + 1;
    }
    in_outer && !in_hole
}

} // verus!
