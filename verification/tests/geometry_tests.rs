//! Containment tests for the point-in-region engine.
//!
//! Coordinates are fixed-point: decimal degrees scaled by 100 (so -1.1
//! is written -110).  Containment is invariant under the scale choice.

use civicsearch::shape_contains_point;
use civicsearch::QueryPoint;
use civicsearch::Region;
use civicsearch::Ring;

fn quadrilateral() -> Region {
    Region {
        rings: vec![Ring {
            is_hole: false,
            vertices: vec![
                QueryPoint { x: -110, y: -101 },
                QueryPoint { x: -120, y: 102 },
                QueryPoint { x: 130, y: 103 },
                QueryPoint { x: 140, y: -104 },
            ],
        }],
    }
}

#[test]
fn quadrilateral_contains_origin() {
    let inside_point = QueryPoint { x: 0, y: 0 };
    assert_eq!(shape_contains_point(&quadrilateral(), &inside_point), true);
}

#[test]
fn quadrilateral_excludes_far_point() {
    let outside_point = QueryPoint { x: 200, y: 0 };
    assert_eq!(shape_contains_point(&quadrilateral(), &outside_point), false);
}

#[test]
fn quadrilateral_boundary_point_counts_as_inside() {
    let on_edge_point = QueryPoint { x: 110, y: -101 };
    assert_eq!(shape_contains_point(&quadrilateral(), &on_edge_point), true);
}

fn square(x0: i64, y0: i64, x1: i64, y1: i64, is_hole: bool) -> Ring {
    Ring {
        is_hole,
        vertices: vec![
            QueryPoint { x: x0, y: y0 },
            QueryPoint { x: x1, y: y0 },
            QueryPoint { x: x1, y: y1 },
            QueryPoint { x: x0, y: y1 },
        ],
    }
}

#[test]
fn hole_excludes_point_inside_it() {
    let region = Region { rings: vec![square(0, 0, 100, 100, false), square(20, 20, 40, 40, true)] };
    let in_hole = QueryPoint { x: 30, y: 30 };
    assert_eq!(shape_contains_point(&region, &in_hole), false);
}

#[test]
fn point_outside_hole_but_inside_outer_is_contained() {
    let region = Region { rings: vec![square(0, 0, 100, 100, false), square(20, 20, 40, 40, true)] };
    let in_region = QueryPoint { x: 70, y: 70 };
    assert_eq!(shape_contains_point(&region, &in_region), true);
}

#[test]
fn exact_edge_of_outer_square_is_inside() {
    let region = Region { rings: vec![square(0, 0, 100, 100, false)] };
    assert_eq!(shape_contains_point(&region, &QueryPoint { x: 50, y: 0 }), true);
    assert_eq!(shape_contains_point(&region, &QueryPoint { x: 0, y: 50 }), true);
    assert_eq!(shape_contains_point(&region, &QueryPoint { x: 0, y: 0 }), true);
    assert_eq!(shape_contains_point(&region, &QueryPoint { x: 50, y: -1 }), false);
}

#[test]
fn point_on_hole_edge_is_excluded() {
    // The boundary-inclusive ring rule puts a point on a hole's edge
    // inside the hole, so the region does not contain it.
    let region = Region { rings: vec![square(0, 0, 100, 100, false), square(20, 20, 40, 40, true)] };
    assert_eq!(shape_contains_point(&region, &QueryPoint { x: 30, y: 20 }), false);
}

#[test]
fn empty_region_contains_nothing() {
    let region = Region { rings: vec![] };
    assert_eq!(shape_contains_point(&region, &QueryPoint { x: 0, y: 0 }), false);
}

#[test]
fn multipart_region_uses_union_of_outer_rings() {
    let region = Region { rings: vec![square(0, 0, 10, 10, false), square(100, 100, 110, 110, false)] };
    assert_eq!(shape_contains_point(&region, &QueryPoint { x: 5, y: 5 }), true);
    assert_eq!(shape_contains_point(&region, &QueryPoint { x: 105, y: 105 }), true);
    assert_eq!(shape_contains_point(&region, &QueryPoint { x: 50, y: 50 }), false);
}
