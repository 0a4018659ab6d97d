//! The batch matcher: every query point against every region.
//!
//! For each point, every supplied region is tested in order, and the names
//! of the containing regions are collected in that same order.  A region
//! whose record carries no district name contributes nothing, even when
//! its geometry contains the point.

use vstd::prelude::*;

use crate::attributes::district_name;
use crate::attributes::RegionAttributes;
use crate::geometry::point_ok;
use crate::geometry::region_contains;
use crate::geometry::region_ok;
use crate::geometry::shape_contains_point;
use crate::geometry::QueryPoint;
use crate::geometry::Region;

verus! {

/// The answer for one query point: the names of the regions that contain
/// it, in the order the regions were scanned.
#[derive(Clone, Debug)]
pub struct MatchResult {
    pub names: Vec<String>,
}

/// The district names owed to point p when the regions are scanned in
/// order: one entry per region that contains p and has a name.
pub open spec fn matched_names(
    p: QueryPoint,
    regions: Seq<(Region, RegionAttributes)>,
) -> Seq<Seq<char>>
    decreases regions.len(),
{
    if regions.len() == 0 {
        Seq::empty()
    } else {
        let rest = matched_names(p, regions.drop_last());
        let last = regions.last();
        if region_contains(last.0, p) && district_name(last.1) is Some {
            rest.push(district_name(last.1)->Some_0)
        } else {
            rest
        }
    }
}

pub open spec fn regions_ok(regions: Seq<(Region, RegionAttributes)>) -> bool {
    forall|i: int| 0 <= i < regions.len() ==> region_ok((#[trigger] regions[i]).0)
}

pub open spec fn points_ok(points: Seq<QueryPoint>) -> bool {
    forall|i: int| 0 <= i < points.len() ==> point_ok(#[trigger] points[i])
}

/// Labels every query point with the districts that contain it.
///
/// One `MatchResult` per point, in input order; within each result the
/// names keep the regions' scan order, with duplicates preserved and no
/// sorting of any kind.
pub fn find_districts_for_points(
    points: &Vec<QueryPoint>,
    regions: &Vec<(Region, RegionAttributes)>,
) -> (results: Vec<MatchResult>)
    requires
        points_ok(points@),
        regions_ok(regions@),
    ensures
        results@.len() == points@.len(),
        forall|i: int|
            0 <= i < points@.len() ==> (#[trigger] results@[i]).names.deep_view()
                == matched_names(points@[i], regions@),
{
    let mut results: Vec<MatchResult> = Vec::new();
    let np = points.len();
    let nr = regions.len();
    let mut i: usize = 0;
    while i < np
        invariant
            np == points@.len(),
            nr == regions@.len(),
            0 <= i <= np,
            points_ok(points@),
            regions_ok(regions@),
            results@.len() == i,
            forall|k: int|
                0 <= k < i ==> (#[trigger] results@[k]).names.deep_view() == matched_names(
                    points@[k],
                    regions@,
                ),
        decreases np - i,
    {
        let p = points[i];
        let mut names: Vec<String> = Vec::new();
        let mut j: usize = 0;
        while j < nr
            invariant
                nr == regions@.len(),
                0 <= j <= nr,
                point_ok(p),
                regions_ok(regions@),
                names.deep_view() == matched_names(p, regions@.take(j as int)),
            decreases nr - j,
        {
            proof {
                assert(regions@.take(j as int + 1).drop_last() =~= regions@.take(j as int));
                assert(regions@.take(j as int + 1).last() == regions@[j as int]);
            }
            let entry = &regions[j];
            if shape_contains_point(&entry.0, &p) {
                match crate::attributes::extract_district_name(&entry.1) {
                    Some(name) => {
                        names.push(name);
                        assert(names.deep_view() =~= matched_names(
                            p,
                            regions@.take(j as int + 1),
                        ));
                    },
                    None => {},
                }
            }
            j = j + 1;
        }
        proof {
            assert(regions@.take(nr as int) =~= regions@);
        }
        results.push(MatchResult { names });
        i = i + 1;
    }
    results
}

/// A region whose record carries no district name contributes no entry to
/// any point's result: removing it from the scan leaves every result
/// unchanged, even when its geometry contains the point.
pub proof fn lemma_nameless_region_contributes_nothing(
    p: QueryPoint,
    regions: Seq<(Region, RegionAttributes)>,
    i: int,
)
    requires
        0 <= i < regions.len(),
        district_name(regions[i].1) is None,
    ensures
        matched_names(p, regions) == matched_names(p, regions.remove(i)),
    decreases regions.len(),
{
    if i == regions.len() - 1 {
        assert(regions.remove(i) =~= regions.drop_last());
    } else {
        lemma_nameless_region_contributes_nothing(p, regions.drop_last(), i);
        assert(regions.remove(i).drop_last() =~= regions.drop_last().remove(i));
        assert(regions.remove(i).last() == regions.last());
    }
}

} // verus!
