//! Axis-aligned bounding boxes, given explicitly or derived as the tight
//! envelope of an observation set.

use vstd::prelude::*;
use crate::scalar::{lt_num, num_lt};
use crate::utils::PtValue;

verus! {

/// A rectangle `(min_x, max_x, min_y, max_y)` in the coordinate system of
/// the points it bounds.
pub struct Bbox {
    pub min_x: String,
    pub max_x: String,
    pub min_y: String,
    pub max_y: String,
}

/// The model of a box: the four bounds `(min_x, max_x, min_y, max_y)`.
pub open spec fn bbox_model(b: Bbox) -> (Seq<char>, Seq<char>, Seq<char>, Seq<char>) {
    (b.min_x@, b.max_x@, b.min_y@, b.max_y@)
}

/// The tight envelope of a non-empty point sequence, folded left to right:
/// each point lowers a minimum when it compares strictly below it and raises
/// a maximum when it compares strictly above it.
pub open spec fn spec_envelope<T: PtValue>(pts: Seq<T>) -> (
    Seq<char>,
    Seq<char>,
    Seq<char>,
    Seq<char>,
)
    recommends
        pts.len() >= 1,
    decreases pts.len(),
{
    if pts.len() <= 1 {
        (pts[0].spec_x(), pts[0].spec_x(), pts[0].spec_y(), pts[0].spec_y())
    } else {
        let prev = spec_envelope(pts.drop_last());
        let px = pts.last().spec_x();
        let py = pts.last().spec_y();
        (
            if num_lt(px, prev.0) {
                px
            } else {
                prev.0
            },
            if num_lt(prev.1, px) {
                px
            } else {
                prev.1
            },
            if num_lt(py, prev.2) {
                py
            } else {
                prev.2
            },
            if num_lt(prev.3, py) {
                py
            } else {
                prev.3
            },
        )
    }
}

impl Bbox {
    /// An explicit box.
    pub fn new(min_x: String, max_x: String, min_y: String, max_y: String) -> (r: Bbox)
        ensures
            r.min_x@ == min_x@,
            r.max_x@ == max_x@,
            r.min_y@ == min_y@,
            r.max_y@ == max_y@,
    {
        Bbox { min_x, max_x, min_y, max_y }
    }

    /// The tight envelope of a non-empty observation set, computed in one
    /// pass. An empty set has no envelope, so callers must not pass one.
    pub fn from_points<T: PtValue>(obs_points: &Vec<T>) -> (r: Bbox)
        requires
            obs_points@.len() >= 1,
        ensures
            bbox_model(r) == spec_envelope(obs_points@),
    {
        let (first_x, first_y) = obs_points[0].get_coordinates();
        let mut min_x = first_x.clone();
        let mut max_x = first_x;
        let mut min_y = first_y.clone();
        let mut max_y = first_y;
        let mut i: usize = 1;
        proof {
            assert(obs_points@.take(1).drop_last() =~= obs_points@.take(0));
        }

        while i < obs_points.len()
            invariant
                1 <= i <= obs_points@.len(),
                (min_x@, max_x@, min_y@, max_y@) == spec_envelope(obs_points@.take(i as int)),
            decreases obs_points@.len() - i,
        {
            let (pt_x, pt_y) = obs_points[i].get_coordinates();
            if lt_num(&pt_x, &min_x) {
                min_x = pt_x.clone();
            }
            if lt_num(&max_x, &pt_x) {
                max_x = pt_x;
            }
            if lt_num(&pt_y, &min_y) {
                min_y = pt_y.clone();
            }
            if lt_num(&max_y, &pt_y) {
                max_y = pt_y;
            }
            proof {
                assert(obs_points@.take(i + 1).drop_last() =~= obs_points@.take(i as int));
                assert(obs_points@.take(i + 1).last() == obs_points@[i as int]);
            }
            i += 1;
        }
        proof {
            assert(obs_points@.take(obs_points@.len() as int) =~= obs_points@);
        }
        Bbox { min_x, max_x, min_y, max_y }
    }
}

} // verus!
