//! The regular grid shared by all engines: cell centres of a `reso_x` by
//! `reso_y` raster over a bounding box, enumerated in row-major order with
//! the x index outermost.

use vstd::prelude::*;
use crate::bbox::Bbox;
use crate::scalar::{add_num, dec_of_u32, div_num, mul_num, prod_of, quot_of, diff_of, sub_num,
    sum_of, u32_num};
use crate::utils::PtValue;

verus! {

/// The per-axis step: `(max - min) / reso`.
pub open spec fn spec_step(min: Seq<char>, max: Seq<char>, reso: u32) -> Seq<char> {
    quot_of(diff_of(max, min), dec_of_u32(reso))
}

/// The coordinate of the cell with index `idx` along one axis:
/// `min + step * idx`.
pub open spec fn spec_cell_coord(min: Seq<char>, step: Seq<char>, idx: u32) -> Seq<char> {
    sum_of(min, prod_of(step, dec_of_u32(idx)))
}

/// The x coordinate of the flat cell `k` of a grid over `bbox`, where the
/// flat order is row-major with x outermost: `k = i * reso_y + j`.
pub open spec fn spec_grid_x(bbox: Bbox, reso_x: u32, reso_y: u32, k: int) -> Seq<char> {
    spec_cell_coord(
        bbox.min_x@,
        spec_step(bbox.min_x@, bbox.max_x@, reso_x),
        (k / reso_y as int) as u32,
    )
}

/// The y coordinate of the flat cell `k`, as `spec_grid_x`.
pub open spec fn spec_grid_y(bbox: Bbox, reso_x: u32, reso_y: u32, k: int) -> Seq<char> {
    spec_cell_coord(
        bbox.min_y@,
        spec_step(bbox.min_y@, bbox.max_y@, reso_y),
        (k % reso_y as int) as u32,
    )
}

/// One axis step of `bbox` divided into `reso` cells.
pub fn grid_step(min: &str, max: &str, reso: u32) -> (r: String)
    ensures
        r@ == spec_step(min@, max@, reso),
{
    div_num(&sub_num(max, min), &u32_num(reso))
}

/// The coordinate of cell `idx` along an axis starting at `min` with the
/// given step.
pub fn cell_coord(min: &str, step: &str, idx: u32) -> (r: String)
    ensures
        r@ == spec_cell_coord(min@, step@, idx),
{
    add_num(min, &mul_num(step, &u32_num(idx)))
}

/// Builds the full grid of result points over `bbox`, every field value set
/// to zero, in row-major order with the x index outermost.
pub fn build_grid<T: PtValue>(bbox: &Bbox, reso_x: u32, reso_y: u32) -> (r: Vec<T>)
    requires
        reso_x as int * reso_y as int <= u32::MAX as int,
    ensures
        r@.len() == reso_x as int * reso_y as int,
        forall|k: int|
            0 <= k < r@.len() ==> {
                &&& (#[trigger] r@[k]).spec_x() == spec_grid_x(*bbox, reso_x, reso_y, k)
                &&& r@[k].spec_y() == spec_grid_y(*bbox, reso_x, reso_y, k)
                &&& r@[k].spec_value() == "0"@
            },
{
    let x_step = grid_step(&bbox.min_x, &bbox.max_x, reso_x);
    let y_step = grid_step(&bbox.min_y, &bbox.max_y, reso_y);
    let mut plots: Vec<T> = Vec::new();
    let mut i: u32 = 0;
    while i < reso_x
        invariant
            i <= reso_x,
            reso_x as int * reso_y as int <= u32::MAX as int,
            x_step@ == spec_step(bbox.min_x@, bbox.max_x@, reso_x),
            y_step@ == spec_step(bbox.min_y@, bbox.max_y@, reso_y),
            plots@.len() == i as int * reso_y as int,
            forall|k: int|
                0 <= k < plots@.len() ==> {
                    &&& (#[trigger] plots@[k]).spec_x() == spec_grid_x(*bbox, reso_x, reso_y, k)
                    &&& plots@[k].spec_y() == spec_grid_y(*bbox, reso_x, reso_y, k)
                    &&& plots@[k].spec_value() == "0"@
                },
        decreases reso_x - i,
    {
        let mut j: u32 = 0;
        proof {
            vstd::arithmetic::mul::lemma_mul_inequality(
                i as int + 1,
                reso_x as int,
                reso_y as int,
            );
        }
        while j < reso_y
            invariant
                i < reso_x,
                j <= reso_y,
                reso_x as int * reso_y as int <= u32::MAX as int,
                (i as int + 1) * reso_y as int <= reso_x as int * reso_y as int,
                x_step@ == spec_step(bbox.min_x@, bbox.max_x@, reso_x),
                y_step@ == spec_step(bbox.min_y@, bbox.max_y@, reso_y),
                plots@.len() == i as int * reso_y as int + j as int,
                forall|k: int|
                    0 <= k < plots@.len() ==> {
                        &&& (#[trigger] plots@[k]).spec_x() == spec_grid_x(
                            *bbox,
                            reso_x,
                            reso_y,
                            k,
                        )
                        &&& plots@[k].spec_y() == spec_grid_y(*bbox, reso_x, reso_y, k)
                        &&& plots@[k].spec_value() == "0"@
                    },
            decreases reso_y - j,
        {
            let x = cell_coord(&bbox.min_x, &x_step, i);
            let y = cell_coord(&bbox.min_y, &y_step, j);
            let zero: String = "0".to_owned();
            let pt = T::new(x, y, zero);
            proof {
                let k = plots@.len() as int;
                assert(k / reso_y as int == i as int && k % reso_y as int == j as int) by (
                nonlinear_arith)
                    requires
                        k == i as int * reso_y as int + j as int,
                        0 <= j < reso_y,
                        0 < reso_y,
                ;
            }
            plots.push(pt);
            j += 1;
        }
        proof {
            assert((i as int + 1) * reso_y as int == i as int * reso_y as int + reso_y as int) by (
            nonlinear_arith);
        }
        i += 1;
    }
    proof {
        assert(plots@.len() == reso_x as int * reso_y as int);
    }
    plots
}


/// The flat order is row-major with the x index outermost: the flat cell
/// `i * reso_y + j` carries exactly the step-formula coordinates of column
/// `i` and row `j`.
pub proof fn lemma_row_major_layout(bbox: Bbox, reso_x: u32, reso_y: u32, i: u32, j: u32)
    requires
        i < reso_x,
        j < reso_y,
    ensures
        spec_grid_x(bbox, reso_x, reso_y, i as int * reso_y as int + j as int) == spec_cell_coord(
            bbox.min_x@,
            spec_step(bbox.min_x@, bbox.max_x@, reso_x),
            i,
        ),
        spec_grid_y(bbox, reso_x, reso_y, i as int * reso_y as int + j as int) == spec_cell_coord(
            bbox.min_y@,
            spec_step(bbox.min_y@, bbox.max_y@, reso_y),
            j,
        ),
{
    let k = i as int * reso_y as int + j as int;
    assert(k / reso_y as int == i as int && k % reso_y as int == j as int) by (nonlinear_arith)
        requires
            k == i as int * reso_y as int + j as int,
            0 <= j < reso_y,
            0 < reso_y,
    ;
}

} // verus!
