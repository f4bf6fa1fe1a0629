//! Inverse-distance-weighting estimation: each grid cell takes the
//! weighted average of the observed values, with weights `1 / distance^power`.

use vstd::prelude::*;
use crate::bbox::Bbox;
use crate::errors::Error;
use crate::grid::{cell_coord, grid_step, spec_grid_x, spec_grid_y, spec_step};
use crate::scalar::{
    add_num, div_num, eq_num, mul_num, num_eq, pow_of, powf_num, prod_of, quot_of, sum_of,
};
use crate::utils::{almost_equal, point_model, spec_almost_equal, PtValue};

verus! {

/// The weighted accumulator `(zw, sw)` of the observations folded left to
/// right at the query point `(x, y)`: each observation contributes its
/// weight `w = 1 / distance^power` to `sw` and `w * value` to `zw`; an
/// observation within the fixed tolerance of the query point first resets
/// `zw` to its raw value, without stopping the fold.
pub open spec fn spec_idw_acc<T: PtValue>(
    obs: Seq<T>,
    x: Seq<char>,
    y: Seq<char>,
    power: Seq<char>,
) -> (Seq<char>, Seq<char>)
    decreases obs.len(),
{
    if obs.len() == 0 {
        ("0"@, "0"@)
    } else {
        let prev = spec_idw_acc(obs.drop_last(), x, y, power);
        let o = obs.last();
        let dist = T::spec_distance(o.spec_x(), o.spec_y(), x, y);
        let zw = if spec_almost_equal(dist, "0"@, "0.00001"@) {
            o.spec_value()
        } else {
            prev.0
        };
        let w = quot_of("1"@, pow_of(dist, power));
        (sum_of(zw, prod_of(w, o.spec_value())), sum_of(prev.1, w))
    }
}

/// The model of the flat cell `k` of the inverse-distance result grid:
/// its two coordinates and the quotient `zw / sw` of the accumulator there.
pub open spec fn spec_idw_cell<T: PtValue>(
    bbox: Bbox,
    reso_x: u32,
    reso_y: u32,
    obs: Seq<T>,
    power: Seq<char>,
    k: int,
) -> (Seq<char>, Seq<char>, Seq<char>) {
    let x = spec_grid_x(bbox, reso_x, reso_y, k);
    let y = spec_grid_y(bbox, reso_x, reso_y, k);
    let acc = spec_idw_acc(obs, x, y, power);
    (x, y, quot_of(acc.0, acc.1))
}

/// An inverse-distance estimator bound to one observation set and one
/// weighting exponent.
pub struct Idw<'a, T> {
    pub obs_points: &'a Vec<T>,
    pub power: String,
}

impl<'a, T: PtValue> Idw<'a, T> {
    /// Binds the estimator to its observations and exponent.
    pub fn new(obs_points: &'a Vec<T>, power: String) -> (r: Self)
        ensures
            r.obs_points == obs_points,
            r.power@ == power@,
    {
        Idw { obs_points, power }
    }

    /// The estimate at one query point: `zw / sw` for the accumulator of
    /// the observation fold there. A weight sum that compares equal to zero
    /// (no observations, or all weights vanished) is reported as
    /// `ZeroWeightSum` instead of a non-finite quotient.
    pub fn interp_point(&self, x: &str, y: &str) -> (r: Result<String, Error>)
        ensures
            ({
                let acc = spec_idw_acc(self.obs_points@, x@, y@, self.power@);
                &&& r is Ok <==> !num_eq(acc.1, "0"@)
                &&& r is Ok ==> r.unwrap()@ == quot_of(acc.0, acc.1)
                &&& r is Err ==> r == Err::<String, Error>(Error::ZeroWeightSum)
            }),
    {
        let ghost full = self.obs_points@;
        let mut zw: String = "0".to_owned();
        let mut sw: String = "0".to_owned();
        let mut i: usize = 0;
        proof {
            assert(full.take(0) =~= Seq::<T>::empty());
        }
        while i < self.obs_points.len()
            invariant
                i <= full.len(),
                full == self.obs_points@,
                (zw@, sw@) == spec_idw_acc(full.take(i as int), x@, y@, self.power@),
            decreases full.len() - i,
        {
            let obs_pt = &self.obs_points[i];
            let val = obs_pt.get_value();
            let dist = obs_pt.distance(x, y);
            if almost_equal(&dist, "0", "0.00001") {
                zw = val.clone();
            }
            let w = div_num("1", &powf_num(&dist, &self.power));
            zw = add_num(&zw, &mul_num(&w, &val));
            sw = add_num(&sw, &w);
            proof {
                assert(full.take(i + 1).drop_last() =~= full.take(i as int));
                assert(full.take(i + 1).last() == full[i as int]);
            }
            i += 1;
        }
        proof {
            assert(full.take(full.len() as int) =~= full);
        }
        if eq_num(&sw, "0") {
            Err(Error::ZeroWeightSum)
        } else {
            Ok(div_num(&zw, &sw))
        }
    }
}

/// Inverse-distance interpolation of the whole grid over `bbox` at the
/// given resolution. Every cell gets the weighted average of the
/// observations; the first cell whose weight sum compares equal to zero
/// makes the whole call fail with `ZeroWeightSum`.
pub fn idw_interpolation1<T: PtValue>(
    reso_x: u32,
    reso_y: u32,
    bbox: &Bbox,
    obs_points: &Vec<T>,
    b: &str,
) -> (r: Result<Vec<T>, Error>)
    requires
        reso_x >= 1,
        reso_y >= 1,
        reso_x as int * reso_y as int <= u32::MAX as int,
    ensures
        r is Ok <==> (forall|k: int|
            0 <= k < reso_x as int * reso_y as int ==> !num_eq(
                spec_idw_acc(
                    obs_points@,
                    spec_grid_x(*bbox, reso_x, reso_y, k),
                    spec_grid_y(*bbox, reso_x, reso_y, k),
                    b@,
                ).1,
                "0"@,
            )),
        r is Ok ==> r.unwrap()@.len() == reso_x as int * reso_y as int,
        r is Ok ==> forall|k: int|
            0 <= k < reso_x as int * reso_y as int ==> point_model(#[trigger] r.unwrap()@[k])
                == spec_idw_cell(*bbox, reso_x, reso_y, obs_points@, b@, k),
        r is Err ==> r == Err::<Vec<T>, Error>(Error::ZeroWeightSum),
{
    let x_step = grid_step(&bbox.min_x, &bbox.max_x, reso_x);
    let y_step = grid_step(&bbox.min_y, &bbox.max_y, reso_y);
    let idw = Idw::new(obs_points, b.to_owned());
    let mut plots: Vec<T> = Vec::new();
    let mut i: u32 = 0;
    while i < reso_x
        invariant
            i <= reso_x,
            reso_x as int * reso_y as int <= u32::MAX as int,
            x_step@ == spec_step(bbox.min_x@, bbox.max_x@, reso_x),
            y_step@ == spec_step(bbox.min_y@, bbox.max_y@, reso_y),
            idw.obs_points == obs_points,
            idw.power@ == b@,
            plots@.len() == i as int * reso_y as int,
            forall|k: int|
                0 <= k < plots@.len() ==> point_model(#[trigger] plots@[k]) == spec_idw_cell(
                    *bbox,
                    reso_x,
                    reso_y,
                    obs_points@,
                    b@,
                    k,
                ),
            forall|k: int|
                0 <= k < plots@.len() ==> !num_eq(
                    spec_idw_acc(
                        obs_points@,
                        spec_grid_x(*bbox, reso_x, reso_y, k),
                        spec_grid_y(*bbox, reso_x, reso_y, k),
                        b@,
                    ).1,
                    "0"@,
                ),
        decreases reso_x - i,
    {
        let mut j: u32 = 0;
        proof {
            vstd::arithmetic::mul::lemma_mul_inequality(i as int + 1, reso_x as int, reso_y as int);
        }
        while j < reso_y
            invariant
                i < reso_x,
                j <= reso_y,
                reso_x as int * reso_y as int <= u32::MAX as int,
                (i as int + 1) * reso_y as int <= reso_x as int * reso_y as int,
                x_step@ == spec_step(bbox.min_x@, bbox.max_x@, reso_x),
                y_step@ == spec_step(bbox.min_y@, bbox.max_y@, reso_y),
                idw.obs_points == obs_points,
                idw.power@ == b@,
                plots@.len() == i as int * reso_y as int + j as int,
                forall|k: int|
                    0 <= k < plots@.len() ==> point_model(#[trigger] plots@[k]) == spec_idw_cell(
                        *bbox,
                        reso_x,
                        reso_y,
                        obs_points@,
                        b@,
                        k,
                    ),
                forall|k: int|
                    0 <= k < plots@.len() ==> !num_eq(
                        spec_idw_acc(
                            obs_points@,
                            spec_grid_x(*bbox, reso_x, reso_y, k),
                            spec_grid_y(*bbox, reso_x, reso_y, k),
                            b@,
                        ).1,
                        "0"@,
                    ),
            decreases reso_y - j,
        {
            let x = cell_coord(&bbox.min_x, &x_step, i);
            let y = cell_coord(&bbox.min_y, &y_step, j);
            proof {
                let k = plots@.len() as int;
                assert(k / reso_y as int == i as int && k % reso_y as int == j as int) by (
                nonlinear_arith)
                    requires
                        k == i as int * reso_y as int + j as int,
                        0 <= j < reso_y,
                        0 < reso_y,
                ;
            }
            let val = match idw.interp_point(&x, &y) {
                Ok(v) => v,
                Err(e) => {
                    proof {
                        let k = plots@.len() as int;
                        assert(k < (i as int + 1) * reso_y as int) by (nonlinear_arith)
                            requires
                                k == i as int * reso_y as int + j as int,
                                0 <= j < reso_y,
                        ;
                        assert(x@ == spec_grid_x(*bbox, reso_x, reso_y, k));
                        assert(y@ == spec_grid_y(*bbox, reso_x, reso_y, k));
                        assert(num_eq(
                            spec_idw_acc(
                                obs_points@,
                                spec_grid_x(*bbox, reso_x, reso_y, k),
                                spec_grid_y(*bbox, reso_x, reso_y, k),
                                b@,
                            ).1,
                            "0"@,
                        ));
                    }
                    return Err(e);
                },
            };
            plots.push(T::new(x, y, val));
            j += 1;
        }
        proof {
            assert((i as int + 1) * reso_y as int == i as int * reso_y as int + reso_y as int) by (
            nonlinear_arith);
        }
        i += 1;
    }
    Ok(plots)
}

} // verus!
