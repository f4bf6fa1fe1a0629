//! Stewart potential smoothing: every grid cell takes the plain sum of the
//! observed values weighted by a decay kernel of the distance, with no
//! normalization. The grid may be filled in one pass or partitioned into
//! contiguous ranges; the partition is invisible in the result.

use vstd::prelude::*;
use crate::bbox::{bbox_model, Bbox};
use crate::errors::Error;
use crate::grid::{build_grid, spec_grid_x, spec_grid_y};
use crate::scalar::{
    add_num, diff_of, div_num, exp_num, exp_of, lt_num, mul_num, neg_num, neg_of, num_lt, pow_of,
    powf_num, prod_of, quot_of, sub_num, sum_of,
};
use crate::utils::{point_model, PtValue};

verus! {

/// The two decay-kernel families of the potential smoother.
#[derive(Clone, Copy, Debug, PartialEq, Eq, Structural)]
pub enum SmoothType {
    Exponential,
    Pareto,
}

/// The scale constant derived from the characteristic span and the decay
/// exponent, calibrated so that the kernel is one half at the span:
/// `ln(2) / span^beta` for the exponential family and
/// `(2^(1/beta) - 1) / span` for the Pareto family.
pub open spec fn spec_alpha(smooth: SmoothType, span: Seq<char>, beta: Seq<char>) -> Seq<char> {
    match smooth {
        SmoothType::Exponential => quot_of("0.69314718055994529"@, pow_of(span, beta)),
        SmoothType::Pareto => quot_of(diff_of(pow_of("2"@, quot_of("1"@, beta)), "1"@), span),
    }
}

/// The kernel weight at one distance: `exp(-alpha * d^beta)` for the
/// exponential family, `(1 + alpha*d)^(-beta)` for the Pareto family.
pub open spec fn spec_smooth(
    smooth: SmoothType,
    alpha: Seq<char>,
    beta: Seq<char>,
    dist: Seq<char>,
) -> Seq<char> {
    match smooth {
        SmoothType::Exponential => exp_of(prod_of(neg_of(alpha), pow_of(dist, beta))),
        SmoothType::Pareto => pow_of(sum_of("1"@, prod_of(alpha, dist)), neg_of(beta)),
    }
}

/// The potential accumulated at the place `(cx, cy)`: the observations
/// folded left to right, each adding its value times the kernel weight of
/// its distance from the place.
pub open spec fn spec_potential<T: PtValue>(
    obs: Seq<T>,
    smooth: SmoothType,
    alpha: Seq<char>,
    beta: Seq<char>,
    cx: Seq<char>,
    cy: Seq<char>,
) -> Seq<char>
    decreases obs.len(),
{
    if obs.len() == 0 {
        "0"@
    } else {
        let prev = spec_potential(obs.drop_last(), smooth, alpha, beta, cx, cy);
        let o = obs.last();
        sum_of(
            prev,
            prod_of(
                o.spec_value(),
                spec_smooth(
                    smooth,
                    alpha,
                    beta,
                    T::spec_distance(cx, cy, o.spec_x(), o.spec_y()),
                ),
            ),
        )
    }
}

/// The immutable parameter bundle of one potential grid: kernel family,
/// decay exponent, derived scale constant, target box, resolution and
/// degree of parallelism.
pub struct StewartPotentialGrid {
    pub smooth_type: SmoothType,
    pub reso_x: u32,
    pub reso_y: u32,
    pub beta: String,
    pub alpha: String,
    pub bbox: Bbox,
    pub n_thread: u32,
}

/// The model of the flat cell `k` of the potential result grid over the
/// given configuration: its two coordinates and the potential there. The
/// degree of parallelism plays no part in it.
pub open spec fn spec_stewart_cell<T: PtValue>(
    config: StewartPotentialGrid,
    obs: Seq<T>,
    k: int,
) -> (Seq<char>, Seq<char>, Seq<char>) {
    let x = spec_grid_x(config.bbox, config.reso_x, config.reso_y, k);
    let y = spec_grid_y(config.bbox, config.reso_x, config.reso_y, k);
    (x, y, spec_potential(obs, config.smooth_type, config.alpha@, config.beta@, x, y))
}

impl StewartPotentialGrid {
    /// Validates the parameters and derives the scale constant. A zero
    /// resolution, a zero degree of parallelism and a span that does not
    /// compare strictly above zero are each rejected, in that order,
    /// before any numeric work.
    pub fn new(
        span: &str,
        beta: &str,
        interaction_type: SmoothType,
        bbox: &Bbox,
        reso_x: u32,
        reso_y: u32,
        n_thread: u32,
    ) -> (r: Result<StewartPotentialGrid, Error>)
        ensures
            r is Ok <==> (reso_x >= 1 && reso_y >= 1 && n_thread >= 1 && num_lt("0"@, span@)),
            (reso_x == 0 || reso_y == 0) ==> r == Err::<StewartPotentialGrid, Error>(
                Error::InvalidResolution,
            ),
            (reso_x >= 1 && reso_y >= 1 && n_thread == 0) ==> r == Err::<
                StewartPotentialGrid,
                Error,
            >(Error::InvalidParallelism),
            (reso_x >= 1 && reso_y >= 1 && n_thread >= 1 && !num_lt("0"@, span@)) ==> r == Err::<
                StewartPotentialGrid,
                Error,
            >(Error::InvalidSpan),
            r is Ok ==> ({
                let c = r.unwrap();
                &&& c.smooth_type == interaction_type
                &&& c.reso_x == reso_x
                &&& c.reso_y == reso_y
                &&& c.beta@ == beta@
                &&& c.alpha@ == spec_alpha(interaction_type, span@, beta@)
                &&& bbox_model(c.bbox) == bbox_model(*bbox)
                &&& c.n_thread == n_thread
            }),
    {
        if reso_x == 0 || reso_y == 0 {
            return Err(Error::InvalidResolution);
        }
        if n_thread == 0 {
            return Err(Error::InvalidParallelism);
        }
        if !lt_num("0", span) {
            return Err(Error::InvalidSpan);
        }
        let alpha = match interaction_type {
            SmoothType::Exponential => div_num("0.69314718055994529", &powf_num(span, beta)),
            SmoothType::Pareto => div_num(
                &sub_num(&powf_num("2", &div_num("1", beta)), "1"),
                span,
            ),
        };
        Ok(
            StewartPotentialGrid {
                smooth_type: interaction_type,
                reso_x,
                reso_y,
                beta: beta.to_owned(),
                alpha,
                bbox: Bbox::new(
                    bbox.min_x.clone(),
                    bbox.max_x.clone(),
                    bbox.min_y.clone(),
                    bbox.max_y.clone(),
                ),
                n_thread,
            },
        )
    }

    /// The kernel weight of this configuration at one distance; one half
    /// of the peak weight when the distance equals the configured span.
    pub fn kernel_value(&self, dist: &str) -> (r: String)
        ensures
            r@ == spec_smooth(self.smooth_type, self.alpha@, self.beta@, dist@),
    {
        match self.smooth_type {
            SmoothType::Exponential => exp_num(
                &mul_num(&neg_num(&self.alpha), &powf_num(dist, &self.beta)),
            ),
            SmoothType::Pareto => powf_num(
                &add_num("1", &mul_num(&self.alpha, dist)),
                &neg_num(&self.beta),
            ),
        }
    }
}

/// The potential of the observation set at the place of `cell`, folded in
/// observation order with the configured kernel.
fn potential_value<T: PtValue>(
    cell: &T,
    obs_points: &Vec<T>,
    smooth: SmoothType,
    alpha: &str,
    beta: &str,
) -> (r: String)
    ensures
        r@ == spec_potential(
            obs_points@,
            smooth,
            alpha@,
            beta@,
            cell.spec_x(),
            cell.spec_y(),
        ),
{
    let ghost full = obs_points@;
    let mut sum: String = "0".to_owned();
    let mut i: usize = 0;
    proof {
        assert(full.take(0) =~= Seq::<T>::empty());
    }
    while i < obs_points.len()
        invariant
            i <= full.len(),
            full == obs_points@,
            sum@ == spec_potential(
                full.take(i as int),
                smooth,
                alpha@,
                beta@,
                cell.spec_x(),
                cell.spec_y(),
            ),
        decreases full.len() - i,
    {
        let (x, y, val) = obs_points[i].get_triplet();
        let dist = cell.distance(&x, &y);
        let weight = match smooth {
            SmoothType::Exponential => exp_num(&mul_num(&neg_num(alpha), &powf_num(&dist, beta))),
            SmoothType::Pareto => powf_num(&add_num("1", &mul_num(alpha, &dist)), &neg_num(beta)),
        };
        sum = add_num(&sum, &mul_num(&val, &weight));
        proof {
            assert(full.take(i + 1).drop_last() =~= full.take(i as int));
            assert(full.take(i + 1).last() == full[i as int]);
        }
        i += 1;
    }
    proof {
        assert(full.take(full.len() as int) =~= full);
    }
    sum
}

/// A mutable borrow of one element of a vector.
fn vec_index_mut<T>(v: &mut Vec<T>, i: usize) -> (element: &mut T)
    requires
        i < old(v)@.len(),
    ensures
        *element == old(v)@[i as int],
        final(v)@ == old(v)@.update(i as int, *final(element)),
{
    &mut v[i]
}

/// Fills the cells `start..end` of a result grid with the potential of the
/// observation set at each cell's own place; every other cell, and every
/// coordinate, is left untouched.
pub fn do_pot_range<T: PtValue>(
    flat_grid: &mut Vec<T>,
    obs_points: &Vec<T>,
    stewart_config: &StewartPotentialGrid,
    start: usize,
    end: usize,
)
    requires
        start <= end <= old(flat_grid)@.len(),
    ensures
        final(flat_grid)@.len() == old(flat_grid)@.len(),
        forall|t: int|
            0 <= t < old(flat_grid)@.len() && !(start <= t < end) ==> final(flat_grid)@[t] == old(
                flat_grid,
            )@[t],
        forall|t: int|
            start <= t < end ==> point_model(#[trigger] final(flat_grid)@[t]) == (
                old(flat_grid)@[t].spec_x(),
                old(flat_grid)@[t].spec_y(),
                spec_potential(
                    obs_points@,
                    stewart_config.smooth_type,
                    stewart_config.alpha@,
                    stewart_config.beta@,
                    old(flat_grid)@[t].spec_x(),
                    old(flat_grid)@[t].spec_y(),
                ),
            ),
{
    let ghost orig = old(flat_grid)@;
    let mut k: usize = start;
    while k < end
        invariant
            start <= k <= end <= orig.len(),
            flat_grid@.len() == orig.len(),
            forall|t: int| 0 <= t < orig.len() && !(start <= t < k) ==> flat_grid@[t] == orig[t],
            forall|t: int|
                start <= t < k ==> point_model(#[trigger] flat_grid@[t]) == (
                    orig[t].spec_x(),
                    orig[t].spec_y(),
                    spec_potential(
                        obs_points@,
                        stewart_config.smooth_type,
                        stewart_config.alpha@,
                        stewart_config.beta@,
                        orig[t].spec_x(),
                        orig[t].spec_y(),
                    ),
                ),
        decreases end - k,
    {
        let val = potential_value(
            &flat_grid[k],
            obs_points,
            stewart_config.smooth_type,
            &stewart_config.alpha,
            &stewart_config.beta,
        );
        let cell = vec_index_mut(flat_grid, k);
        cell.set_value(val);
        k += 1;
    }
}

/// Fills the whole grid in one sequential pass.
fn do_pot<T: PtValue>(
    flat_grid: &mut Vec<T>,
    obs_points: &Vec<T>,
    stewart_config: &StewartPotentialGrid,
)
    ensures
        final(flat_grid)@.len() == old(flat_grid)@.len(),
        forall|t: int|
            0 <= t < old(flat_grid)@.len() ==> point_model(#[trigger] final(flat_grid)@[t]) == (
                old(flat_grid)@[t].spec_x(),
                old(flat_grid)@[t].spec_y(),
                spec_potential(
                    obs_points@,
                    stewart_config.smooth_type,
                    stewart_config.alpha@,
                    stewart_config.beta@,
                    old(flat_grid)@[t].spec_x(),
                    old(flat_grid)@[t].spec_y(),
                ),
            ),
{
    let len = flat_grid.len();
    do_pot_range(flat_grid, obs_points, stewart_config, 0, len);
}

/// Fills the grid in contiguous chunks, one per configured worker. Every
/// cell is computed wholly within one chunk, so the result is the same as
/// the sequential pass, cell for cell.
fn do_pot_par<T: PtValue>(
    flat_grid: &mut Vec<T>,
    obs_points: &Vec<T>,
    stewart_config: &StewartPotentialGrid,
)
    requires
        stewart_config.n_thread >= 2,
    ensures
        final(flat_grid)@.len() == old(flat_grid)@.len(),
        forall|t: int|
            0 <= t < old(flat_grid)@.len() ==> point_model(#[trigger] final(flat_grid)@[t]) == (
                old(flat_grid)@[t].spec_x(),
                old(flat_grid)@[t].spec_y(),
                spec_potential(
                    obs_points@,
                    stewart_config.smooth_type,
                    stewart_config.alpha@,
                    stewart_config.beta@,
                    old(flat_grid)@[t].spec_x(),
                    old(flat_grid)@[t].spec_y(),
                ),
            ),
{
    let ghost orig = old(flat_grid)@;
    let len = flat_grid.len();
    let nb = stewart_config.n_thread as usize;
    proof {
        assert(len / nb <= len / 2 && (len % nb == 0 && len >= 1 ==> len / nb >= 1))
            by (nonlinear_arith)
            requires
                nb >= 2,
                len >= 0,
        ;
    }
    let chunk = if len % nb != 0 {
        len / nb + 1
    } else {
        len / nb
    };
    let mut start: usize = 0;
    while start < len
        invariant
            chunk >= 1 || start >= len,
            start <= len,
            flat_grid@.len() == orig.len() == len,
            forall|t: int| start <= t < len ==> flat_grid@[t] == orig[t],
            forall|t: int|
                0 <= t < start ==> point_model(#[trigger] flat_grid@[t]) == (
                    orig[t].spec_x(),
                    orig[t].spec_y(),
                    spec_potential(
                        obs_points@,
                        stewart_config.smooth_type,
                        stewart_config.alpha@,
                        stewart_config.beta@,
                        orig[t].spec_x(),
                        orig[t].spec_y(),
                    ),
                ),
        decreases len - start,
    {
        let end = if len - start < chunk {
            len
        } else {
            start + chunk
        };
        do_pot_range(flat_grid, obs_points, stewart_config, start, end);
        start = end;
    }
}

/// Potential smoothing of the whole grid described by the configuration.
/// The flat result is in row-major order with the x index outermost; each
/// cell holds the unnormalized kernel-weighted sum of the observed values.
/// The degree of parallelism selects the execution strategy and never
/// changes the result. An empty observation set is rejected.
pub fn stewart<T: PtValue>(
    stewart_config: &StewartPotentialGrid,
    obs_points: &Vec<T>,
) -> (r: Result<Vec<T>, Error>)
    requires
        stewart_config.reso_x as int * stewart_config.reso_y as int <= u32::MAX as int,
    ensures
        r is Ok <==> obs_points@.len() >= 1,
        r is Err ==> r == Err::<Vec<T>, Error>(Error::EmptyObservations),
        r is Ok ==> r.unwrap()@.len() == stewart_config.reso_x as int
            * stewart_config.reso_y as int,
        r is Ok ==> forall|k: int|
            0 <= k < r.unwrap()@.len() ==> point_model(#[trigger] r.unwrap()@[k])
                == spec_stewart_cell(*stewart_config, obs_points@, k),
{
    if obs_points.len() == 0 {
        return Err(Error::EmptyObservations);
    }
    let mut plots: Vec<T> = build_grid(
        &stewart_config.bbox,
        stewart_config.reso_x,
        stewart_config.reso_y,
    );
    if stewart_config.n_thread < 2 {
        do_pot(&mut plots, obs_points, stewart_config);
    } else {
        do_pot_par(&mut plots, obs_points, stewart_config);
    }
    Ok(plots)
}

/// Partitioning is invisible in the result: two configurations that differ
/// at most in their degree of parallelism describe the same result grid,
/// cell for cell, whatever the observation set.
pub proof fn lemma_parallelism_invisible<T: PtValue>(
    c1: StewartPotentialGrid,
    c2: StewartPotentialGrid,
    obs: Seq<T>,
    k: int,
)
    requires
        c1.smooth_type == c2.smooth_type,
        c1.reso_x == c2.reso_x,
        c1.reso_y == c2.reso_y,
        c1.beta@ == c2.beta@,
        c1.alpha@ == c2.alpha@,
        bbox_model(c1.bbox) == bbox_model(c2.bbox),
    ensures
        spec_stewart_cell(c1, obs, k) == spec_stewart_cell(c2, obs, k),
{
}

} // verus!
