//! Radial-basis-function interpolation: a dense kernel (Gram) matrix over
//! the observation points is solved once for per-point weights, and every
//! query point is then the weighted kernel sum of its distances to the
//! observations. Evaluating at an observation's own place reproduces its
//! observed value to solver precision.

use vstd::prelude::*;
use crate::bbox::Bbox;
use crate::errors::Error;
use crate::grid::{cell_coord, grid_step, spec_grid_x, spec_grid_y, spec_step};
use crate::scalar::{
    add_num, dec_of_usize, diff_of, div_num, eq_num, exp_num, exp_of, ln_num, ln_of, mul_num,
    neg_num, neg_of, num_eq, powi_num, powi_of, prod_of, quot_of, sqrt_num, sqrt_of, sub_num,
    sum_of, usize_num,
};
use crate::utils::{point_model, str_eq, PtValue};

verus! {

/// The supported radial kernels, selected once by name at construction and
/// dispatched by variant on every evaluation.
#[derive(Clone, Copy, Debug, PartialEq, Eq, Structural)]
pub enum RbfKernel {
    Linear,
    Cubic,
    ThinPlate,
    Quintic,
    Gaussian,
    Multiquadratic,
    InverseMultiquadratic,
}

/// The kernel selected by each recognized name; any other name is a fatal
/// configuration mistake.
pub open spec fn spec_kernel_of_name(name: Seq<char>) -> Option<RbfKernel> {
    if name == "linear"@ {
        Some(RbfKernel::Linear)
    } else if name == "cubic"@ {
        Some(RbfKernel::Cubic)
    } else if name == "thin_plate"@ {
        Some(RbfKernel::ThinPlate)
    } else if name == "quintic"@ {
        Some(RbfKernel::Quintic)
    } else if name == "gaussian"@ {
        Some(RbfKernel::Gaussian)
    } else if name == "multiquadratic"@ {
        Some(RbfKernel::Multiquadratic)
    } else if name == "inverse_multiquadratic"@ {
        Some(RbfKernel::InverseMultiquadratic)
    } else {
        None
    }
}

/// Resolves a kernel name, accepting exactly the seven supported names.
pub fn kernel_from_name(name: &str) -> (r: Option<RbfKernel>)
    ensures
        r == spec_kernel_of_name(name@),
{
    if str_eq(name, "linear") {
        Some(RbfKernel::Linear)
    } else if str_eq(name, "cubic") {
        Some(RbfKernel::Cubic)
    } else if str_eq(name, "thin_plate") {
        Some(RbfKernel::ThinPlate)
    } else if str_eq(name, "quintic") {
        Some(RbfKernel::Quintic)
    } else if str_eq(name, "gaussian") {
        Some(RbfKernel::Gaussian)
    } else if str_eq(name, "multiquadratic") {
        Some(RbfKernel::Multiquadratic)
    } else if str_eq(name, "inverse_multiquadratic") {
        Some(RbfKernel::InverseMultiquadratic)
    } else {
        None
    }
}

/// The kernel transform of one distance `r` under the bandwidth `eps`:
/// `r`, `r^3`, `r^5`, `r^2 ln r` (zero at zero), `exp(-(r/eps)^2)`,
/// `sqrt((r/eps)^2 + 1)` or its reciprocal.
pub open spec fn spec_rbf_kernel(kern: RbfKernel, r: Seq<char>, eps: Seq<char>) -> Seq<char> {
    match kern {
        RbfKernel::Linear => r,
        RbfKernel::Cubic => powi_of(r, 3),
        RbfKernel::ThinPlate => if num_eq(r, "0"@) {
            "0"@
        } else {
            prod_of(powi_of(r, 2), ln_of(r))
        },
        RbfKernel::Quintic => powi_of(r, 5),
        RbfKernel::Gaussian => exp_of(neg_of(powi_of(quot_of(r, eps), 2))),
        RbfKernel::Multiquadratic => sqrt_of(sum_of(powi_of(quot_of(r, eps), 2), "1"@)),
        RbfKernel::InverseMultiquadratic => quot_of(
            "1"@,
            sqrt_of(sum_of(powi_of(quot_of(r, eps), 2), "1"@)),
        ),
    }
}

/// The kernel transform of one distance.
pub fn rbf_kernel_value(kern: RbfKernel, r: &str, eps: &str) -> (v: String)
    ensures
        v@ == spec_rbf_kernel(kern, r@, eps@),
{
    match kern {
        RbfKernel::Linear => r.to_owned(),
        RbfKernel::Cubic => powi_num(r, 3),
        RbfKernel::ThinPlate => if eq_num(r, "0") {
            "0".to_owned()
        } else {
            mul_num(&powi_num(r, 2), &ln_num(r))
        },
        RbfKernel::Quintic => powi_num(r, 5),
        RbfKernel::Gaussian => exp_num(&neg_num(&powi_num(&div_num(r, eps), 2))),
        RbfKernel::Multiquadratic => sqrt_num(&add_num(&powi_num(&div_num(r, eps), 2), "1")),
        RbfKernel::InverseMultiquadratic => div_num(
            "1",
            &sqrt_num(&add_num(&powi_num(&div_num(r, eps), 2), "1")),
        ),
    }
}

/// The planar norm `sqrt((ax - bx)^2 + (ay - by)^2)` between two places,
/// whatever coordinate system the points carry.
pub open spec fn spec_norm(ax: Seq<char>, ay: Seq<char>, bx: Seq<char>, by: Seq<char>) -> Seq<
    char,
> {
    sqrt_of(sum_of(powi_of(diff_of(ax, bx), 2), powi_of(diff_of(ay, by), 2)))
}

/// The planar norm between two places given by their coordinates.
fn planar_norm(ax: &str, ay: &str, bx: &str, by: &str) -> (r: String)
    ensures
        r@ == spec_norm(ax@, ay@, bx@, by@),
{
    sqrt_num(&add_num(&powi_num(&sub_num(ax, bx), 2), &powi_num(&sub_num(ay, by), 2)))
}

/// The flat pairwise-distance matrix of an observation set, row-major with
/// the second point index outermost: entry `j*n + i` is the norm from point
/// `i` to point `j`. It is symmetric with a zero diagonal.
pub open spec fn spec_norm_matrix<T: PtValue>(obs: Seq<T>) -> Seq<Seq<char>> {
    let n = obs.len() as int;
    Seq::new(
        (n * n) as nat,
        |idx: int|
            spec_norm(
                obs[idx % n].spec_x(),
                obs[idx % n].spec_y(),
                obs[idx / n].spec_x(),
                obs[idx / n].spec_y(),
            ),
    )
}

/// The left-to-right sum of a sequence of scalars.
pub open spec fn spec_sum_all(s: Seq<Seq<char>>) -> Seq<char>
    decreases s.len(),
{
    if s.len() == 0 {
        "0"@
    } else {
        sum_of(spec_sum_all(s.drop_last()), s.last())
    }
}

/// The bandwidth actually used: the one supplied, or, by default, the mean
/// of the pairwise distances over the off-diagonal count `n^2 - n` (the
/// summed diagonal contributes only zeros).
pub open spec fn spec_eps<T: PtValue>(obs: Seq<T>, epsilon: Option<Seq<char>>) -> Seq<char> {
    match epsilon {
        Some(e) => e,
        None => quot_of(
            spec_sum_all(spec_norm_matrix(obs)),
            diff_of(
                powi_of(dec_of_usize(obs.len() as usize), 2),
                dec_of_usize(obs.len() as usize),
            ),
        ),
    }
}

/// The Gram matrix: the kernel transform of every entry of the pairwise
/// distance matrix.
pub open spec fn spec_gram<T: PtValue>(
    obs: Seq<T>,
    kern: RbfKernel,
    eps: Seq<char>,
) -> Seq<Seq<char>> {
    let norms = spec_norm_matrix(obs);
    Seq::new(norms.len(), |idx: int| spec_rbf_kernel(kern, norms[idx], eps))
}

/// The observed values, in observation order.
pub open spec fn spec_vals<T: PtValue>(obs: Seq<T>) -> Seq<Seq<char>> {
    Seq::new(obs.len(), |i: int| obs[i].spec_value())
}

/// What the dense solver returns on a flat `n` by `n` system and a
/// right-hand side of length `n`: the weight sequence, or nothing when the
/// system is singular or too ill-conditioned.
pub uninterp spec fn lu_solve(gram: Seq<Seq<char>>, vals: Seq<Seq<char>>) -> Option<
    Seq<Seq<char>>,
>;

/// Relies on `rulinalg::matrix::Matrix::solve`: a partial-pivot LU solve of
/// the square system, a deterministic function of the matrix and the
/// right-hand side, failing on singular or very ill-conditioned systems.
#[verifier::external_body]
fn solve_system(n: usize, gram: &Vec<String>, vals: &Vec<String>) -> (r: Option<Vec<String>>)
    requires
        gram@.len() == n * n,
        vals@.len() == n,
    ensures
        r is Some <==> lu_solve(gram.deep_view(), vals.deep_view()) is Some,
        r is Some ==> r.unwrap().deep_view() == lu_solve(
            gram.deep_view(),
            vals.deep_view(),
        ).unwrap(),
        r is Some ==> r.unwrap()@.len() == vals@.len(),
{
    let z = serde_json::Number::from(0u8).as_f64().unwrap();
    let data: Vec<_> = gram.iter().map(|s| s.parse().unwrap_or(z)).collect();
    let rhs: Vec<_> = vals.iter().map(|s| s.parse().unwrap_or(z)).collect();
    let mat = rulinalg::matrix::Matrix::new(n, n, data);
    match mat.solve(rulinalg::vector::Vector::new(rhs)) {
        Ok(w) => Some(w.into_vec().into_iter().map(|v| format!("{}", v)).collect()),
        Err(_) => None,
    }
}

/// The weights of one observation set under one kernel and bandwidth, when
/// the Gram system has a solution.
pub open spec fn spec_weights<T: PtValue>(obs: Seq<T>, kern: RbfKernel, eps: Seq<char>) -> Option<
    Seq<Seq<char>>,
> {
    lu_solve(spec_gram(obs, kern, eps), spec_vals(obs))
}

/// The weighted kernel sum at the place `(x, y)`: the observations folded
/// left to right, each adding the kernel transform of its norm from the
/// place times its weight.
pub open spec fn spec_interp<T: PtValue>(
    obs: Seq<T>,
    kern: RbfKernel,
    eps: Seq<char>,
    weights: Seq<Seq<char>>,
    x: Seq<char>,
    y: Seq<char>,
) -> Seq<char>
    decreases obs.len(),
{
    if obs.len() == 0 {
        "0"@
    } else {
        let prev = spec_interp(obs.drop_last(), kern, eps, weights.drop_last(), x, y);
        let o = obs.last();
        sum_of(
            prev,
            prod_of(
                spec_rbf_kernel(kern, spec_norm(x, y, o.spec_x(), o.spec_y()), eps),
                weights.last(),
            ),
        )
    }
}

/// A radial-basis interpolator bound to one observation set: the kernel, the
/// bandwidth, and the solved weight vector, reused by every query.
pub struct Rbf<'a, T> {
    pub obs_points: &'a Vec<T>,
    pub weights: Vec<String>,
    pub kernel: RbfKernel,
    pub epsilon: String,
}

/// Whether an interpolator is the one that its observation set, kernel
/// name and optional bandwidth describe.
pub open spec fn rbf_well_formed<T: PtValue>(
    rbf: Rbf<T>,
    obs: Seq<T>,
    name: Seq<char>,
    epsilon: Option<Seq<char>>,
) -> bool {
    &&& rbf.obs_points@ == obs
    &&& Some(rbf.kernel) == spec_kernel_of_name(name)
    &&& rbf.epsilon@ == spec_eps(obs, epsilon)
    &&& Some(rbf.weights.deep_view()) == spec_weights(obs, rbf.kernel, rbf.epsilon@)
    &&& rbf.weights@.len() == obs.len()
}

impl<'a, T: PtValue> Rbf<'a, T> {
    /// Builds the interpolator: resolves the kernel name, fills the
    /// pairwise distance matrix, resolves the bandwidth, applies the kernel
    /// to every entry, and solves the dense system for the weights. An
    /// unrecognized name is reported before any numeric work; a singular
    /// system is reported by the solver.
    pub fn new(obs_points: &'a Vec<T>, distance_function: &str, epsilon: Option<String>) -> (r:
        Result<Rbf<'a, T>, Error>)
        requires
            obs_points@.len() >= 2,
            obs_points@.len() * obs_points@.len() <= usize::MAX,
        ensures
            r is Err ==> (r == Err::<Rbf<'a, T>, Error>(Error::UnknownKernelName) || r == Err::<
                Rbf<'a, T>,
                Error,
            >(Error::SingularSystem)),
            r == Err::<Rbf<'a, T>, Error>(Error::UnknownKernelName) <==> spec_kernel_of_name(
                distance_function@,
            ) is None,
            spec_kernel_of_name(distance_function@) is Some ==> ({
                let kern = spec_kernel_of_name(distance_function@).unwrap();
                let eps = spec_eps(obs_points@, epsilon.deep_view());
                &&& (r is Ok <==> spec_weights(obs_points@, kern, eps) is Some)
                &&& (r is Ok ==> rbf_well_formed(
                    r.unwrap(),
                    obs_points@,
                    distance_function@,
                    epsilon.deep_view(),
                ))
            }),
    {
        let ghost eps_arg = epsilon.deep_view();
        let kern = match kernel_from_name(distance_function) {
            Some(k) => k,
            None => {
                return Err(Error::UnknownKernelName);
            },
        };
        let nb_pts = obs_points.len();
        let mut mat: Vec<String> = Vec::new();
        let mut j: usize = 0;
        while j < nb_pts
            invariant
                j <= nb_pts,
                nb_pts == obs_points@.len(),
                nb_pts * nb_pts <= usize::MAX,
                mat@.len() == j * nb_pts,
                forall|idx: int|
                    0 <= idx < mat@.len() ==> (#[trigger] mat@[idx])@ == spec_norm_matrix(
                        obs_points@,
                    )[idx],
            decreases nb_pts - j,
        {
            let mut i: usize = 0;
            proof {
                vstd::arithmetic::mul::lemma_mul_inequality(
                    j as int + 1,
                    nb_pts as int,
                    nb_pts as int,
                );
            }
            while i < nb_pts
                invariant
                    i <= nb_pts,
                    j < nb_pts,
                    nb_pts == obs_points@.len(),
                    nb_pts * nb_pts <= usize::MAX,
                    (j as int + 1) * nb_pts as int <= nb_pts as int * nb_pts as int,
                    mat@.len() == j * nb_pts + i,
                    forall|idx: int|
                        0 <= idx < mat@.len() ==> (#[trigger] mat@[idx])@ == spec_norm_matrix(
                            obs_points@,
                        )[idx],
                decreases nb_pts - i,
            {
                let (ax, ay) = obs_points[i].get_coordinates();
                let (bx, by) = obs_points[j].get_coordinates();
                let norm_val = planar_norm(&ax, &ay, &bx, &by);
                proof {
                    let idx = mat@.len() as int;
                    let n = obs_points@.len() as int;
                    assert(idx / n == j as int && idx % n == i as int && idx < n * n) by (
                    nonlinear_arith)
                        requires
                            idx == j as int * n + i as int,
                            0 <= i < n,
                            0 <= j < n,
                    ;
                    assert(spec_norm_matrix(obs_points@)[idx] == spec_norm(
                        obs_points@[i as int].spec_x(),
                        obs_points@[i as int].spec_y(),
                        obs_points@[j as int].spec_x(),
                        obs_points@[j as int].spec_y(),
                    ));
                    assert(norm_val@ == spec_norm_matrix(obs_points@)[idx]);
                }
                mat.push(norm_val);
                i += 1;
            }
            proof {
                assert((j as int + 1) * nb_pts as int == j as int * nb_pts as int
                    + nb_pts as int) by (nonlinear_arith);
            }
            j += 1;
        }
        let eps = match epsilon {
            Some(e) => e,
            None => {
                let total = sum_all(&mat);
                proof {
                    assert(mat.deep_view() =~= spec_norm_matrix(obs_points@));
                }
                div_num(
                    &total,
                    &sub_num(&powi_num(&usize_num(nb_pts), 2), &usize_num(nb_pts)),
                )
            },
        };
        let mut gram: Vec<String> = Vec::new();
        let mut ix: usize = 0;
        let total_len = mat.len();
        while ix < total_len
            invariant
                ix <= total_len,
                total_len == mat@.len(),
                mat@.len() == nb_pts * nb_pts,
                nb_pts == obs_points@.len(),
                Some(kern) == spec_kernel_of_name(distance_function@),
                eps@ == spec_eps(obs_points@, eps_arg),
                forall|idx: int|
                    0 <= idx < mat@.len() ==> (#[trigger] mat@[idx])@ == spec_norm_matrix(
                        obs_points@,
                    )[idx],
                gram@.len() == ix,
                forall|idx: int|
                    0 <= idx < ix ==> (#[trigger] gram@[idx])@ == spec_gram(
                        obs_points@,
                        kern,
                        spec_eps(obs_points@, eps_arg),
                    )[idx],
            decreases total_len - ix,
        {
            gram.push(rbf_kernel_value(kern, &mat[ix], &eps));
            ix += 1;
        }
        let mut values: Vec<String> = Vec::new();
        let mut i: usize = 0;
        while i < nb_pts
            invariant
                i <= nb_pts,
                nb_pts == obs_points@.len(),
                values@.len() == i,
                forall|t: int|
                    0 <= t < i ==> (#[trigger] values@[t])@ == obs_points@[t].spec_value(),
            decreases nb_pts - i,
        {
            values.push(obs_points[i].get_value());
            i += 1;
        }
        proof {
            assert(gram.deep_view() =~= spec_gram(
                obs_points@,
                kern,
                spec_eps(obs_points@, eps_arg),
            ));
            assert(values.deep_view() =~= spec_vals(obs_points@));
        }
        let weights = match solve_system(nb_pts, &gram, &values) {
            Some(w) => w,
            None => {
                return Err(Error::SingularSystem);
            },
        };
        Ok(Rbf { obs_points, weights, kernel: kern, epsilon: eps })
    }

    /// The interpolated value at one query point: the kernel transform of
    /// the norm to every observation, dotted with the solved weights.
    pub fn interp_point(&self, x: &str, y: &str) -> (r: String)
        requires
            self.weights@.len() == self.obs_points@.len(),
        ensures
            r@ == spec_interp(
                self.obs_points@,
                self.kernel,
                self.epsilon@,
                self.weights.deep_view(),
                x@,
                y@,
            ),
    {
        let ghost obs = self.obs_points@;
        let ghost w = self.weights.deep_view();
        let mut acc: String = "0".to_owned();
        let mut i: usize = 0;
        proof {
            assert(obs.take(0) =~= Seq::<T>::empty());
        }
        while i < self.obs_points.len()
            invariant
                i <= obs.len(),
                obs == self.obs_points@,
                w == self.weights.deep_view(),
                w.len() == obs.len(),
                acc@ == spec_interp(
                    obs.take(i as int),
                    self.kernel,
                    self.epsilon@,
                    w.take(i as int),
                    x@,
                    y@,
                ),
            decreases obs.len() - i,
        {
            let (ox, oy) = obs_coordinates(self.obs_points, i);
            let a = planar_norm(x, y, &ox, &oy);
            let transformed = rbf_kernel_value(self.kernel, &a, &self.epsilon);
            acc = add_num(&acc, &mul_num(&transformed, &self.weights[i]));
            proof {
                assert(obs.take(i + 1).drop_last() =~= obs.take(i as int));
                assert(w.take(i + 1).drop_last() =~= w.take(i as int));
                assert(obs.take(i + 1).last() == obs[i as int]);
                assert(w.take(i + 1).last() == w[i as int]);
                assert(w[i as int] == self.weights@[i as int]@);
            }
            i += 1;
        }
        proof {
            assert(obs.take(obs.len() as int) =~= obs);
            assert(w.take(obs.len() as int) =~= w);
        }
        acc
    }
}

/// The coordinates of one observation.
fn obs_coordinates<T: PtValue>(obs_points: &Vec<T>, i: usize) -> (r: (String, String))
    requires
        i < obs_points@.len(),
    ensures
        r.0@ == obs_points@[i as int].spec_x(),
        r.1@ == obs_points@[i as int].spec_y(),
{
    obs_points[i].get_coordinates()
}

/// The left-to-right sum of a flat matrix.
fn sum_all(mat: &Vec<String>) -> (r: String)
    ensures
        r@ == spec_sum_all(mat.deep_view()),
{
    let ghost dv = mat.deep_view();
    let mut s: String = "0".to_owned();
    let mut i: usize = 0;
    proof {
        assert(dv.take(0) =~= Seq::<Seq<char>>::empty());
    }
    while i < mat.len()
        invariant
            i <= dv.len(),
            dv == mat.deep_view(),
            dv.len() == mat@.len(),
            s@ == spec_sum_all(dv.take(i as int)),
        decreases dv.len() - i,
    {
        s = add_num(&s, &mat[i]);
        proof {
            assert(dv.take(i + 1).drop_last() =~= dv.take(i as int));
            assert(dv.take(i + 1).last() == dv[i as int]);
            assert(dv[i as int] == mat@[i as int]@);
        }
        i += 1;
    }
    proof {
        assert(dv.take(dv.len() as int) =~= dv);
    }
    s
}

/// The model of the flat cell `k` of a radial-basis result grid: its two
/// coordinates and the weighted kernel sum there.
pub open spec fn spec_rbf_cell<T: PtValue>(
    bbox: Bbox,
    reso_x: u32,
    reso_y: u32,
    obs: Seq<T>,
    kern: RbfKernel,
    eps: Seq<char>,
    weights: Seq<Seq<char>>,
    k: int,
) -> (Seq<char>, Seq<char>, Seq<char>) {
    let x = spec_grid_x(bbox, reso_x, reso_y, k);
    let y = spec_grid_y(bbox, reso_x, reso_y, k);
    (x, y, spec_interp(obs, kern, eps, weights, x, y))
}

/// Radial-basis interpolation of the whole grid over `bbox`: one
/// interpolator construction, then one query per cell, in row-major order
/// with the x index outermost.
pub fn rbf_interpolation<T: PtValue>(
    reso_x: u32,
    reso_y: u32,
    bbox: &Bbox,
    obs_points: &Vec<T>,
    func_name: &str,
    epsilon: Option<String>,
) -> (r: Result<Vec<T>, Error>)
    requires
        reso_x >= 1,
        reso_y >= 1,
        reso_x as int * reso_y as int <= u32::MAX as int,
        obs_points@.len() >= 2,
        obs_points@.len() * obs_points@.len() <= usize::MAX,
    ensures
        r is Err ==> (r == Err::<Vec<T>, Error>(Error::UnknownKernelName) || r == Err::<
            Vec<T>,
            Error,
        >(Error::SingularSystem)),
        r == Err::<Vec<T>, Error>(Error::UnknownKernelName) <==> spec_kernel_of_name(
            func_name@,
        ) is None,
        spec_kernel_of_name(func_name@) is Some ==> ({
            let kern = spec_kernel_of_name(func_name@).unwrap();
            let eps = spec_eps(obs_points@, epsilon.deep_view());
            &&& (r is Ok <==> spec_weights(obs_points@, kern, eps) is Some)
            &&& (r is Ok ==> ({
                let weights = spec_weights(obs_points@, kern, eps).unwrap();
                &&& r.unwrap()@.len() == reso_x as int * reso_y as int
                &&& forall|k: int|
                    0 <= k < r.unwrap()@.len() ==> point_model(#[trigger] r.unwrap()@[k])
                        == spec_rbf_cell(
                        *bbox,
                        reso_x,
                        reso_y,
                        obs_points@,
                        kern,
                        eps,
                        weights,
                        k,
                    )
            }))
        }),
{
    let ghost eps_arg = epsilon.deep_view();
    let x_step = grid_step(&bbox.min_x, &bbox.max_x, reso_x);
    let y_step = grid_step(&bbox.min_y, &bbox.max_y, reso_y);
    let rbf = match Rbf::new(obs_points, func_name, epsilon) {
        Ok(rbf) => rbf,
        Err(e) => {
            return Err(e);
        },
    };
    let ghost kern = spec_kernel_of_name(func_name@).unwrap();
    let ghost eps = rbf.epsilon@;
    let ghost weights = rbf.weights.deep_view();
    proof {
        assert(rbf.kernel == kern);
        assert(eps == spec_eps(obs_points@, eps_arg));
        assert(Some(weights) == spec_weights(obs_points@, kern, eps));
    }
    let mut plots: Vec<T> = Vec::new();
    let mut i: u32 = 0;
    while i < reso_x
        invariant
            i <= reso_x,
            reso_x as int * reso_y as int <= u32::MAX as int,
            x_step@ == spec_step(bbox.min_x@, bbox.max_x@, reso_x),
            y_step@ == spec_step(bbox.min_y@, bbox.max_y@, reso_y),
            rbf.obs_points@ == obs_points@,
            rbf.kernel == kern,
            rbf.epsilon@ == eps,
            rbf.weights.deep_view() == weights,
            rbf.weights@.len() == obs_points@.len(),
            Some(kern) == spec_kernel_of_name(func_name@),
            eps == spec_eps(obs_points@, eps_arg),
            Some(weights) == spec_weights(obs_points@, kern, eps),
            plots@.len() == i as int * reso_y as int,
            forall|k: int|
                0 <= k < plots@.len() ==> point_model(#[trigger] plots@[k]) == spec_rbf_cell(
                    *bbox,
                    reso_x,
                    reso_y,
                    obs_points@,
                    kern,
                    eps,
                    weights,
                    k,
                ),
        decreases reso_x - i,
    {
        let mut j: u32 = 0;
        proof {
            vstd::arithmetic::mul::lemma_mul_inequality(i as int + 1, reso_x as int, reso_y as int);
        }
        while j < reso_y
            invariant
                i < reso_x,
                j <= reso_y,
                reso_x as int * reso_y as int <= u32::MAX as int,
                (i as int + 1) * reso_y as int <= reso_x as int * reso_y as int,
                x_step@ == spec_step(bbox.min_x@, bbox.max_x@, reso_x),
                y_step@ == spec_step(bbox.min_y@, bbox.max_y@, reso_y),
                rbf.obs_points@ == obs_points@,
                rbf.kernel == kern,
                rbf.epsilon@ == eps,
                rbf.weights.deep_view() == weights,
                rbf.weights@.len() == obs_points@.len(),
                Some(kern) == spec_kernel_of_name(func_name@),
                eps == spec_eps(obs_points@, eps_arg),
                Some(weights) == spec_weights(obs_points@, kern, eps),
                plots@.len() == i as int * reso_y as int + j as int,
                forall|k: int|
                    0 <= k < plots@.len() ==> point_model(#[trigger] plots@[k]) == spec_rbf_cell(
                        *bbox,
                        reso_x,
                        reso_y,
                        obs_points@,
                        kern,
                        eps,
                        weights,
                        k,
                    ),
            decreases reso_y - j,
        {
            let x = cell_coord(&bbox.min_x, &x_step, i);
            let y = cell_coord(&bbox.min_y, &y_step, j);
            proof {
                let k = plots@.len() as int;
                assert(k / reso_y as int == i as int && k % reso_y as int == j as int) by (
                nonlinear_arith)
                    requires
                        k == i as int * reso_y as int + j as int,
                        0 <= j < reso_y,
                        0 < reso_y,
                ;
            }
            let value = rbf.interp_point(&x, &y);
            plots.push(T::new(x, y, value));
            j += 1;
        }
        proof {
            assert((i as int + 1) * reso_y as int == i as int * reso_y as int + reso_y as int) by (
            nonlinear_arith);
        }
        i += 1;
    }
    Ok(plots)
}

} // verus!
