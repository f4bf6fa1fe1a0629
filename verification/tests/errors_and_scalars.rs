use smoomars::utils::{almost_equal, CartesianPtValue, PtValue, SphericalPtValue};
use smoomars::bbox::Bbox;
use smoomars::distance::{euclidian_distance, haversine_distance};
use smoomars::errors::Error;
use smoomars::idw::{idw_interpolation1, Idw};
use smoomars::pot_stewart::{stewart, SmoothType, StewartPotentialGrid};
use smoomars::rbf::{kernel_from_name, rbf_interpolation, rbf_kernel_value, Rbf, RbfKernel};

fn cpt(x: f64, y: f64, value: f64) -> CartesianPtValue {
    CartesianPtValue::new(format!("{}", x), format!("{}", y), format!("{}", value))
}

fn unit_box() -> Bbox {
    Bbox::new(
        String::from("0"),
        String::from("1"),
        String::from("0"),
        String::from("1"),
    )
}

#[test]
fn euclidian_distance_of_a_three_four_triangle() {
    let d = euclidian_distance("0", "0", "3.0", "4.0");
    assert_eq!(d.parse::<f64>().unwrap(), 5.0);
    let zero = euclidian_distance("2.5", "-7", "2.5", "-7");
    assert_eq!(zero.parse::<f64>().unwrap(), 0.0);
}

#[test]
fn haversine_distance_matches_direct_evaluation() {
    let d: f64 = haversine_distance("32.0", "1.0", "35.0", "4.0").parse().unwrap();
    let (th1, ph1, th2, ph2) = (32.0f64, 1.0f64, 35.0f64, 4.0f64);
    let dlon = (ph1 - ph2).to_radians();
    let t1 = th1.to_radians();
    let t2 = th2.to_radians();
    let dz = t1.sin() - t2.sin();
    let dx = dlon.cos() * t1.cos() - t2.cos();
    let dy = dlon.sin() * t1.cos();
    let expected = ((dx * dx + dy * dy + dz * dz).sqrt() / 2.0).asin() * 2.0 * 6372.8;
    assert_eq!(d, expected);
    assert!(d > 430.0 && d < 460.0);
    let same: f64 = haversine_distance("32.0", "1.0", "32.0", "1.0").parse().unwrap();
    assert_eq!(same, 0.0);
}

#[test]
fn spherical_point_distance_is_in_metres() {
    let a = SphericalPtValue::new(
        String::from("1.0"),
        String::from("32.0"),
        String::from("0"),
    );
    let km: f64 = haversine_distance("32.0", "1.0", "35.0", "4.0").parse().unwrap();
    let m: f64 = a.distance("4.0", "35.0").parse().unwrap();
    assert!((m - km * 1000.0).abs() < 1e-6 * m.abs());
}

#[test]
fn almost_equal_cases() {
    assert!(almost_equal("1.0", "1.0", "0.0000001"));
    assert!(almost_equal("1.0", "1.00000001", "0.001"));
    assert!(!almost_equal("1.0", "1.1", "0.001"));
    assert!(!almost_equal("0", "0.5", "0.001"));
    assert!(almost_equal("-3.5", "-3.5", "0.0000001"));
}

#[test]
fn kernel_names_resolve_exactly() {
    assert_eq!(kernel_from_name("linear"), Some(RbfKernel::Linear));
    assert_eq!(kernel_from_name("cubic"), Some(RbfKernel::Cubic));
    assert_eq!(kernel_from_name("quintic"), Some(RbfKernel::Quintic));
    assert_eq!(kernel_from_name("thin_plate"), Some(RbfKernel::ThinPlate));
    assert_eq!(kernel_from_name("gaussian"), Some(RbfKernel::Gaussian));
    assert_eq!(kernel_from_name("multiquadratic"), Some(RbfKernel::Multiquadratic));
    assert_eq!(
        kernel_from_name("inverse_multiquadratic"),
        Some(RbfKernel::InverseMultiquadratic)
    );
    assert_eq!(kernel_from_name("Linear"), None);
    assert_eq!(kernel_from_name(""), None);
}

#[test]
fn kernel_transforms_match_their_formulas() {
    let (r, eps) = (2.0f64, 5.0f64);
    let value = |k: RbfKernel| -> f64 {
        rbf_kernel_value(k, "2.0", "5.0").parse().unwrap()
    };
    assert_eq!(value(RbfKernel::Linear), r);
    assert_eq!(value(RbfKernel::Cubic), r.powi(3));
    assert_eq!(value(RbfKernel::Quintic), r.powi(5));
    assert_eq!(value(RbfKernel::ThinPlate), r.powi(2) * r.ln());
    assert_eq!(value(RbfKernel::Gaussian), (-(r / eps).powi(2)).exp());
    assert_eq!(value(RbfKernel::Multiquadratic), ((r / eps).powi(2) + 1.0).sqrt());
    assert_eq!(
        value(RbfKernel::InverseMultiquadratic),
        1.0 / ((r / eps).powi(2) + 1.0).sqrt()
    );
    let at_zero: f64 = rbf_kernel_value(RbfKernel::ThinPlate, "0", "5.0").parse().unwrap();
    assert_eq!(at_zero, 0.0);
}

#[test]
fn unknown_kernel_name_is_rejected() {
    let obs = vec![cpt(0.0, 0.0, 1.0), cpt(1.0, 1.0, 2.0)];
    assert_eq!(Rbf::new(&obs, "nearest", None).err(), Some(Error::UnknownKernelName));
    assert_eq!(
        rbf_interpolation(2, 2, &unit_box(), &obs, "nearest", None).err(),
        Some(Error::UnknownKernelName)
    );
}

#[test]
fn coincident_points_make_a_singular_system() {
    let obs = vec![cpt(1.0, 1.0, 2.0), cpt(1.0, 1.0, 3.0), cpt(4.0, 0.0, 1.0)];
    assert_eq!(Rbf::new(&obs, "linear", None).err(), Some(Error::SingularSystem));
}

#[test]
fn idw_without_observations_reports_zero_weight_sum() {
    let obs: Vec<CartesianPtValue> = vec![];
    assert_eq!(
        idw_interpolation1(2, 2, &unit_box(), &obs, "2.0").err(),
        Some(Error::ZeroWeightSum)
    );
    let idw = Idw::new(&obs, String::from("2.0"));
    assert_eq!(idw.interp_point("0.5", "0.5").err(), Some(Error::ZeroWeightSum));
}

#[test]
fn stewart_without_observations_is_rejected() {
    let obs: Vec<SphericalPtValue> = vec![];
    let conf = StewartPotentialGrid::new(
        "100.0",
        "2.0",
        SmoothType::Exponential,
        &unit_box(),
        2,
        2,
        1,
    )
    .unwrap();
    assert_eq!(stewart(&conf, &obs).err(), Some(Error::EmptyObservations));
}

#[test]
fn invalid_configurations_are_rejected_in_order() {
    let bbox = unit_box();
    assert_eq!(
        StewartPotentialGrid::new("100.0", "2.0", SmoothType::Pareto, &bbox, 0, 4, 1).err(),
        Some(Error::InvalidResolution)
    );
    assert_eq!(
        StewartPotentialGrid::new("100.0", "2.0", SmoothType::Pareto, &bbox, 4, 0, 1).err(),
        Some(Error::InvalidResolution)
    );
    assert_eq!(
        StewartPotentialGrid::new("100.0", "2.0", SmoothType::Pareto, &bbox, 4, 4, 0).err(),
        Some(Error::InvalidParallelism)
    );
    assert_eq!(
        StewartPotentialGrid::new("0", "2.0", SmoothType::Pareto, &bbox, 4, 4, 1).err(),
        Some(Error::InvalidSpan)
    );
    assert_eq!(
        StewartPotentialGrid::new("-4.5", "2.0", SmoothType::Exponential, &bbox, 4, 4, 1).err(),
        Some(Error::InvalidSpan)
    );
}

#[test]
fn exponential_alpha_matches_its_closed_form() {
    let conf = StewartPotentialGrid::new(
        "15000.0",
        "2.0",
        SmoothType::Exponential,
        &unit_box(),
        4,
        4,
        1,
    )
    .unwrap();
    let alpha: f64 = conf.alpha.parse().unwrap();
    assert_eq!(alpha, 0.69314718055994529f64 / 15000.0f64.powf(2.0));
    let kern: f64 = conf.kernel_value("5000.0").parse().unwrap();
    assert_eq!(kern, (-alpha * 5000.0f64.powf(2.0)).exp());
}

#[test]
fn pareto_alpha_matches_its_closed_form() {
    let conf = StewartPotentialGrid::new(
        "15000.0",
        "3.0",
        SmoothType::Pareto,
        &unit_box(),
        4,
        4,
        1,
    )
    .unwrap();
    let alpha: f64 = conf.alpha.parse().unwrap();
    assert_eq!(alpha, (2.0f64.powf(1.0 / 3.0) - 1.0) / 15000.0);
    let kern: f64 = conf.kernel_value("5000.0").parse().unwrap();
    assert_eq!(kern, (1.0 + alpha * 5000.0).powf(-3.0));
}

#[test]
fn bbox_from_points_is_the_tight_envelope() {
    let obs = vec![
        cpt(3.0, -1.0, 0.0),
        cpt(-2.5, 4.0, 0.0),
        cpt(0.5, 9.25, 0.0),
        cpt(7.0, 2.0, 0.0),
    ];
    let bbox = Bbox::from_points(&obs);
    assert_eq!(bbox.min_x.parse::<f64>().unwrap(), -2.5);
    assert_eq!(bbox.max_x.parse::<f64>().unwrap(), 7.0);
    assert_eq!(bbox.min_y.parse::<f64>().unwrap(), -1.0);
    assert_eq!(bbox.max_y.parse::<f64>().unwrap(), 9.25);
    let one = vec![cpt(1.5, 2.5, 3.0)];
    let tight = Bbox::from_points(&one);
    assert_eq!(tight.min_x, tight.max_x);
    assert_eq!(tight.min_y, tight.max_y);
}

#[test]
fn idw_favours_a_nearly_coincident_observation() {
    let obs = vec![cpt(0.0, 0.0, 5.0), cpt(1.0, 1.0, 9.0)];
    let idw = Idw::new(&obs, String::from("2.0"));
    let near: f64 = idw.interp_point("0.000000001", "0.0").unwrap().parse().unwrap();
    assert!((near - 5.0).abs() < 1e-6, "estimate near the first observation was {}", near);
}
