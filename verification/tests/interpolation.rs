use smoomars::utils::{almost_equal, CartesianPtValue, PtValue, SphericalPtValue};
use smoomars::bbox::Bbox;
use smoomars::idw::idw_interpolation1;
use smoomars::pot_stewart::{stewart, SmoothType, StewartPotentialGrid};
use smoomars::rbf::Rbf;

fn cpt(x: f64, y: f64, value: f64) -> CartesianPtValue {
    CartesianPtValue::new(format!("{}", x), format!("{}", y), format!("{}", value))
}

fn spt(lon: f64, lat: f64, value: f64) -> SphericalPtValue {
    SphericalPtValue::new(format!("{}", lon), format!("{}", lat), format!("{}", value))
}

fn sample_cartesian_points() -> Vec<CartesianPtValue> {
    vec![
        cpt(1.2, 32.3, 415.0),
        cpt(2.4, 33.1, 630.0),
        cpt(3.3, 34.2, 205.0),
        cpt(1.9, 34.7, 510.0),
        cpt(3.8, 32.6, 320.0),
        cpt(2.7, 33.9, 760.0),
    ]
}

fn sample_spherical_points() -> Vec<SphericalPtValue> {
    vec![
        spt(1.2, 32.3, 415.0),
        spt(2.4, 33.1, 630.0),
        spt(3.3, 34.2, 205.0),
        spt(1.9, 34.7, 510.0),
        spt(3.8, 32.6, 320.0),
        spt(2.7, 33.9, 760.0),
    ]
}

fn rbf_observations() -> Vec<CartesianPtValue> {
    vec![
        cpt(0.0, 0.0, 0.0),
        cpt(0.0, 100.0, 6.0),
        cpt(75.0, 25.0, 3.1),
        cpt(100.0, 75.0, 7.4),
    ]
}

#[test]
fn test_idw() {
    let obs_points = sample_cartesian_points();
    let bbox = Bbox::new(
        String::from("1.0"),
        String::from("4.0"),
        String::from("32.0"),
        String::from("35.0"),
    );
    idw_interpolation1(80, 60, &bbox, &obs_points, "2.0").unwrap();
}

#[test]
fn test_stewart_equal_stewart_parallel() {
    let obs_points = sample_spherical_points();
    let bbox = Bbox::new(
        String::from("1.0"),
        String::from("4.0"),
        String::from("32.0"),
        String::from("35.0"),
    );
    let reso_lat: u32 = 80;
    let reso_lon: u32 = 80;
    let conf1 = StewartPotentialGrid::new(
        "15000.0",
        "2.0",
        SmoothType::Exponential,
        &bbox,
        reso_lat,
        reso_lon,
        2,
    )
    .unwrap();
    let res_par = stewart(&conf1, &obs_points).unwrap();
    let conf2 = StewartPotentialGrid::new(
        "15000.0",
        "2.0",
        SmoothType::Exponential,
        &bbox,
        reso_lat,
        reso_lon,
        1,
    )
    .unwrap();
    let res = stewart(&conf2, &obs_points).unwrap();
    assert_eq!(res_par.len(), res.len());
    for i in 0..res.len() {
        let (res_lat, res_lon, res_value) = res_par[i].get_triplet();
        let (verif_lat, verif_lon, verif_value) = res[i].get_triplet();
        assert_eq!(true, almost_equal(&res_lat, &verif_lat, "0.00001"));
        assert_eq!(true, almost_equal(&res_lon, &verif_lon, "0.00001"));
        assert_eq!(true, almost_equal(&res_value, &verif_value, "0.00001"));
    }
}

#[test]
fn test_radial_basis_func_linear() {
    let obs_pts = rbf_observations();
    let rbf = Rbf::new(&obs_pts, "linear", None).unwrap();
    assert_eq!(
        true,
        almost_equal("2.843937337", &rbf.interp_point("0.0", "50.0"), "0.0000001")
    );
    assert_eq!(
        true,
        almost_equal("0.754167644", &rbf.interp_point("12.0", "12.0"), "0.0000001")
    );
}

#[test]
fn test_radial_basis_func_cubic() {
    let obs_pts = rbf_observations();
    let rbf = Rbf::new(&obs_pts, "cubic", None).unwrap();
    assert_eq!(
        true,
        almost_equal("0.554789362", &rbf.interp_point("0.0", "50.0"), "0.0000001")
    );
    assert_eq!(
        true,
        almost_equal("-0.181785359", &rbf.interp_point("12.0", "12.0"), "0.0000001")
    );
}

#[test]
fn test_radial_basis_func_gaussian() {
    let obs_pts = rbf_observations();
    let rbf = Rbf::new(&obs_pts, "gaussian", None).unwrap();
    assert_eq!(
        true,
        almost_equal("3.494929342", &rbf.interp_point("0.0", "50.0"), "0.0000001")
    );
    assert_eq!(
        true,
        almost_equal("0.777143813", &rbf.interp_point("12.0", "12.0"), "0.0000001")
    );
}
