use smoomars::utils::{almost_equal, CartesianPtValue, PtValue, SphericalPtValue};
use smoomars::bbox::Bbox;
use smoomars::grid::build_grid;
use smoomars::idw::idw_interpolation1;
use smoomars::pot_stewart::{do_pot_range, stewart, SmoothType, StewartPotentialGrid};
use smoomars::rbf::{rbf_interpolation, Rbf};

fn cpt(x: f64, y: f64, value: f64) -> CartesianPtValue {
    CartesianPtValue::new(format!("{}", x), format!("{}", y), format!("{}", value))
}

fn spt(lon: f64, lat: f64, value: f64) -> SphericalPtValue {
    SphericalPtValue::new(format!("{}", lon), format!("{}", lat), format!("{}", value))
}

fn rbf_observations() -> Vec<CartesianPtValue> {
    vec![
        cpt(0.0, 0.0, 0.0),
        cpt(0.0, 100.0, 6.0),
        cpt(75.0, 25.0, 3.1),
        cpt(100.0, 75.0, 7.4),
    ]
}

#[test]
fn half_value_at_span_exponential() {
    let bbox = Bbox::new(
        String::from("0"),
        String::from("10"),
        String::from("0"),
        String::from("10"),
    );
    for (span, beta) in [(15000.0, 2.0), (250.0, 0.5), (3.5, 4.0), (1.0, 1.0)] {
        let conf = StewartPotentialGrid::new(
            &format!("{}", span),
            &format!("{}", beta),
            SmoothType::Exponential,
            &bbox,
            4,
            4,
            1,
        )
        .unwrap();
        let k = conf.kernel_value(&format!("{}", span));
        assert!(
            almost_equal(&k, "0.5", "0.000000001"),
            "exponential kernel at its span was {}",
            k
        );
    }
}

#[test]
fn half_value_at_span_pareto() {
    let bbox = Bbox::new(
        String::from("0"),
        String::from("10"),
        String::from("0"),
        String::from("10"),
    );
    for (span, beta) in [(15000.0, 2.0), (250.0, 0.5), (3.5, 4.0), (1.0, 1.0)] {
        let conf = StewartPotentialGrid::new(
            &format!("{}", span),
            &format!("{}", beta),
            SmoothType::Pareto,
            &bbox,
            4,
            4,
            1,
        )
        .unwrap();
        let k = conf.kernel_value(&format!("{}", span));
        assert!(
            almost_equal(&k, "0.5", "0.000000001"),
            "pareto kernel at its span was {}",
            k
        );
    }
}

#[test]
fn rbf_reconstructs_observed_values() {
    let obs = rbf_observations();
    for name in [
        "linear",
        "cubic",
        "quintic",
        "thin_plate",
        "gaussian",
        "multiquadratic",
        "inverse_multiquadratic",
    ] {
        let rbf = Rbf::new(&obs, name, None).unwrap();
        for o in &obs {
            let (x, y, value) = o.get_triplet();
            let estimated: f64 = rbf.interp_point(&x, &y).parse().unwrap();
            let expected: f64 = value.parse().unwrap();
            assert!(
                (estimated - expected).abs() <= 1e-6 * expected.abs().max(1.0),
                "kernel {} at ({}, {}): {} instead of {}",
                name,
                x,
                y,
                estimated,
                expected
            );
        }
    }
}

#[test]
fn rbf_default_epsilon_is_mean_off_diagonal_distance() {
    let obs = rbf_observations();
    let rbf = Rbf::new(&obs, "gaussian", None).unwrap();
    let mut sum = 0.0f64;
    for a in &obs {
        for b in &obs {
            let (ax, ay, _) = a.get_triplet();
            let (bx, by, _) = b.get_triplet();
            let (ax, ay): (f64, f64) = (ax.parse().unwrap(), ay.parse().unwrap());
            let (bx, by): (f64, f64) = (bx.parse().unwrap(), by.parse().unwrap());
            sum += ((ax - bx).powi(2) + (ay - by).powi(2)).sqrt();
        }
    }
    let expected = sum / (16.0 - 4.0);
    let got: f64 = rbf.epsilon.parse().unwrap();
    assert!((got - expected).abs() < 1e-9, "epsilon {} instead of {}", got, expected);
}

#[test]
fn grid_shape_and_row_major_order() {
    let obs = rbf_observations();
    let bbox = Bbox::new(
        String::from("0"),
        String::from("100"),
        String::from("0"),
        String::from("100"),
    );
    let (reso_x, reso_y) = (5u32, 4u32);
    let idw_grid = idw_interpolation1(reso_x, reso_y, &bbox, &obs, "2.0").unwrap();
    let rbf_grid = rbf_interpolation(reso_x, reso_y, &bbox, &obs, "linear", None).unwrap();
    let conf = StewartPotentialGrid::new(
        "30.0",
        "2.0",
        SmoothType::Exponential,
        &bbox,
        reso_x,
        reso_y,
        1,
    )
    .unwrap();
    let stew_grid = stewart(&conf, &obs).unwrap();
    let x_step = 100.0f64 / reso_x as f64;
    let y_step = 100.0f64 / reso_y as f64;
    for grid in [idw_grid, rbf_grid, stew_grid] {
        assert_eq!(grid.len(), (reso_x * reso_y) as usize);
        for i in 0..reso_x {
            for j in 0..reso_y {
                let (x, y) = grid[(i * reso_y + j) as usize].get_coordinates();
                let x: f64 = x.parse().unwrap();
                let y: f64 = y.parse().unwrap();
                assert_eq!(x, x_step * i as f64);
                assert_eq!(y, y_step * j as f64);
            }
        }
    }
}

#[test]
fn range_fills_reassemble_to_the_whole_grid() {
    let obs = vec![
        spt(1.2, 32.3, 415.0),
        spt(2.4, 33.1, 630.0),
        spt(3.3, 34.2, 205.0),
    ];
    let bbox = Bbox::new(
        String::from("1.0"),
        String::from("4.0"),
        String::from("32.0"),
        String::from("35.0"),
    );
    let conf = StewartPotentialGrid::new(
        "20000.0",
        "2.0",
        SmoothType::Exponential,
        &bbox,
        9,
        7,
        1,
    )
    .unwrap();
    let whole = stewart(&conf, &obs).unwrap();
    let mut grid: Vec<SphericalPtValue> = build_grid(&conf.bbox, conf.reso_x, conf.reso_y);
    let len = grid.len();
    for (start, end) in [(0usize, 10usize), (10, 11), (11, 40), (40, len)] {
        do_pot_range(&mut grid, &obs, &conf, start, end);
    }
    assert_eq!(grid.len(), whole.len());
    for (a, b) in grid.iter().zip(whole.iter()) {
        let (ax, ay, av) = a.get_triplet();
        let (bx, by, bv) = b.get_triplet();
        assert_eq!(ax, bx);
        assert_eq!(ay, by);
        assert_eq!(av, bv);
    }
}

#[test]
fn idw_stays_within_observed_range() {
    let obs = vec![
        spt(1.2, 32.3, 415.0),
        spt(2.4, 33.1, 630.0),
        spt(3.3, 34.2, 205.0),
        spt(1.9, 34.7, 510.0),
    ];
    let bbox = Bbox::new(
        String::from("1.0"),
        String::from("4.0"),
        String::from("32.0"),
        String::from("35.0"),
    );
    let grid = idw_interpolation1(12, 12, &bbox, &obs, "2.0").unwrap();
    for cell in grid {
        let value: f64 = cell.get_value().parse().unwrap();
        assert!(
            (205.0..=630.0).contains(&value),
            "cell value {} outside the observed range",
            value
        );
    }
}
