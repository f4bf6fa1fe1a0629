//! Distance metrics: planar Euclidean and great-circle (haversine).

use vstd::prelude::*;
use crate::scalar::{
    add_num, asin_num, asin_of, cos_num, cos_of, diff_of, div_num, mul_num, prod_of, quot_of,
    radians_of, sin_num, sin_of, sqrt_num, sqrt_of, sub_num, sum_of, to_radians_num,
};

verus! {

/// The Euclidean distance between `(x1, y1)` and `(x2, y2)`:
/// `sqrt((x1 - x2)^2 + (y1 - y2)^2)`, with the squares written as products.
pub open spec fn spec_euclidian(
    x1: Seq<char>,
    y1: Seq<char>,
    x2: Seq<char>,
    y2: Seq<char>,
) -> Seq<char> {
    let dx = diff_of(x1, x2);
    let dy = diff_of(y1, y2);
    sqrt_of(sum_of(prod_of(dx, dx), prod_of(dy, dy)))
}

/// The haversine great-circle distance between the geographic points
/// `(lon1, lat1)` and `(lon2, lat2)`, on a sphere whose radius is written in
/// `radius`. The longitude difference and both latitudes are taken to
/// radians; the result is `asin(sqrt(dx^2 + dy^2 + dz^2) / 2) * 2 * radius`
/// with the chord components `dz = sin lat1 - sin lat2`,
/// `dx = cos dlon * cos lat1 - cos lat2`, `dy = sin dlon * cos lat1`.
pub open spec fn spec_haversine(
    lon1: Seq<char>,
    lat1: Seq<char>,
    lon2: Seq<char>,
    lat2: Seq<char>,
    radius: Seq<char>,
) -> Seq<char> {
    let dlon = radians_of(diff_of(lon1, lon2));
    let t1 = radians_of(lat1);
    let t2 = radians_of(lat2);
    let dz = diff_of(sin_of(t1), sin_of(t2));
    let dx = diff_of(prod_of(cos_of(dlon), cos_of(t1)), cos_of(t2));
    let dy = prod_of(sin_of(dlon), cos_of(t1));
    let chord = sum_of(sum_of(prod_of(dx, dx), prod_of(dy, dy)), prod_of(dz, dz));
    prod_of(prod_of(asin_of(quot_of(sqrt_of(chord), "2"@)), "2"@), radius)
}

/// Euclidean distance between two planar points.
pub fn euclidian_distance(x1: &str, y1: &str, x2: &str, y2: &str) -> (r: String)
    ensures
        r@ == spec_euclidian(x1@, y1@, x2@, y2@),
{
    let dx = sub_num(x1, x2);
    let dy = sub_num(y1, y2);
    sqrt_num(&add_num(&mul_num(&dx, &dx), &mul_num(&dy, &dy)))
}

/// Haversine distance between two geographic points, on a sphere of mean
/// radius 6372.8 (kilometres). The arguments are ordered latitude first:
/// `th` is a latitude and `ph` a longitude.
pub fn haversine_distance(th1: &str, ph1: &str, th2: &str, ph2: &str) -> (r: String)
    ensures
        r@ == spec_haversine(ph1@, th1@, ph2@, th2@, "6372.8"@),
{
    haversine_with_radius(ph1, th1, ph2, th2, "6372.8")
}

/// Haversine distance with an explicit sphere radius; the unit of the
/// result is the unit of the radius.
pub fn haversine_with_radius(lon1: &str, lat1: &str, lon2: &str, lat2: &str, radius: &str) -> (r:
    String)
    ensures
        r@ == spec_haversine(lon1@, lat1@, lon2@, lat2@, radius@),
{
    let dlon = to_radians_num(&sub_num(lon1, lon2));
    let t1 = to_radians_num(lat1);
    let t2 = to_radians_num(lat2);
    let dz = sub_num(&sin_num(&t1), &sin_num(&t2));
    let dx = sub_num(&mul_num(&cos_num(&dlon), &cos_num(&t1)), &cos_num(&t2));
    let dy = mul_num(&sin_num(&dlon), &cos_num(&t1));
    let chord = add_num(&add_num(&mul_num(&dx, &dx), &mul_num(&dy, &dy)), &mul_num(&dz, &dz));
    mul_num(&mul_num(&asin_num(&div_num(&sqrt_num(&chord), "2")), "2"), radius)
}

} // verus!
