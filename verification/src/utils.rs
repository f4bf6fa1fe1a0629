//! The point abstraction: one value at one place, in either of two
//! coordinate systems, plus small scalar helpers shared by the engines.

use vstd::prelude::*;
use crate::scalar::{
    abs_num, abs_of, add_num, diff_of, div_num, eq_num, lt_num, mul_num, num_eq, num_lt, prod_of,
    quot_of, sub_num, sum_of,
};
use crate::distance::{euclidian_distance, haversine_with_radius, spec_euclidian, spec_haversine};

verus! {

/// The capability set of an observation or result point: coordinates, a
/// field value, and a distance to another place in the same coordinate
/// system. Estimators are generic over this trait and never assume which of
/// the two coordinate systems they operate on.
pub trait PtValue: Sized {
    /// The first coordinate (planar `x`, or longitude).
    spec fn spec_x(&self) -> Seq<char>;

    /// The second coordinate (planar `y`, or latitude).
    spec fn spec_y(&self) -> Seq<char>;

    /// The field value carried by the point.
    spec fn spec_value(&self) -> Seq<char>;

    /// The distance, in this coordinate system, from `(x1, y1)` to
    /// `(x2, y2)`. Each implementation fixes it to one of the two metrics.
    spec fn spec_distance(x1: Seq<char>, y1: Seq<char>, x2: Seq<char>, y2: Seq<char>) -> Seq<
        char,
    >;

    /// Builds the point at `(x, y)` carrying `value`.
    fn new(x: String, y: String, value: String) -> (r: Self)
        ensures
            r.spec_x() == x@,
            r.spec_y() == y@,
            r.spec_value() == value@,
    ;

    /// The coordinate pair.
    fn get_coordinates(&self) -> (r: (String, String))
        ensures
            r.0@ == self.spec_x(),
            r.1@ == self.spec_y(),
    ;

    /// The field value.
    fn get_value(&self) -> (r: String)
        ensures
            r@ == self.spec_value(),
    ;

    /// Replaces the field value; the coordinates never change.
    fn set_value(&mut self, value: String)
        ensures
            final(self).spec_x() == old(self).spec_x(),
            final(self).spec_y() == old(self).spec_y(),
            final(self).spec_value() == value@,
    ;

    /// Both coordinates and the value, in one call.
    fn get_triplet(&self) -> (r: (String, String, String))
        ensures
            r.0@ == self.spec_x(),
            r.1@ == self.spec_y(),
            r.2@ == self.spec_value(),
    ;

    /// The distance from this point to `(x, y)`.
    fn distance(&self, x: &str, y: &str) -> (r: String)
        ensures
            r@ == Self::spec_distance(self.spec_x(), self.spec_y(), x@, y@),
    ;
}

/// The full model of a point: both coordinates and the value.
pub open spec fn point_model<T: PtValue>(p: T) -> (Seq<char>, Seq<char>, Seq<char>) {
    (p.spec_x(), p.spec_y(), p.spec_value())
}

/// A point on a sphere: longitude, latitude, value. Distances are
/// great-circle, on a sphere of mean radius 6372800 (metres).
pub struct SphericalPtValue {
    pub lat: String,
    pub lon: String,
    pub value: String,
}

/// A point in the plane: `x`, `y`, value. Distances are Euclidean.
pub struct CartesianPtValue {
    pub x: String,
    pub y: String,
    pub value: String,
}

impl PtValue for SphericalPtValue {
    open spec fn spec_x(&self) -> Seq<char> {
        self.lon@
    }

    open spec fn spec_y(&self) -> Seq<char> {
        self.lat@
    }

    open spec fn spec_value(&self) -> Seq<char> {
        self.value@
    }

    open spec fn spec_distance(
        x1: Seq<char>,
        y1: Seq<char>,
        x2: Seq<char>,
        y2: Seq<char>,
    ) -> Seq<char> {
        spec_haversine(x1, y1, x2, y2, "6372800"@)
    }

    fn new(x: String, y: String, value: String) -> (r: Self) {
        SphericalPtValue { lon: x, lat: y, value }
    }

    fn get_coordinates(&self) -> (r: (String, String)) {
        (self.lon.clone(), self.lat.clone())
    }

    fn get_value(&self) -> (r: String) {
        self.value.clone()
    }

    fn set_value(&mut self, value: String) {
        self.value = value;
    }

    fn get_triplet(&self) -> (r: (String, String, String)) {
        (self.lon.clone(), self.lat.clone(), self.value.clone())
    }

    fn distance(&self, x: &str, y: &str) -> (r: String) {
        haversine_with_radius(&self.lon, &self.lat, x, y, "6372800")
    }
}

impl PtValue for CartesianPtValue {
    open spec fn spec_x(&self) -> Seq<char> {
        self.x@
    }

    open spec fn spec_y(&self) -> Seq<char> {
        self.y@
    }

    open spec fn spec_value(&self) -> Seq<char> {
        self.value@
    }

    open spec fn spec_distance(
        x1: Seq<char>,
        y1: Seq<char>,
        x2: Seq<char>,
        y2: Seq<char>,
    ) -> Seq<char> {
        spec_euclidian(x1, y1, x2, y2)
    }

    fn new(x: String, y: String, value: String) -> (r: Self) {
        CartesianPtValue { x, y, value }
    }

    fn get_coordinates(&self) -> (r: (String, String)) {
        (self.x.clone(), self.y.clone())
    }

    fn get_value(&self) -> (r: String) {
        self.value.clone()
    }

    fn set_value(&mut self, value: String) {
        self.value = value;
    }

    fn get_triplet(&self) -> (r: (String, String, String)) {
        (self.x.clone(), self.y.clone(), self.value.clone())
    }

    fn distance(&self, x: &str, y: &str) -> (r: String) {
        euclidian_distance(&self.x, &self.y, x, y)
    }
}

/// An observation set in whichever coordinate system it was loaded.
pub enum SetPtValue {
    Spherical(Vec<SphericalPtValue>),
    Cartesian(Vec<CartesianPtValue>),
}

/// Relative near-equality of the doubles written in `a` and `b`: exact
/// equality, or — near zero — an absolute difference below `eps` times the
/// smallest positive normal double, or otherwise a relative difference
/// below `eps`, over the sum of absolute values capped at the largest
/// double. The cap is the minimum of the sum and that largest double,
/// written as a comparison and select: the cap operand is never NaN, so
/// the select agrees with the std `min` of doubles for every sum.
pub open spec fn spec_almost_equal(a: Seq<char>, b: Seq<char>, eps: Seq<char>) -> bool {
    let diff = abs_of(diff_of(a, b));
    if num_eq(a, b) {
        true
    } else if num_eq(a, "0"@) || num_eq(b, "0"@) || num_lt(diff, "2.2250738585072014e-308"@) {
        num_lt(diff, prod_of(eps, "2.2250738585072014e-308"@))
    } else {
        let sums = sum_of(abs_of(a), abs_of(b));
        let denom = if num_lt(sums, "1.7976931348623157e308"@) {
            sums
        } else {
            "1.7976931348623157e308"@
        };
        num_lt(quot_of(diff, denom), eps)
    }
}

/// Near-equality of two scalars under the relative tolerance `epsilon`.
pub fn almost_equal(a: &str, b: &str, epsilon: &str) -> (r: bool)
    ensures
        r == spec_almost_equal(a@, b@, epsilon@),
{
    let diff = abs_num(&sub_num(a, b));
    if eq_num(a, b) {
        true
    } else if eq_num(a, "0") || eq_num(b, "0") || lt_num(&diff, "2.2250738585072014e-308") {
        lt_num(&diff, &mul_num(epsilon, "2.2250738585072014e-308"))
    } else {
        let sums = add_num(&abs_num(a), &abs_num(b));
        let denom = if lt_num(&sums, "1.7976931348623157e308") {
            sums
        } else {
            "1.7976931348623157e308".to_owned()
        };
        lt_num(&div_num(&diff, &denom), epsilon)
    }
}

/// Character-for-character equality of two text slices.
pub fn str_eq(a: &str, b: &str) -> (r: bool)
    ensures
        r == (a@ == b@),
{
    let la = a.unicode_len();
    let lb = b.unicode_len();
    if la != lb {
        return false;
    }
    let mut i: usize = 0;
    while i < la
        invariant
            la == a@.len(),
            lb == b@.len(),
            la == lb,
            i <= la,
            forall|j: int| 0 <= j < i ==> a@[j] == b@[j],
        decreases la - i,
    {
        if a.get_char(i) != b.get_char(i) {
            return false;
        }
        i += 1;
    }
    proof {
        assert(a@ =~= b@);
    }
    true
}

} // verus!
