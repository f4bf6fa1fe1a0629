//! Trusted arithmetic primitives over decimal-text scalars.
//!
//! Every scalar in this crate is the decimal text of an IEEE-754 double, the
//! same representation in which observation values arrive (CSV and JSON
//! fields) and leave. The verifier has no theory of machine reals, so it
//! treats a scalar as an opaque character sequence: each primitive operation
//! below parses its operands, applies one std operation on doubles, and
//! formats the result back to text. Rust's parsing is correctly rounded and
//! its formatting round-trips every double exactly, so composing these
//! primitives computes exactly what the corresponding double operations
//! compute.
//!
//! The result of each primitive is named by an uninterpreted spec function
//! of the operand texts, and every engine contract in this crate pins its
//! output to a fold of these names over its inputs. For the basic
//! operations, the comparisons, the square root, parsing and formatting,
//! IEEE-754 and std fix the result of every call exactly, so those names
//! are plainly well defined. Not so for `powf`, `powi`, `exp`, `ln`, `sin`,
//! `cos` and `asin`: std declares their precision non-deterministic — it
//! may differ between platforms, between versions of the runtime, even
//! between two calls in one run. Naming their results is therefore a
//! standing assumption of this scalar model, stated at each of those seven
//! wrappers: that each such operation returns one fixed result per operand
//! list. Every contract downstream of these names — including the equality
//! of parallel and sequential potential grids — holds relative to that
//! assumption.
//!
//! Verified sources may not name a floating-point type or write a
//! floating-point literal, so the doubles below are never named: each body
//! takes a zero from a JSON number, which fixes the parsed type by inference
//! alone and doubles as the fallback for a parse that no scalar of this
//! crate can fail.

use vstd::prelude::*;

verus! {

/// The text of the sum of the doubles written in `a` and `b`.
pub uninterp spec fn sum_of(a: Seq<char>, b: Seq<char>) -> Seq<char>;

/// Relies on the std `+` operator on doubles: a deterministic function of
/// the two operands.
#[verifier::external_body]
pub(crate) fn add_num(a: &str, b: &str) -> (r: String)
    ensures
        r@ == sum_of(a@, b@),
{
    let z = serde_json::Number::from(0u8).as_f64().unwrap();
    format!("{}", a.parse().unwrap_or(z) + b.parse().unwrap_or(z))
}

/// The text of the difference of the doubles written in `a` and `b`.
pub uninterp spec fn diff_of(a: Seq<char>, b: Seq<char>) -> Seq<char>;

/// Relies on the std `-` operator on doubles: a deterministic function of
/// the two operands.
#[verifier::external_body]
pub(crate) fn sub_num(a: &str, b: &str) -> (r: String)
    ensures
        r@ == diff_of(a@, b@),
{
    let z = serde_json::Number::from(0u8).as_f64().unwrap();
    format!("{}", a.parse().unwrap_or(z) - b.parse().unwrap_or(z))
}

/// The text of the product of the doubles written in `a` and `b`.
pub uninterp spec fn prod_of(a: Seq<char>, b: Seq<char>) -> Seq<char>;

/// Relies on the std `*` operator on doubles: a deterministic function of
/// the two operands.
#[verifier::external_body]
pub(crate) fn mul_num(a: &str, b: &str) -> (r: String)
    ensures
        r@ == prod_of(a@, b@),
{
    let z = serde_json::Number::from(0u8).as_f64().unwrap();
    format!("{}", a.parse().unwrap_or(z) * b.parse().unwrap_or(z))
}

/// The text of the quotient of the doubles written in `a` and `b`.
pub uninterp spec fn quot_of(a: Seq<char>, b: Seq<char>) -> Seq<char>;

/// Relies on the std `/` operator on doubles: a deterministic function of
/// the two operands.
#[verifier::external_body]
pub(crate) fn div_num(a: &str, b: &str) -> (r: String)
    ensures
        r@ == quot_of(a@, b@),
{
    let z = serde_json::Number::from(0u8).as_f64().unwrap();
    format!("{}", a.parse().unwrap_or(z) / b.parse().unwrap_or(z))
}

/// The text of the negation of the double written in `a`.
pub uninterp spec fn neg_of(a: Seq<char>) -> Seq<char>;

/// Relies on the std unary `-` operator on doubles: a deterministic function
/// of its operand.
#[verifier::external_body]
pub(crate) fn neg_num(a: &str) -> (r: String)
    ensures
        r@ == neg_of(a@),
{
    let z = serde_json::Number::from(0u8).as_f64().unwrap();
    format!("{}", -a.parse().unwrap_or(z))
}

/// The text of the absolute value of the double written in `a`.
pub uninterp spec fn abs_of(a: Seq<char>) -> Seq<char>;

/// Relies on the std `abs` method on doubles: a deterministic function of
/// its operand.
#[verifier::external_body]
pub(crate) fn abs_num(a: &str) -> (r: String)
    ensures
        r@ == abs_of(a@),
{
    let z = serde_json::Number::from(0u8).as_f64().unwrap();
    format!("{}", a.parse().unwrap_or(z).abs())
}

/// The text of the square root of the double written in `a`.
pub uninterp spec fn sqrt_of(a: Seq<char>) -> Seq<char>;

/// Relies on the std `sqrt` method on doubles: a deterministic function of
/// its operand.
#[verifier::external_body]
pub(crate) fn sqrt_num(a: &str) -> (r: String)
    ensures
        r@ == sqrt_of(a@),
{
    let z = serde_json::Number::from(0u8).as_f64().unwrap();
    format!("{}", a.parse().unwrap_or(z).sqrt())
}

/// The text of the double written in `a` raised to the double written in `b`.
pub uninterp spec fn pow_of(a: Seq<char>, b: Seq<char>) -> Seq<char>;

/// Relies on the std `powf` method on doubles. Std leaves its exact
/// rounding open, so this contract carries the model's standing assumption
/// (see the module notes): one fixed result per operand pair.
#[verifier::external_body]
pub(crate) fn powf_num(a: &str, b: &str) -> (r: String)
    ensures
        r@ == pow_of(a@, b@),
{
    let z = serde_json::Number::from(0u8).as_f64().unwrap();
    format!("{}", a.parse().unwrap_or(z).powf(b.parse().unwrap_or(z)))
}

/// The text of the double written in `a` raised to the integer power `n`.
pub uninterp spec fn powi_of(a: Seq<char>, n: i32) -> Seq<char>;

/// Relies on the std `powi` method on doubles. Std leaves its exact
/// rounding open, so this contract carries the model's standing assumption
/// (see the module notes): one fixed result per operand pair.
#[verifier::external_body]
pub(crate) fn powi_num(a: &str, n: i32) -> (r: String)
    ensures
        r@ == powi_of(a@, n),
{
    let z = serde_json::Number::from(0u8).as_f64().unwrap();
    format!("{}", a.parse().unwrap_or(z).powi(n))
}

/// The text of the exponential of the double written in `a`.
pub uninterp spec fn exp_of(a: Seq<char>) -> Seq<char>;

/// Relies on the std `exp` method on doubles. Std leaves its exact
/// rounding open, so this contract carries the model's standing assumption
/// (see the module notes): one fixed result per operand.
#[verifier::external_body]
pub(crate) fn exp_num(a: &str) -> (r: String)
    ensures
        r@ == exp_of(a@),
{
    let z = serde_json::Number::from(0u8).as_f64().unwrap();
    format!("{}", a.parse().unwrap_or(z).exp())
}

/// The text of the natural logarithm of the double written in `a`.
pub uninterp spec fn ln_of(a: Seq<char>) -> Seq<char>;

/// Relies on the std `ln` method on doubles. Std leaves its exact
/// rounding open, so this contract carries the model's standing assumption
/// (see the module notes): one fixed result per operand.
#[verifier::external_body]
pub(crate) fn ln_num(a: &str) -> (r: String)
    ensures
        r@ == ln_of(a@),
{
    let z = serde_json::Number::from(0u8).as_f64().unwrap();
    format!("{}", a.parse().unwrap_or(z).ln())
}

/// The text of the sine of the double written in `a`.
pub uninterp spec fn sin_of(a: Seq<char>) -> Seq<char>;

/// Relies on the std `sin` method on doubles. Std leaves its exact
/// rounding open, so this contract carries the model's standing assumption
/// (see the module notes): one fixed result per operand.
#[verifier::external_body]
pub(crate) fn sin_num(a: &str) -> (r: String)
    ensures
        r@ == sin_of(a@),
{
    let z = serde_json::Number::from(0u8).as_f64().unwrap();
    format!("{}", a.parse().unwrap_or(z).sin())
}

/// The text of the cosine of the double written in `a`.
pub uninterp spec fn cos_of(a: Seq<char>) -> Seq<char>;

/// Relies on the std `cos` method on doubles. Std leaves its exact
/// rounding open, so this contract carries the model's standing assumption
/// (see the module notes): one fixed result per operand.
#[verifier::external_body]
pub(crate) fn cos_num(a: &str) -> (r: String)
    ensures
        r@ == cos_of(a@),
{
    let z = serde_json::Number::from(0u8).as_f64().unwrap();
    format!("{}", a.parse().unwrap_or(z).cos())
}

/// The text of the arc sine of the double written in `a`.
pub uninterp spec fn asin_of(a: Seq<char>) -> Seq<char>;

/// Relies on the std `asin` method on doubles. Std leaves its exact
/// rounding open, so this contract carries the model's standing assumption
/// (see the module notes): one fixed result per operand.
#[verifier::external_body]
pub(crate) fn asin_num(a: &str) -> (r: String)
    ensures
        r@ == asin_of(a@),
{
    let z = serde_json::Number::from(0u8).as_f64().unwrap();
    format!("{}", a.parse().unwrap_or(z).asin())
}

/// The text of the double written in `a` converted from degrees to radians.
pub uninterp spec fn radians_of(a: Seq<char>) -> Seq<char>;

/// Relies on the std `to_radians` method on doubles: a deterministic
/// function of its operand.
#[verifier::external_body]
pub(crate) fn to_radians_num(a: &str) -> (r: String)
    ensures
        r@ == radians_of(a@),
{
    let z = serde_json::Number::from(0u8).as_f64().unwrap();
    format!("{}", a.parse().unwrap_or(z).to_radians())
}

/// Whether the doubles written in `a` and `b` compare equal.
pub uninterp spec fn num_eq(a: Seq<char>, b: Seq<char>) -> bool;

/// Relies on the std `==` operator on doubles: a deterministic function of
/// the two operands.
#[verifier::external_body]
pub(crate) fn eq_num(a: &str, b: &str) -> (r: bool)
    ensures
        r == num_eq(a@, b@),
{
    let z = serde_json::Number::from(0u8).as_f64().unwrap();
    a.parse().unwrap_or(z) == b.parse().unwrap_or(z)
}

/// Whether the double written in `a` compares less than the one written in `b`.
pub uninterp spec fn num_lt(a: Seq<char>, b: Seq<char>) -> bool;

/// Relies on the std `<` operator on doubles: a deterministic function of
/// the two operands.
#[verifier::external_body]
pub(crate) fn lt_num(a: &str, b: &str) -> (r: bool)
    ensures
        r == num_lt(a@, b@),
{
    let z = serde_json::Number::from(0u8).as_f64().unwrap();
    a.parse().unwrap_or(z) < b.parse().unwrap_or(z)
}

/// The decimal text of the integer `i`; as a scalar it denotes `i` exactly,
/// every 32-bit integer being exactly representable as a double.
pub uninterp spec fn dec_of_u32(i: u32) -> Seq<char>;

/// Relies on the std decimal formatting of `u32`: a deterministic function
/// of its operand.
#[verifier::external_body]
pub(crate) fn u32_num(i: u32) -> (r: String)
    ensures
        r@ == dec_of_u32(i),
{
    format!("{}", i)
}

/// The decimal text of the machine integer `i`.
pub uninterp spec fn dec_of_usize(i: usize) -> Seq<char>;

/// Relies on the std decimal formatting of `usize`: a deterministic
/// function of its operand.
#[verifier::external_body]
pub(crate) fn usize_num(i: usize) -> (r: String)
    ensures
        r@ == dec_of_usize(i),
{
    format!("{}", i)
}

} // verus!
