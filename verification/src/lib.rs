//! Interpolation and smoothing of scalar fields over regular 2-D grids.
//!
//! The crate estimates a value surface from a sparse set of observation
//! points, by inverse-distance weighting, Stewart potential smoothing or
//! radial-basis-function interpolation.
//!
//! Every scalar that the engines handle is the decimal text of an IEEE-754
//! double (see `scalar`), so the verifier can treat the arithmetic
//! symbolically: each primitive operation is named by an uninterpreted
//! function, and every engine contract pins its output to a fold of those
//! names over the observation sequence.

pub mod bbox;
pub mod distance;
pub mod errors;
pub mod grid;
pub mod idw;
pub mod pot_stewart;
pub mod rbf;
pub mod scalar;
pub mod utils;

pub use crate::bbox::Bbox;
pub use crate::errors::Error;
pub use crate::idw::{idw_interpolation1, Idw};
pub use crate::pot_stewart::{stewart, SmoothType, StewartPotentialGrid};
pub use crate::rbf::{rbf_interpolation, Rbf, RbfKernel};
pub use crate::idw::idw_interpolation1 as idw_interpolation;
pub use crate::utils::{CartesianPtValue, PtValue, SphericalPtValue};
