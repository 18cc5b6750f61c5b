//! Approximate equality for numeric values and for composite data built from them.
//!
//! Three comparison strategies are offered, each as a capability that a type can
//! implement: absolute difference ([`AbsDiffEq`]), relative difference
//! ([`RelativeEq`]) and units in the last place ([`UlpsEq`]). Integers have the
//! first; [`Binary32`] and [`Binary64`], floating-point values held as their
//! IEEE 754 encodings, have all three. Options, results, references, sequences,
//! tuples, complex numbers, ordered wrappers and ordered maps have each
//! capability whenever their elements do, with a tolerance shaped like the value. [`AbsDiff`], [`Relative`] and
//! [`Ulps`] bind tolerances to a comparison, with the operand type's defaults.
//!
//! Each capability states, in a specification function, what equality means for
//! its type, and every implementation here is proved to compute exactly that.
//! The ULPs step of a floating-point comparison, on the operands' encodings, is
//! in [`bits`]; the floating-point values are in [`binary`]; the laws that
//! relate the comparisons are in [`laws`].
mod abs_diff_eq;
pub mod binary;
pub mod bits;
pub mod laws;
mod maps;
mod params;
mod relative_eq;
mod tuples;
mod ulps_eq;

pub use abs_diff_eq::{int_distance, AbsDiffEq};
pub use binary::{Binary32, Binary64};
pub use bits::{within_ulps_bits32, within_ulps_bits64};
pub use maps::{maps_correspond, OrderedKey};
pub use params::{AbsDiff, Relative, Ulps};
pub use relative_eq::RelativeEq;
pub use ulps_eq::{larger_u32, max_u32, UlpsEq};
