//! State and configuration substrate for an adaptive-step ODE integrator.
//!
//! The crate has two halves.  The first is a generic state abstraction:
//! [`types::OdeType`] is the capability set every representation of a
//! dynamical system's state must satisfy (indexed access, degree-of-freedom
//! count, zeroing, iteration, and error-norm computation), implemented here
//! for dynamic vectors, fixed-size tuples of two through nine components,
//! and bare scalars.  The second is the solver option model: a closed set of
//! named, typed tunables ([`options::OdeOption`]), a name-keyed map of them
//! ([`options::OdeOptionMap`]), and a statically typed option set
//! ([`options::AdaptiveOptions`]) with fallible conversions in both
//! directions.
//!
//! Component values are exact signed integers: a caller working in floating
//! point scales its values onto an integer grid at the boundary, so that
//! every norm computed here is exact.  Real-valued tunables (the tolerances)
//! are exact rationals, [`rational::Rational`].

pub mod decimal;
pub mod options;
pub mod rational;
pub mod tuples;
pub mod types;
