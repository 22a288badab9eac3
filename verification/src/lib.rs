//! Fusion of fiducial-marker observations into the named reference frames of
//! a robotic work-cell.
//!
//! The crate keeps the latest smoothed pose of each tracked marker, ages out
//! markers that have not been seen for a while, derives the facade, gantry
//! and AGV frames from the marker slots, and freezes the facade and gantry
//! frames on request.
//!
//! The library does no floating-point arithmetic of its own. A coordinate is
//! carried as the bit pattern of an IEEE-754 binary64 number, and the
//! elementary operations on such numbers are reached through the trait
//! [`numerics::Numerics`], which the caller implements. The formulas of the
//! estimator are written here, over those operations, and every contract is
//! stated for whatever implementation is supplied.
pub mod geometry;
pub mod numerics;
pub mod marker;
pub mod pose;
pub mod filter;
pub mod plausibility;
pub mod derive;
pub mod state;
pub mod service;
pub mod laws;
pub mod convergence;
