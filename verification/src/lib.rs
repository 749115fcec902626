//! A verified fixed-point solver for the SIRS compartmental epidemic model.
//!
//! All quantities are scaled integers: one unit stands for `10^-12` of the
//! modelled quantity (a population fraction, a rate per day, or a time in
//! days). The solver integrates the SIRS ordinary differential equations
//! with an adaptive-step Dormand-Prince Runge-Kutta scheme of order 5 and
//! an embedded order-4 error estimate.

pub mod fixed;
pub mod model;
pub mod rk;
pub mod solver;

pub use model::ModelParams;
pub use model::SIRS;
pub use model::Sample;
pub use model::SirsError;
pub use model::State;
pub use model::derive_params;
pub use solver::integrate;
pub use solver::solve_sirs;
