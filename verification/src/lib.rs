//! A More-Thuente line search: a step-length search along a descent direction
//! that ends at a step satisfying the strong Wolfe conditions.
//!
//! Numbers are IEEE-754 doubles carried as bit patterns (see [`number`]), so
//! that ordering, clamping and the case analysis of the search are reasoned
//! about exactly.

pub mod config;
pub mod laws;
pub mod number;
pub mod search;
pub mod solver;
pub mod step;
pub mod updater;
