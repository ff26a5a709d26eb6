//! A discrete-time closed control loop: a proportional-integral controller
//! driving a stochastic two-stage work queue.
//!
//! The loop is wired together by [`driver::close_loop`], which at each step
//! computes a reference value, feeds the tracking error to the
//! [`controller::Controller`], and hands the resulting control signal to the
//! [`buffer::Buffer`], a capacity-limited queue whose service rates are drawn
//! from a [`random::RandomSource`].
//!
//! Real-valued quantities are carried in fixed point ([`fixed::Fixed`],
//! hundredths of a unit), which keeps every contract exact.

use vstd::prelude::*;

pub mod buffer;
pub mod controller;
pub mod driver;
pub mod fixed;
pub mod random;
pub mod setpoint;

verus! {

/// The ways the simulation core can refuse its inputs.
#[derive(Clone, Copy, Debug, PartialEq, Eq, Structural)]
pub enum SimError {
    /// A random sample was requested over `[low, high)` with `low >= high`.
    InvalidRange,
    /// A buffer was asked for with a non-positive work-in-progress capacity
    /// or a negative flow bound.
    ConfigurationError,
}

} // verus!
