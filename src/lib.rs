//! Verified parts of an iterative linear-quadratic regulator (iLQR): the
//! dimension checks on a configuration and on a solve's inputs, and the outer
//! loop's decisions (iterate, stop converged, stop at the budget, stop on a
//! singular `Quu`).

use vstd::prelude::*;

pub mod control;
pub mod shape;

verus! {

} // verus!
