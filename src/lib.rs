//! A single-threaded blocking executor: the decisions of its poll/park loop,
//! the signal it parks on, the guard over a per-thread cached signal, and a
//! countdown task that exercises the loop.
use vstd::prelude::*;

pub mod sample;
pub mod signal;
pub mod driver;
pub mod guard;
pub mod workload;

verus! {

} // verus!
