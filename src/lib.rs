//! A unit-test engine for bytecode modules: it classifies the outcome of each
//! test against what the test declares, gathers statistics that combine in
//! any order, and narrows a test plan by name before a run.
use vstd::prelude::*;

pub mod address;
pub mod outcome;
pub mod plan;
pub mod runner;
pub mod shared;
pub mod statistics;
pub mod storage;

verus! {

} // verus!
