use vstd::prelude::*;

pub mod cli;
pub mod git;
pub mod message;
pub mod workflow;

verus! {

} // verus!
