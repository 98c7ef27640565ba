//! A job that does nothing.

use vstd::prelude::*;
use crate::errors::Error;

verus! {

pub const NAME: &'static str = "no_op";

#[derive(Clone, Debug)]
pub struct Args {
    pub message: String,
}

#[derive(Debug)]
pub struct Job {
    pub args: Args,
}

impl Job {
    /// Does nothing, and succeeds.
    pub fn run(&self) -> (outcome: Result<(), Error>)
        ensures
            outcome is Ok,
    {
        Ok(())
    }
}

} // verus!
