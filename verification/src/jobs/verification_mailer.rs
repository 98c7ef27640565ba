//! The job that mails a verification code.

use vstd::prelude::*;
use crate::errors::Error;
use crate::model::insertable;

verus! {

pub const NAME: &'static str = "verification_mailer";

#[derive(Clone, Debug)]
pub struct Args {
    pub to: String,
    pub verification_code_id: i64,
}

#[derive(Debug)]
pub struct Job {
    pub args: Args,
}

impl Job {
    /// Works the job. Nothing is sent yet, so the job succeeds.
    pub fn run(&self) -> (outcome: Result<(), Error>)
        ensures
            outcome is Ok,
    {
        Ok(())
    }
}

/// The row to write for a job of this kind that is due at once. `args` is
/// the payload in its stored form.
pub fn enqueue(args: String, now: i64) -> (job: insertable::Job)
    ensures
        job.args == args,
        job.name@ == NAME@,
        job.try_at == now,
{
    insertable::Job { args, name: NAME.to_owned(), try_at: now }
}

} // verus!
