//! The kinds of job that can be queued, each with its payload and its
//! handler.

pub mod no_op;
pub mod verification_mailer;
