//! A single-job scheduler, verified.
//!
//! One cron expression and one command line make a [`job::Job`]. The
//! [`machine::State`] of its run loop is advanced by [`job::Job::step`], one
//! event at a time: the caller reads the clock, sleeps and runs the command as
//! the returned [`machine::Action`] asks, and reports what happened. Every
//! decision of the loop is taken here and proved against its contract; only
//! the clock, the sleep and the child process stay with the caller.

pub mod command;
pub mod error;
pub mod job;
pub mod machine;
pub mod schedule;
pub mod text;
pub mod time;
