//! The job: one schedule and one command, made from the two arguments.

use vstd::prelude::*;
use vstd::string::*;
use crate::command::{spec_parse, Command, CommandView};
use crate::error::{spec_arguments, spec_invalid_schedule, Error, ErrorView, GENERIC_FAILURE};
use crate::schedule::{cron_rejection, Schedule};

verus! {

/// What a [`Job`] is to a contract.
pub struct JobView {
    /// The cron expression of the schedule.
    pub schedule: Seq<char>,
    /// The command to run.
    pub command: CommandView,
}

/// One schedule and the one command to run on it.
#[derive(Debug, PartialEq, Eq)]
pub struct Job {
    schedule: Schedule,
    command: Command,
}

impl View for Job {
    type V = JobView;

    closed spec fn view(&self) -> JobView {
        JobView { schedule: self.schedule@, command: self.command@ }
    }
}

/// The job that the arguments stand for. There must be two of them, the
/// cron expression and the command line. Their number is looked at first,
/// then the expression, then the command line; the first fault found is the
/// error.
pub open spec fn spec_from_args(args: Seq<Seq<char>>) -> Result<JobView, ErrorView> {
    if args.len() != 2 {
        Err(spec_arguments(args.len() as int))
    } else {
        match cron_rejection(args[0]) {
            Some(diagnostic) => Err(spec_invalid_schedule(args[0], diagnostic)),
            None => match spec_parse(args[1]) {
                Ok(command) => Ok(JobView { schedule: args[0], command }),
                Err(error) => Err(error),
            },
        }
    }
}

/// Whether `part` stands somewhere in `text`.
pub open spec fn spec_contains(text: Seq<char>, part: Seq<char>) -> bool {
    exists|at: int|
        0 <= at && at + part.len() <= text.len() && #[trigger] text.subrange(
            at,
            at + part.len(),
        ) == part
}

/// Any number of arguments but two is an error with the generic exit code,
/// whatever the arguments are: neither the expression nor the command line
/// is looked at.
pub proof fn law_wrong_argument_count(args: Seq<Seq<char>>)
    requires
        args.len() != 2,
    ensures
        spec_from_args(args) == Err::<JobView, ErrorView>(spec_arguments(args.len() as int)),
        spec_arguments(args.len() as int).returncode == GENERIC_FAILURE,
{
}

/// An expression that the parser rejects is an error with the generic exit
/// code, and the message holds the expression as it was given.
pub proof fn law_invalid_schedule_is_named(expression: Seq<char>, command: Seq<char>)
    requires
        cron_rejection(expression) is Some,
    ensures
        spec_from_args(seq![expression, command]) matches Err(error) && error.returncode
            == GENERIC_FAILURE && spec_contains(error.message, expression),
{
    reveal_strlit("Invalid schedule '");
    let diagnostic = cron_rejection(expression)->0;
    let message = spec_invalid_schedule(expression, diagnostic).message;
    assert(message.subrange(18, 18 + expression.len() as int) =~= expression);
}

/// A job, or the error in its place, as a contract sees it.
pub open spec fn job_view(job: Result<Job, Error>) -> Result<JobView, ErrorView> {
    match job {
        Ok(job) => Ok(job@),
        Err(error) => Err(error@),
    }
}

impl Job {
    /// The job of running `command` on `schedule`.
    pub fn new(schedule: Schedule, command: Command) -> (job: Job)
        ensures
            job@ == (JobView { schedule: schedule@, command: command@ }),
    {
        Job { schedule, command }
    }

    /// The job that the arguments stand for: the cron expression first, the
    /// command line second.
    pub fn from_args(args: &[String]) -> (job: Result<Job, Error>)
        ensures
            job_view(job) == spec_from_args(args.deep_view()),
    {
        if args.len() != 2 {
            return Err(Error::arguments(args.len()));
        }
        let schedule = match Schedule::compile(args[0].as_str()) {
            Ok(schedule) => schedule,
            Err(error) => {
                return Err(error);
            },
        };
        match Command::parse(args[1].as_str()) {
            Ok(command) => Ok(Job { schedule, command }),
            Err(error) => Err(error),
        }
    }

    /// The schedule of this job.
    pub fn schedule(&self) -> (schedule: &Schedule)
        ensures
            schedule@ == self@.schedule,
    {
        &self.schedule
    }

    /// The command of this job.
    pub fn command(&self) -> (command: &Command)
        ensures
            command@ == self@.command,
    {
        &self.command
    }
}

} // verus!
