//! The schedule: a cron expression that compiles, asked for its next
//! occurrence.

use vstd::prelude::*;
use vstd::string::*;
use crate::error::{spec_invalid_schedule, spec_schedule_exhausted, Error};
use crate::time::{instant_in_range, instant_nanos, Instant};

verus! {

/// What the cron parser says against `expression`: `None` where it accepts
/// the expression, its diagnostic where it does not.
pub uninterp spec fn cron_rejection(expression: Seq<char>) -> Option<Seq<char>>;

/// What the cron calendar gives as the occurrence of the schedule
/// `expression` that follows the instant `now` nanoseconds from the epoch:
/// its seconds since the epoch and the nanoseconds into that second. `None`
/// where the calendar finds no occurrence, or where `expression` does not
/// compile.
pub uninterp spec fn cron_upcoming(expression: Seq<char>, now: int) -> Option<(int, int)>;

/// Parses `expression` with `cron::Schedule::from_str` and hands back the
/// parser's complaint. Trusted: that the outcome is a function of the
/// expression alone, named `cron_rejection`; the diagnostic is the error in
/// its `Debug` form.
#[verifier::external_body]
fn rejection(expression: &str) -> (complaint: Option<String>)
    ensures
        match complaint {
            Some(diagnostic) => cron_rejection(expression@) == Some(diagnostic@),
            None => cron_rejection(expression@) is None,
        },
{
    match expression.parse::<cron::Schedule>() {
        Ok(_) => None,
        Err(error) => Some(format!("{:?}", error)),
    }
}

/// Asks `cron::Schedule::after` for the first occurrence of `expression`
/// that it finds from `now` on, in UTC. Trusted: that the answer is a
/// function of the expression and the instant alone, named `cron_upcoming`.
/// Nothing is taken on trust about where the answer lies.
#[verifier::external_body]
fn upcoming(expression: &str, now: Instant) -> (found: Option<(i64, u32)>)
    requires
        now.wf(),
    ensures
        match found {
            Some((secs, nanos)) => cron_upcoming(expression@, now@) == Some(
                (secs as int, nanos as int),
            ),
            None => cron_upcoming(expression@, now@) is None,
        },
{
    let schedule = expression.parse::<cron::Schedule>().ok()?;
    let after = chrono::DateTime::from_timestamp(now.secs, now.nanos)?;
    match schedule.after(&after).next() {
        Some(next) => Some((next.timestamp(), next.timestamp_subsec_nanos())),
        None => None,
    }
}

/// The next occurrence after `now`, in nanoseconds since the epoch, given
/// what the calendar found: the occurrence it found, where that is an
/// instant strictly after `now`. Anything else counts as no occurrence, so
/// that the same instant never comes twice.
pub open spec fn spec_strictly_after(now: int, found: Option<(int, int)>) -> Option<int> {
    match found {
        Some((secs, nanos)) => if instant_in_range(secs, nanos) && now < instant_nanos(
            secs,
            nanos,
        ) {
            Some(instant_nanos(secs, nanos))
        } else {
            None
        },
        None => None,
    }
}

/// The next occurrence of the schedule `expression` after `now`, both in
/// nanoseconds since the epoch.
pub open spec fn spec_next_after(expression: Seq<char>, now: int) -> Option<int> {
    spec_strictly_after(now, cron_upcoming(expression, now))
}

/// What the calendar found, as a contract sees it.
pub open spec fn found_view(found: Option<(i64, u32)>) -> Option<(int, int)> {
    match found {
        Some((secs, nanos)) => Some((secs as int, nanos as int)),
        None => None,
    }
}

/// A cron expression that compiles. Its view is the expression.
#[derive(Debug, PartialEq, Eq)]
pub struct Schedule {
    expression: String,
}

impl View for Schedule {
    type V = Seq<char>;

    closed spec fn view(&self) -> Seq<char> {
        self.expression@
    }
}

impl Schedule {
    /// The parser has nothing to say against the expression of a schedule.
    #[verifier::type_invariant]
    pub open spec fn wf(self) -> bool {
        cron_rejection(self@) is None
    }

    /// Compiles `expression`. It fails exactly where the parser rejects the
    /// expression, and the error then says what the parser said.
    pub fn compile(expression: &str) -> (compiled: Result<Schedule, Error>)
        ensures
            match compiled {
                Ok(schedule) => cron_rejection(expression@) is None && schedule@ == expression@
                    && schedule.wf(),
                Err(error) => cron_rejection(expression@) matches Some(diagnostic) && error@
                    == spec_invalid_schedule(expression@, diagnostic),
            },
    {
        match rejection(expression) {
            Some(diagnostic) => Err(Error::invalid_schedule(expression, diagnostic.as_str())),
            None => Ok(Schedule { expression: String::from_str(expression) }),
        }
    }

    /// The expression this schedule was compiled from.
    pub fn expression(&self) -> (expression: &str)
        ensures
            expression@ == self@,
    {
        self.expression.as_str()
    }

    /// The next occurrence after `now`, given what the calendar found. It
    /// is an error exactly where the calendar found nothing, or nothing
    /// that lies strictly after `now`.
    pub fn strictly_after(now: Instant, found: Option<(i64, u32)>) -> (next: Result<
        Instant,
        Error,
    >)
        ensures
            match next {
                Ok(t) => spec_strictly_after(now@, found_view(found)) == Some(t@) && t.wf()
                    && now@ < t@,
                Err(error) => spec_strictly_after(now@, found_view(found)) is None && error@
                    == spec_schedule_exhausted(),
            },
    {
        match found {
            Some((secs, nanos)) => match Instant::new(secs, nanos) {
                Some(t) => if t.is_after(&now) {
                    Ok(t)
                } else {
                    Err(Error::schedule_exhausted())
                },
                None => Err(Error::schedule_exhausted()),
            },
            None => Err(Error::schedule_exhausted()),
        }
    }

    /// The first occurrence strictly after `now`. It fails exactly where
    /// the schedule has no such occurrence left.
    pub fn next_after(&self, now: Instant) -> (next: Result<Instant, Error>)
        ensures
            match next {
                Ok(t) => spec_next_after(self@, now@) == Some(t@) && t.wf() && now@ < t@,
                Err(error) => spec_next_after(self@, now@) is None && error@
                    == spec_schedule_exhausted(),
            },
    {
        proof {
            use_type_invariant(now);
        }
        Schedule::strictly_after(now, upcoming(self.expression.as_str(), now))
    }
}

/// Strict advance: whatever the calendar finds, the next occurrence after an
/// instant lies strictly after that instant.
pub proof fn law_next_is_later(expression: Seq<char>, now: int)
    ensures
        spec_next_after(expression, now) matches Some(next) ==> now < next,
{
}

} // verus!
