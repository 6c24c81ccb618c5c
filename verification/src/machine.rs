//! The run loop as a state machine: what the scheduler waits for, what it is
//! told, and what it asks for next.

use vstd::prelude::*;
use crate::error::{
    spec_child_exit, spec_schedule_exhausted, spec_signal, spec_spawn, spec_wait_time, Error,
    ErrorView, GENERIC_FAILURE,
};
use crate::job::{Job, JobView};
use crate::schedule::spec_next_after;
use crate::time::{min_int, Instant, Wait};

verus! {

/// Where the run loop stands.
#[derive(Clone, Copy, Debug, PartialEq, Eq)]
pub enum State {
    /// The next occurrence is still to be computed, from the time about to
    /// be read. The loop starts here and comes back here after every run
    /// that succeeded.
    Arming,
    /// The command is to run at `next`, which had not come when the clock
    /// was last read.
    Waiting { next: Instant },
    /// The command is running. Nothing else is started before it has ended.
    Executing,
}

/// What the caller reports to the run loop.
#[derive(Debug, PartialEq, Eq)]
pub enum Event {
    /// The clock was read, and this is the time.
    Clock(Instant),
    /// The command ran and has ended: with this exit code or, where a
    /// signal ended it, with none.
    Exited(Option<i32>),
    /// The command could not be started or awaited; the system said this.
    SpawnFailed(String),
}

/// What the run loop asks of the caller.
#[derive(Clone, Copy, Debug, PartialEq, Eq)]
pub enum Action {
    /// Read the clock and report the time.
    ReadClock,
    /// Sleep this long, then read the clock and report the time.
    Sleep(Wait),
    /// Start the command, wait until it has ended and report how.
    Execute,
    /// The command is still running: report how it ended.
    AwaitChild,
}

/// A [`State`] as a contract sees it, with its instant in nanoseconds since
/// the epoch.
pub enum StateView {
    Arming,
    Waiting { next: int },
    Executing,
}

/// An [`Event`] as a contract sees it.
pub enum EventView {
    Clock(int),
    Exited(Option<int>),
    SpawnFailed(Seq<char>),
}

/// An [`Action`] as a contract sees it, with its wait in nanoseconds.
pub enum ActionView {
    ReadClock,
    Sleep(int),
    Execute,
    AwaitChild,
}

/// An exit code as a contract sees it.
pub open spec fn code_view(code: Option<i32>) -> Option<int> {
    match code {
        Some(c) => Some(c as int),
        None => None,
    }
}

impl View for State {
    type V = StateView;

    open spec fn view(&self) -> StateView {
        match *self {
            State::Arming => StateView::Arming,
            State::Waiting { next } => StateView::Waiting { next: next@ },
            State::Executing => StateView::Executing,
        }
    }
}

impl View for Event {
    type V = EventView;

    open spec fn view(&self) -> EventView {
        match *self {
            Event::Clock(now) => EventView::Clock(now@),
            Event::Exited(code) => EventView::Exited(code_view(code)),
            Event::SpawnFailed(diagnostic) => EventView::SpawnFailed(diagnostic@),
        }
    }
}

impl View for Action {
    type V = ActionView;

    open spec fn view(&self) -> ActionView {
        match *self {
            Action::ReadClock => ActionView::ReadClock,
            Action::Sleep(wait) => ActionView::Sleep(wait@),
            Action::Execute => ActionView::Execute,
            Action::AwaitChild => ActionView::AwaitChild,
        }
    }
}

/// One turn of the loop, or the error that ends it, as a contract sees it.
pub open spec fn turn_view(turn: Result<(State, Action), Error>) -> Result<
    (StateView, ActionView),
    ErrorView,
> {
    match turn {
        Ok((state, action)) => Ok((state@, action@)),
        Err(error) => Err(error@),
    }
}

/// How long to sleep at `now` for a command that is to run at `next`: the
/// time that is left, but never more than the longest single sleep. A
/// `next` that lies in the past is an error.
pub open spec fn spec_sleep_time(now: int, next: int) -> Result<int, ErrorView> {
    if now <= next {
        Ok(min_int(next - now, Wait::spec_limit()))
    } else {
        Err(spec_wait_time())
    }
}

/// What the loop does when the clock says `now` and the command is to run
/// at `next`: it sleeps while `next` has not come, and runs the command once
/// it has.
pub open spec fn spec_poll(next: int, now: int) -> (StateView, ActionView) {
    if next > now {
        (StateView::Waiting { next }, ActionView::Sleep(min_int(next - now, Wait::spec_limit())))
    } else {
        (StateView::Executing, ActionView::Execute)
    }
}

/// What the end of the command means: exit code zero is success; any other
/// code ends the scheduler with that code; no code, which a signal leaves,
/// ends it with the generic one.
pub open spec fn spec_judge(code: Option<int>) -> Result<(), ErrorView> {
    match code {
        Some(c) => if c == 0 {
            Ok(())
        } else {
            Err(spec_child_exit(c))
        },
        None => Err(spec_signal()),
    }
}

/// The wait, or the error in its place, as a contract sees it.
pub open spec fn sleep_view(sleep: Result<Wait, Error>) -> Result<int, ErrorView> {
    match sleep {
        Ok(wait) => Ok(wait@),
        Err(error) => Err(error@),
    }
}

/// The verdict on a run as a contract sees it.
pub open spec fn verdict_view(verdict: Result<(), Error>) -> Result<(), ErrorView> {
    match verdict {
        Ok(()) => Ok(()),
        Err(error) => Err(error@),
    }
}

/// What the loop does once the next occurrence has been asked for at the
/// time just read: it waits for the occurrence and reads the clock again, or
/// ends where the schedule has none left.
pub open spec fn spec_arm(upcoming: Option<int>) -> Result<(StateView, ActionView), ErrorView> {
    match upcoming {
        Some(next) => Ok((StateView::Waiting { next }, ActionView::ReadClock)),
        None => Err(spec_schedule_exhausted()),
    }
}

/// One turn of the run loop of `job`: from where it stands and what it is
/// told to where it stands next and what it asks for, or to the error that
/// ends it.
///
/// While arming, the time read gives the next occurrence. While waiting, the
/// time read decides between sleeping and running the command. While the
/// command runs, only its end is of interest: success arms the loop again,
/// anything else ends it. What a state does not wait for changes nothing:
/// the loop stays where it is and asks again.
pub open spec fn spec_step(job: JobView, state: StateView, event: EventView) -> Result<
    (StateView, ActionView),
    ErrorView,
> {
    match state {
        StateView::Arming => match event {
            EventView::Clock(now) => spec_arm(spec_next_after(job.schedule, now)),
            _ => Ok((StateView::Arming, ActionView::ReadClock)),
        },
        StateView::Waiting { next } => match event {
            EventView::Clock(now) => Ok(spec_poll(next, now)),
            _ => Ok((StateView::Waiting { next }, ActionView::ReadClock)),
        },
        StateView::Executing => match event {
            EventView::Exited(code) => match spec_judge(code) {
                Ok(()) => Ok((StateView::Arming, ActionView::ReadClock)),
                Err(error) => Err(error),
            },
            EventView::SpawnFailed(diagnostic) => Err(spec_spawn(job.command.program, diagnostic)),
            EventView::Clock(_) => Ok((StateView::Executing, ActionView::AwaitChild)),
        },
    }
}

/// A run of the loop of `job`: `states` are the states it went through, and
/// turn `i` took it from `states[i]` to `states[i + 1]` on `events[i]`,
/// asking for `actions[i]`. No turn of a run ends in an error.
pub open spec fn spec_run(
    job: JobView,
    states: Seq<StateView>,
    events: Seq<EventView>,
    actions: Seq<ActionView>,
) -> bool {
    &&& states.len() == events.len() + 1
    &&& actions.len() == events.len()
    &&& forall|i: int|
        0 <= i < events.len() ==> #[trigger] spec_step(job, states[i], events[i]) == Ok::<
            (StateView, ActionView),
            ErrorView,
        >((states[i + 1], actions[i]))
}

/// How long to sleep at `now` for a command that is to run at `next`.
pub fn sleep_time(now: Instant, next: Instant) -> (sleep: Result<Wait, Error>)
    ensures
        sleep_view(sleep) == spec_sleep_time(now@, next@),
        sleep matches Ok(wait) ==> wait.wf(),
{
    match now.wait_until(&next) {
        Some(wait) => Ok(wait.capped()),
        None => Err(Error::wait_time()),
    }
}

/// What the loop does when the clock says `now` and the command is to run at
/// `next`.
pub fn poll(next: Instant, now: Instant) -> (turn: Result<(State, Action), Error>)
    ensures
        turn_view(turn) == Ok::<(StateView, ActionView), ErrorView>(spec_poll(next@, now@)),
{
    if next.is_after(&now) {
        match sleep_time(now, next) {
            Ok(wait) => Ok((State::Waiting { next }, Action::Sleep(wait))),
            Err(error) => Err(error),
        }
    } else {
        Ok((State::Executing, Action::Execute))
    }
}

/// What the end of the command means for the scheduler.
pub fn judge(code: Option<i32>) -> (verdict: Result<(), Error>)
    ensures
        verdict_view(verdict) == spec_judge(code_view(code)),
{
    match code {
        Some(c) => if c == 0 {
            Ok(())
        } else {
            Err(Error::child_exit(c))
        },
        None => Err(Error::signal()),
    }
}

/// What the loop does once the next occurrence has been asked for.
pub fn arm(upcoming: Result<Instant, Error>) -> (turn: Result<(State, Action), Error>)
    ensures
        match upcoming {
            Ok(next) => turn == Ok::<(State, Action), Error>(
                (State::Waiting { next }, Action::ReadClock),
            ),
            Err(error) => turn == Err::<(State, Action), Error>(error),
        },
{
    match upcoming {
        Ok(next) => Ok((State::Waiting { next }, Action::ReadClock)),
        Err(error) => Err(error),
    }
}

impl Job {
    /// Where the run loop starts, and what it first asks for.
    pub fn start(&self) -> (turn: (State, Action))
        ensures
            turn.0 == State::Arming,
            turn.1 == Action::ReadClock,
    {
        (State::Arming, Action::ReadClock)
    }

    /// One turn of the run loop: the caller has done what was asked of it
    /// and reports `event`.
    pub fn step(&self, state: State, event: Event) -> (turn: Result<(State, Action), Error>)
        ensures
            turn_view(turn) == spec_step(self@, state@, event@),
    {
        match state {
            State::Arming => match event {
                Event::Clock(now) => arm(self.schedule().next_after(now)),
                _ => Ok((State::Arming, Action::ReadClock)),
            },
            State::Waiting { next } => match event {
                Event::Clock(now) => poll(next, now),
                _ => Ok((State::Waiting { next }, Action::ReadClock)),
            },
            State::Executing => match event {
                Event::Exited(code) => match judge(code) {
                    Ok(()) => Ok((State::Arming, Action::ReadClock)),
                    Err(error) => Err(error),
                },
                Event::SpawnFailed(diagnostic) => Err(
                    Error::spawn(self.command().program(), diagnostic.as_str()),
                ),
                Event::Clock(_) => Ok((State::Executing, Action::AwaitChild)),
            },
        }
    }
}

/// The sleep that a waiting loop asks for is the time left until the command
/// is to run or the longest single sleep, whichever is less.
pub proof fn law_sleep_is_capped(job: JobView, next: int, now: int)
    requires
        next > now,
    ensures
        spec_step(job, StateView::Waiting { next }, EventView::Clock(now)) == Ok::<
            (StateView, ActionView),
            ErrorView,
        >((StateView::Waiting { next }, ActionView::Sleep(min_int(next - now, Wait::spec_limit())))),
        0 < min_int(next - now, Wait::spec_limit()) <= Wait::spec_limit(),
        Wait::spec_limit() == 300 * 1_000_000_000,
{
}

/// An occurrence that the loop begins to wait for lies strictly after the
/// time it was computed from: the same instant never fires twice.
pub proof fn law_armed_for_later(job: JobView, now: int)
    ensures
        spec_step(job, StateView::Arming, EventView::Clock(now)) matches Ok((after, action))
            ==> after matches StateView::Waiting { next } && now < next && action
            == ActionView::ReadClock,
{
}

/// A command that exits with code zero does not end the loop: the loop goes
/// on to compute the next occurrence from the time it reads next.
pub proof fn law_success_goes_on(job: JobView)
    ensures
        spec_step(job, StateView::Executing, EventView::Exited(Some(0int))) == Ok::<
            (StateView, ActionView),
            ErrorView,
        >((StateView::Arming, ActionView::ReadClock)),
{
}

/// A command that exits with a code other than zero ends the loop, and the
/// error carries that very code.
pub proof fn law_exit_code_is_passed_on(job: JobView, code: int)
    requires
        code != 0,
    ensures
        spec_step(job, StateView::Executing, EventView::Exited(Some(code))) matches Err(error)
            && error.returncode == code,
{
}

/// A command that a signal ended, or that could not be started, ends the
/// loop with the generic exit code.
pub proof fn law_signal_and_spawn_failure_are_generic(job: JobView, diagnostic: Seq<char>)
    ensures
        spec_step(job, StateView::Executing, EventView::Exited(None)) matches Err(error)
            && error.returncode == GENERIC_FAILURE,
        spec_step(job, StateView::Executing, EventView::SpawnFailed(diagnostic)) matches Err(error)
            && error.returncode == GENERIC_FAILURE,
{
}

/// The loop asks for the command to be run only while it waits, and only
/// once the time to run it has come; it then holds that the command is
/// running.
pub proof fn law_execute_when_due(job: JobView, state: StateView, event: EventView)
    requires
        spec_step(job, state, event) matches Ok((_, action)) && action is Execute,
    ensures
        state matches StateView::Waiting { next } && event matches EventView::Clock(now) && next
            <= now,
        spec_step(job, state, event) matches Ok((after, _)) && after is Executing,
{
}

/// While the command runs the loop asks for nothing to be started, and it
/// holds that the command is running until it is told that the command has
/// exited with code zero.
pub proof fn law_executing_holds(job: JobView, event: EventView)
    requires
        spec_step(job, StateView::Executing, event) is Ok,
    ensures
        spec_step(job, StateView::Executing, event) matches Ok((after, action)) && !(action
            is Execute) && (after is Executing || event == EventView::Exited(Some(0int))),
{
}

/// In a run, the command is held to be running from the turn after the one
/// that started it up to state `upto`, as long as no turn in between told
/// of its exit with code zero.
proof fn lemma_running_since(
    job: JobView,
    states: Seq<StateView>,
    events: Seq<EventView>,
    actions: Seq<ActionView>,
    started: int,
    upto: int,
)
    requires
        spec_run(job, states, events, actions),
        0 <= started < upto <= events.len(),
        actions[started] is Execute,
        forall|k: int| started < k < upto ==> events[k] != EventView::Exited(Some(0int)),
    ensures
        states[upto] is Executing,
    decreases upto - started,
{
    if upto == started + 1 {
        law_execute_when_due(job, states[started], events[started]);
    } else {
        lemma_running_since(job, states, events, actions, started, upto - 1);
        law_executing_holds(job, events[upto - 1]);
        assert(spec_step(job, states[upto - 1], events[upto - 1]) is Ok);
    }
}

/// No overlap: in a run, between two turns that ask for the command to be
/// run lies a turn that told of the end of the earlier run, with exit code
/// zero. The command is never started while it is still running.
pub proof fn law_no_overlap(
    job: JobView,
    states: Seq<StateView>,
    events: Seq<EventView>,
    actions: Seq<ActionView>,
    first: int,
    second: int,
)
    requires
        spec_run(job, states, events, actions),
        0 <= first < second < events.len(),
        actions[first] is Execute,
        actions[second] is Execute,
    ensures
        exists|k: int| first < k < second && #[trigger] events[k] == EventView::Exited(Some(0int)),
{
    if forall|k: int| first < k < second ==> events[k] != EventView::Exited(Some(0int)) {
        lemma_running_since(job, states, events, actions, first, second);
        law_execute_when_due(job, states[second], events[second]);
    }
}

} // verus!
