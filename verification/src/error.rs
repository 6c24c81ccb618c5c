//! The error that ends the scheduler, and the reasons there are for it.

use vstd::prelude::*;
use vstd::string::*;
use crate::text::{decimal, spec_decimal};

verus! {

/// The exit code of every failure that has no code of its own.
pub const GENERIC_FAILURE: i32 = 1;

/// Why the scheduler gives up. Each failure is final: nothing is retried.
#[derive(Clone, Copy, Debug, PartialEq, Eq, Structural)]
pub enum Failure {
    /// The wrong number of arguments was given.
    Arguments,
    /// The cron expression did not compile.
    InvalidSchedule,
    /// The command line could not be split into a program and its arguments.
    Tokenization,
    /// The schedule has no occurrence left.
    ScheduleExhausted,
    /// The time left until the next occurrence could not be computed.
    WaitTime,
    /// The command could not be started or awaited.
    Spawn,
    /// The command was ended by a signal and left no exit code.
    Signal,
    /// The command ran and exited with this code.
    ChildExit(i32),
}

impl Failure {
    /// The exit code the scheduler ends with: the child's own code where it
    /// left one, the generic code otherwise.
    pub open spec fn spec_exit_code(self) -> int {
        match self {
            Failure::ChildExit(code) => code as int,
            _ => GENERIC_FAILURE as int,
        }
    }

    /// The exit code the scheduler ends with.
    pub fn exit_code(&self) -> (code: i32)
        ensures
            code == self.spec_exit_code(),
    {
        match self {
            Failure::ChildExit(code) => *code,
            _ => GENERIC_FAILURE,
        }
    }

    /// The error of this failure, with `message` to print.
    pub fn error(&self, message: &str) -> (error: Error)
        ensures
            error@ == (ErrorView { message: message@, returncode: self.spec_exit_code() }),
    {
        match self {
            Failure::ChildExit(code) => Error::new_with_code(message, *code),
            _ => Error::new(message),
        }
    }
}

/// What an [`Error`] is to a contract: its message as a sequence of
/// characters, and its exit code.
pub struct ErrorView {
    pub message: Seq<char>,
    pub returncode: int,
}

/// A fatal error: the message to print and the code to exit with.
#[derive(Clone, Debug, PartialEq, Eq)]
pub struct Error {
    pub message: String,
    pub returncode: i32,
}

impl View for Error {
    type V = ErrorView;

    open spec fn view(&self) -> ErrorView {
        ErrorView { message: self.message@, returncode: self.returncode as int }
    }
}

/// The error for a wrong number of arguments. No argument at all has a
/// message of its own.
pub open spec fn spec_arguments(count: int) -> ErrorView {
    ErrorView {
        message: if count == 0 {
            "Missing both required arguments (schedule + command). Use --help to get more information."@
        } else {
            "Expecting exactly 2 arguments: The schedule, and the command to execute. Use --help to get more information."@
        },
        returncode: GENERIC_FAILURE as int,
    }
}

/// The error for a cron expression that did not compile: it names the
/// expression and gives the parser's diagnostic.
pub open spec fn spec_invalid_schedule(expression: Seq<char>, diagnostic: Seq<char>) -> ErrorView {
    ErrorView {
        message: "Invalid schedule '"@ + expression + "': "@ + diagnostic,
        returncode: GENERIC_FAILURE as int,
    }
}

/// The error for a command line that could not be split: it names the
/// command line and gives the reason.
pub open spec fn spec_tokenization(command: Seq<char>, diagnostic: Seq<char>) -> ErrorView {
    ErrorView {
        message: "Failed to properly split command '"@ + command + "': "@ + diagnostic,
        returncode: GENERIC_FAILURE as int,
    }
}

/// The error for a schedule with no occurrence left.
pub open spec fn spec_schedule_exhausted() -> ErrorView {
    ErrorView {
        message: "Failed to calculate next execution time"@,
        returncode: GENERIC_FAILURE as int,
    }
}

/// The error for a next occurrence that lies before the current time.
pub open spec fn spec_wait_time() -> ErrorView {
    ErrorView {
        message: "Failed to calculate wait time: the next execution lies in the past"@,
        returncode: GENERIC_FAILURE as int,
    }
}

/// The error for a command that could not be started or awaited: it names
/// the program and gives the system's diagnostic.
pub open spec fn spec_spawn(program: Seq<char>, diagnostic: Seq<char>) -> ErrorView {
    ErrorView {
        message: "Failed to execute binary '"@ + program + "': "@ + diagnostic,
        returncode: GENERIC_FAILURE as int,
    }
}

/// The error for a command that a signal ended.
pub open spec fn spec_signal() -> ErrorView {
    ErrorView {
        message: "Child process was killed using a signal"@,
        returncode: GENERIC_FAILURE as int,
    }
}

/// The error for a command that exited with `code`: the scheduler exits
/// with the same code.
pub open spec fn spec_child_exit(code: int) -> ErrorView {
    ErrorView { message: "Child exited with code "@ + spec_decimal(code), returncode: code }
}

/// `head`, `subject`, `link` and `detail` in one string, in this order.
fn compose(head: &str, subject: &str, link: &str, detail: &str) -> (text: String)
    ensures
        text@ == head@ + subject@ + link@ + detail@,
{
    let mut text = String::from_str(head);
    text.append(subject);
    text.append(link);
    text.append(detail);
    text
}

impl Error {
    /// An error with the generic exit code.
    pub fn new(message: &str) -> (error: Error)
        ensures
            error@ == (ErrorView { message: message@, returncode: GENERIC_FAILURE as int }),
    {
        Error { message: String::from_str(message), returncode: GENERIC_FAILURE }
    }

    /// An error with an exit code of its own.
    pub fn new_with_code(message: &str, returncode: i32) -> (error: Error)
        ensures
            error@ == (ErrorView { message: message@, returncode: returncode as int }),
    {
        Error { message: String::from_str(message), returncode }
    }

    /// The error for `count` arguments where two were expected.
    pub fn arguments(count: usize) -> (error: Error)
        ensures
            error@ == spec_arguments(count as int),
    {
        if count == 0 {
            Failure::Arguments.error(
                "Missing both required arguments (schedule + command). Use --help to get more information.",
            )
        } else {
            Failure::Arguments.error(
                "Expecting exactly 2 arguments: The schedule, and the command to execute. Use --help to get more information.",
            )
        }
    }

    /// The error for the cron expression `expression`, which the parser
    /// rejected with `diagnostic`.
    pub fn invalid_schedule(expression: &str, diagnostic: &str) -> (error: Error)
        ensures
            error@ == spec_invalid_schedule(expression@, diagnostic@),
    {
        let message = compose("Invalid schedule '", expression, "': ", diagnostic);
        Failure::InvalidSchedule.error(message.as_str())
    }

    /// The error for the command line `command`, which could not be split
    /// for the reason `diagnostic`.
    pub fn tokenization(command: &str, diagnostic: &str) -> (error: Error)
        ensures
            error@ == spec_tokenization(command@, diagnostic@),
    {
        let message = compose("Failed to properly split command '", command, "': ", diagnostic);
        Failure::Tokenization.error(message.as_str())
    }

    /// The error for a schedule with no occurrence left.
    pub fn schedule_exhausted() -> (error: Error)
        ensures
            error@ == spec_schedule_exhausted(),
    {
        Failure::ScheduleExhausted.error("Failed to calculate next execution time")
    }

    /// The error for a next occurrence that lies before the current time.
    pub fn wait_time() -> (error: Error)
        ensures
            error@ == spec_wait_time(),
    {
        Failure::WaitTime.error(
            "Failed to calculate wait time: the next execution lies in the past",
        )
    }

    /// The error for the program `program`, which could not be started or
    /// awaited; the system said `diagnostic`.
    pub fn spawn(program: &str, diagnostic: &str) -> (error: Error)
        ensures
            error@ == spec_spawn(program@, diagnostic@),
    {
        let message = compose("Failed to execute binary '", program, "': ", diagnostic);
        Failure::Spawn.error(message.as_str())
    }

    /// The error for a command that a signal ended.
    pub fn signal() -> (error: Error)
        ensures
            error@ == spec_signal(),
    {
        Failure::Signal.error("Child process was killed using a signal")
    }

    /// The error for a command that exited with `code`.
    pub fn child_exit(code: i32) -> (error: Error)
        ensures
            error@ == spec_child_exit(code as int),
    {
        let message = String::from_str("Child exited with code ").concat(decimal(code).as_str());
        Failure::ChildExit(code).error(message.as_str())
    }
}

} // verus!
