//! The command: one line, split once into the program and its arguments.

use vstd::prelude::*;
use vstd::string::*;
use crate::error::{spec_tokenization, Error, ErrorView};

verus! {

/// The words that `shell_words::split` makes of a command line, or what it
/// says where the line cannot be split.
pub uninterp spec fn shell_split(line: Seq<char>) -> Result<Seq<Seq<char>>, Seq<char>>;

/// Splits `line` with `shell_words::split`. Trusted: that the outcome is a
/// function of the line alone, named `shell_split`; the diagnostic is the
/// error in its `Debug` form.
#[verifier::external_body]
fn split(line: &str) -> (outcome: Result<Vec<String>, String>)
    ensures
        match outcome {
            Ok(words) => shell_split(line@) == Ok::<Seq<Seq<char>>, Seq<char>>(words.deep_view()),
            Err(diagnostic) => shell_split(line@) == Err::<Seq<Seq<char>>, Seq<char>>(
                diagnostic@,
            ),
        },
{
    match shell_words::split(line) {
        Ok(words) => Ok(words),
        Err(error) => Err(format!("{:?}", error)),
    }
}

/// What a [`Command`] is to a contract.
pub struct CommandView {
    /// The line as it was given.
    pub line: Seq<char>,
    /// The first word of the line: the program to run.
    pub program: Seq<char>,
    /// The words after the first: the program's arguments.
    pub arguments: Seq<Seq<char>>,
}

/// A command line, split into the program and its arguments. The split is
/// made once; every execution uses the same words.
#[derive(Debug, PartialEq, Eq)]
pub struct Command {
    line: String,
    program: String,
    arguments: Vec<String>,
}

impl View for Command {
    type V = CommandView;

    closed spec fn view(&self) -> CommandView {
        CommandView {
            line: self.line@,
            program: self.program@,
            arguments: self.arguments.deep_view(),
        }
    }
}

/// What is said of a line that holds no word at all.
pub open spec fn spec_no_program() -> Seq<char> {
    "no program given"@
}

/// The command that `split`, the outcome of splitting `line`, stands for:
/// the first word is the program, the others are its arguments. A line that
/// cannot be split, or that holds no word, is an error.
pub open spec fn spec_from_split(
    line: Seq<char>,
    split: Result<Seq<Seq<char>>, Seq<char>>,
) -> Result<CommandView, ErrorView> {
    match split {
        Ok(words) => if words.len() == 0 {
            Err(spec_tokenization(line, spec_no_program()))
        } else {
            Ok(CommandView { line, program: words[0], arguments: words.skip(1) })
        },
        Err(diagnostic) => Err(spec_tokenization(line, diagnostic)),
    }
}

/// The command that `line` stands for.
pub open spec fn spec_parse(line: Seq<char>) -> Result<CommandView, ErrorView> {
    spec_from_split(line, shell_split(line))
}

/// The outcome of a split, as a contract sees it.
pub open spec fn split_view(split: Result<Vec<String>, String>) -> Result<
    Seq<Seq<char>>,
    Seq<char>,
> {
    match split {
        Ok(words) => Ok(words.deep_view()),
        Err(diagnostic) => Err(diagnostic@),
    }
}

/// A command or the error in its place, as a contract sees it.
pub open spec fn parsed_view(parsed: Result<Command, Error>) -> Result<CommandView, ErrorView> {
    match parsed {
        Ok(command) => Ok(command@),
        Err(error) => Err(error@),
    }
}

impl Command {
    /// The command made of `split`, the words that `line` was split into or
    /// the reason why it could not be.
    pub fn from_split(line: &str, split: Result<Vec<String>, String>) -> (parsed: Result<
        Command,
        Error,
    >)
        ensures
            parsed_view(parsed) == spec_from_split(line@, split_view(split)),
    {
        match split {
            Ok(words) => {
                let mut arguments = words;
                if arguments.len() == 0 {
                    Err(Error::tokenization(line, "no program given"))
                } else {
                    let program = arguments.remove(0);
                    assert(arguments.deep_view() =~= words.deep_view().skip(1));
                    Ok(Command { line: String::from_str(line), program, arguments })
                }
            },
            Err(diagnostic) => Err(Error::tokenization(line, diagnostic.as_str())),
        }
    }

    /// Splits `line` into the program and its arguments, as a shell would
    /// split it into words; no shell is involved.
    pub fn parse(line: &str) -> (parsed: Result<Command, Error>)
        ensures
            parsed_view(parsed) == spec_parse(line@),
    {
        Command::from_split(line, split(line))
    }

    /// The line as it was given.
    pub fn line(&self) -> (line: &str)
        ensures
            line@ == self@.line,
    {
        self.line.as_str()
    }

    /// The program to run.
    pub fn program(&self) -> (program: &str)
        ensures
            program@ == self@.program,
    {
        self.program.as_str()
    }

    /// The arguments to run the program with.
    pub fn arguments(&self) -> (arguments: &Vec<String>)
        ensures
            arguments.deep_view() == self@.arguments,
    {
        &self.arguments
    }
}

} // verus!
