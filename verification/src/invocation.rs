//! One run of the wrapper, as decisions on plain values: what the arguments
//! ask for, whether to execute or to report, and the status to exit with.
//! Spawning the child, reading the configuration file and writing to the
//! error stream are the caller's part.

use vstd::prelude::*;
use vstd::string::*;
use crate::platform::Platform;
use crate::report::{failure, failure_line, span, usage, usage_line, Line, SpanView, Style};
use crate::resolver::{may_resolve_to, opt_str, resolve};
use crate::text::{str_eq, texts};

verus! {

/// The status of a run that ends in a usage error or in a failure to start
/// the command, and of a child that ended without a status of its own.
pub const EXIT_FAILURE: i32 = 1;

/// The status of a run whose command was not found.
pub const EXIT_NOT_FOUND: i32 = 127;

/// Why the arguments name no command.
#[derive(Debug, Clone, Copy, PartialEq, Eq, Structural)]
pub enum UsageError {
    /// There is no command: no argument at all, or an empty name.
    NoCommand,
    /// A leading `--` with no command after it.
    NoCommandAfterSeparator,
}

/// A command and the arguments to hand to it.
#[derive(Debug, Clone, PartialEq, Eq)]
pub struct Invocation {
    pub command: String,
    pub args: Vec<String>,
}

/// What an `Invocation` stands for.
pub struct InvocationView {
    pub command: Seq<char>,
    pub args: Seq<Seq<char>>,
}

impl View for Invocation {
    type V = InvocationView;

    open spec fn view(&self) -> InvocationView {
        InvocationView { command: self.command@, args: texts(self.args@) }
    }
}

/// What to do next in a run.
#[derive(Debug, Clone, PartialEq, Eq)]
pub enum Step {
    /// The arguments name no command: show the usage error.
    Reject(UsageError),
    /// The command was found: start `program` with `args` and wait for it.
    Execute { program: String, args: Vec<String> },
    /// The command was not found: show the notice and the guidance.
    Report { command: String },
}

/// How a run ended.
#[derive(Debug, Clone, Copy, PartialEq, Eq, Structural)]
pub enum Outcome {
    /// The arguments named no command.
    Usage,
    /// The command was not found.
    NotFound,
    /// The command could not be started.
    SpawnFailed,
    /// The command ran and ended with this status, or with none if it was
    /// ended from outside.
    Completed(Option<i32>),
}

/// What the arguments ask for. A leading `--` is skipped. The first argument
/// after it is the command and must not be empty; the rest are handed on.
pub open spec fn parse_spec(args: Seq<Seq<char>>) -> Result<InvocationView, UsageError> {
    if args.len() == 0 {
        Err(UsageError::NoCommand)
    } else if args[0] == "--"@ {
        if args.len() == 1 || args[1].len() == 0 {
            Err(UsageError::NoCommandAfterSeparator)
        } else {
            Ok(InvocationView { command: args[1], args: args.skip(2) })
        }
    } else if args[0].len() == 0 {
        Err(UsageError::NoCommand)
    } else {
        Ok(InvocationView { command: args[0], args: args.skip(1) })
    }
}

/// The message of a usage error.
pub open spec fn usage_message(error: UsageError) -> Seq<char> {
    match error {
        UsageError::NoCommand => "No command specified."@,
        UsageError::NoCommandAfterSeparator => "No command specified after --."@,
    }
}

/// The status a run exits with.
pub open spec fn exit_status_of(outcome: Outcome) -> int {
    match outcome {
        Outcome::Usage => 1,
        Outcome::NotFound => 127,
        Outcome::SpawnFailed => 1,
        Outcome::Completed(Some(code)) => code as int,
        Outcome::Completed(None) => 1,
    }
}

/// An independent copy of the arguments from position `from` on.
fn arguments_from(args: &Vec<String>, from: usize) -> (rest: Vec<String>)
    requires
        from <= args.len(),
    ensures
        texts(rest@) == texts(args@).skip(from as int),
{
    let mut rest: Vec<String> = Vec::new();
    let mut i: usize = from;
    assert(texts(rest@) =~= texts(args@).subrange(from as int, i as int));
    while i < args.len()
        invariant
            from <= i <= args.len(),
            rest.len() == i - from,
            texts(rest@) == texts(args@).subrange(from as int, i as int),
        decreases args.len() - i,
    {
        let ghost before = rest@;
        rest.push(args[i].clone());
        i += 1;
        assert forall|k: int| 0 <= k < rest.len() implies texts(rest@)[k] == texts(args@).subrange(
            from as int,
            i as int,
        )[k] by {
            if k < rest.len() - 1 {
                assert(texts(before)[k] == rest[k]@);
            }
        }
        assert(texts(rest@) =~= texts(args@).subrange(from as int, i as int));
    }
    assert(texts(args@).subrange(from as int, args.len() as int) =~= texts(args@).skip(from as int));
    rest
}

/// Reads the command and its arguments off the argument list.
pub fn parse_invocation(args: &Vec<String>) -> (parsed: Result<Invocation, UsageError>)
    ensures
        match parsed {
            Ok(invocation) => parse_spec(texts(args@)) == Ok::<InvocationView, UsageError>(
                invocation@,
            ),
            Err(error) => parse_spec(texts(args@)) == Err::<InvocationView, UsageError>(error),
        },
{
    if args.len() == 0 {
        return Err(UsageError::NoCommand);
    }
    if str_eq(args[0].as_str(), "--") {
        if args.len() == 1 || args[1].as_str().is_empty() {
            return Err(UsageError::NoCommandAfterSeparator);
        }
        return Ok(Invocation { command: args[1].clone(), args: arguments_from(args, 2) });
    }
    if args[0].as_str().is_empty() {
        return Err(UsageError::NoCommand);
    }
    Ok(Invocation { command: args[0].clone(), args: arguments_from(args, 1) })
}

impl UsageError {
    /// The message of the error.
    pub fn message(&self) -> (text: String)
        ensures
            text@ == usage_message(*self),
    {
        match self {
            UsageError::NoCommand => "No command specified.".to_owned(),
            UsageError::NoCommandAfterSeparator => "No command specified after --.".to_owned(),
        }
    }

    /// The two lines to show for the error: its message and the usage.
    pub fn report(&self) -> (lines: Vec<Line>)
        ensures
            lines.len() == 2,
            lines[0]@ == seq![span(Style::Alert, usage_message(*self))],
            lines[1]@ == usage_line(),
    {
        let mut lines: Vec<Line> = Vec::new();
        let text = self.message();
        lines.push(Line::single(Style::Alert, text.as_str()));
        lines.push(usage());
        lines
    }
}

/// The status to exit with after a run that ended in `outcome`: that of the
/// child where it has one, 1 for a usage error, for a command that could not
/// be started and for a child without a status, 127 for a command that was
/// not found.
pub fn exit_status(outcome: Outcome) -> (status: i32)
    ensures
        status == exit_status_of(outcome),
{
    match outcome {
        Outcome::Usage => EXIT_FAILURE,
        Outcome::NotFound => EXIT_NOT_FOUND,
        Outcome::SpawnFailed => EXIT_FAILURE,
        Outcome::Completed(Some(code)) => code,
        Outcome::Completed(None) => EXIT_FAILURE,
    }
}

/// The line to show when the command was found but could not be started.
pub fn spawn_failure(cause: &str) -> (line: Line)
    ensures
        line@ == failure_line("Error running command:"@, cause@),
{
    failure("Error running command:", cause)
}

/// The steps that may follow from the arguments: the usage error if they
/// name no command, else to execute what the command resolved to with the
/// arguments after it, or to report the command if it resolved to nothing.
pub open spec fn may_follow(
    args: Seq<Seq<char>>,
    platform: Platform,
    dirs: Seq<Seq<char>>,
    pathext: Option<Seq<char>>,
    step: Step,
) -> bool {
    match parse_spec(args) {
        Err(error) => step == Step::Reject(error),
        Ok(asked) => match step {
            Step::Reject(_) => false,
            Step::Execute { program, args: handed } => {
                &&& texts(handed@) == asked.args
                &&& may_resolve_to(asked.command, platform, dirs, pathext, Some(program@))
            },
            Step::Report { command } => {
                &&& command@ == asked.command
                &&& may_resolve_to(asked.command, platform, dirs, pathext, None)
            },
        },
    }
}

/// Decides the next step of a run from its arguments: reject them, execute
/// the command that was resolved by the policy of `platform`, or report that
/// it was not found. `dirs` is the search path and `pathext` the list of
/// recognised extensions from the environment, both used under the
/// extension-suffix policy.
pub fn run(args: &Vec<String>, platform: Platform, dirs: &Vec<String>, pathext: Option<&str>) -> (step:
    Step)
    ensures
        may_follow(texts(args@), platform, texts(dirs@), opt_str(pathext), step),
{
    match parse_invocation(args) {
        Err(error) => Step::Reject(error),
        Ok(invocation) => {
            let Invocation { command, args: handed } = invocation;
            match resolve(command.as_str(), platform, dirs, pathext) {
                Some(program) => Step::Execute { program, args: handed },
                None => Step::Report { command },
            }
        },
    }
}

} // verus!
