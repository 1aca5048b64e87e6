//! What to run once the service is reachable, and how the process ends.

use crate::text::{join2, texts};
use vstd::prelude::*;
use vstd::string::StringExecFns;

verus! {

/// The exit status of a run that failed on its own account.
pub const FAILURE_STATUS: i32 = 1;

/// A program and the arguments to give it.
#[derive(Debug, Clone, PartialEq, Eq)]
pub struct Invocation {
    pub program: String,
    pub args: Vec<String>,
}

/// The mathematical content of an [`Invocation`].
pub struct InvocationView {
    pub program: Seq<char>,
    pub args: Seq<Seq<char>>,
}

impl View for Invocation {
    type V = InvocationView;

    open spec fn view(&self) -> InvocationView {
        InvocationView { program: self.program@, args: texts(self.args@) }
    }
}

/// The invocation that a command line stands for: its first word is the
/// program, the rest are the arguments. An empty command stands for none.
pub open spec fn invocation_of(command: Seq<Seq<char>>) -> Option<InvocationView> {
    if command.len() == 0 {
        None
    } else {
        Some(InvocationView { program: command[0], args: command.subrange(1, command.len() as int) })
    }
}

/// Splits the trailing command into program and arguments; `None` when no
/// command was given.
pub fn plan_command(command: &Vec<String>) -> (plan: Option<Invocation>)
    ensures
        match plan {
            Some(invocation) => invocation_of(texts(command@)) == Some(invocation@),
            None => invocation_of(texts(command@)) is None,
        },
{
    if command.len() == 0 {
        return None;
    }
    let program = String::from_str(command[0].as_str());
    let mut args: Vec<String> = Vec::new();
    let mut i: usize = 1;
    while i < command.len()
        invariant
            1 <= i <= command.len(),
            texts(args@) == texts(command@).subrange(1, i as int),
        decreases command.len() - i,
    {
        let ghost before = args@;
        args.push(String::from_str(command[i].as_str()));
        assert(texts(args@) =~= texts(before).push(command[i as int]@));
        i += 1;
    }
    Some(Invocation { program, args })
}

/// How the follow-up command ended, as far as the exit status is concerned.
#[derive(Clone, Copy, Debug, PartialEq, Eq, Structural)]
pub enum CommandOutcome {
    /// No command was given.
    NoCommand,
    /// The executable could not be launched.
    SpawnFailed,
    /// The child ran to its end; `None` when it left no exit code, as after a signal.
    Exited(Option<i32>),
}

/// Exit status of the whole process for a given outcome of the follow-up command.
pub open spec fn exit_status_of(outcome: CommandOutcome) -> i32 {
    match outcome {
        CommandOutcome::NoCommand => 0,
        CommandOutcome::SpawnFailed => FAILURE_STATUS,
        CommandOutcome::Exited(Some(code)) => code,
        CommandOutcome::Exited(None) => FAILURE_STATUS,
    }
}

/// The status this process exits with: zero without a command, the child's own
/// code when it has one, and one otherwise.
pub fn exit_status(outcome: CommandOutcome) -> (status: i32)
    ensures
        status == exit_status_of(outcome),
{
    match outcome {
        CommandOutcome::NoCommand => 0,
        CommandOutcome::SpawnFailed => FAILURE_STATUS,
        CommandOutcome::Exited(Some(code)) => code,
        CommandOutcome::Exited(None) => FAILURE_STATUS,
    }
}

/// The words for a program that could not be launched.
pub open spec fn spawn_failed_text(program: Seq<char>) -> Seq<char> {
    "Failed to execute command: "@ + program
}

/// The words for a program that could not be launched.
pub fn spawn_failed_message(program: &str) -> (text: String)
    ensures
        text@ == spawn_failed_text(program@),
{
    join2("Failed to execute command: ", program)
}

} // verus!
