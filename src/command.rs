//! The scripted commands around a run and the decisions taken on their outcome.
use vstd::prelude::*;
use vstd::string::*;

verus! {

/// The outcome of a scripted command.
#[derive(Debug, PartialEq, Eq, Clone, Copy, Structural)]
pub enum CommandStatus {
    Success,
    Failure,
    CouldNotExecute,
}

/// The scripted commands.
#[derive(Debug, PartialEq, Eq, Clone, Copy, Structural)]
pub enum CommandName {
    MoveGrawFiles,
    BackupConfig,
    CheckRunExists,
}

/// Canonical name of a command.
pub open spec fn command_name(c: CommandName) -> Seq<char> {
    match c {
        CommandName::MoveGrawFiles => "MoveGrawFiles"@,
        CommandName::BackupConfig => "BackupConfig"@,
        CommandName::CheckRunExists => "CheckRunExists"@,
    }
}

impl CommandName {
    /// Canonical name of this command.
    pub fn to_string(&self) -> (r: String)
        ensures
            r@ == command_name(*self),
    {
        match self {
            CommandName::MoveGrawFiles => String::from_str("MoveGrawFiles"),
            CommandName::BackupConfig => String::from_str("BackupConfig"),
            CommandName::CheckRunExists => String::from_str("CheckRunExists"),
        }
    }
}

/// Whether a run may start after the check that its number is unused: the check succeeding
/// means the number holds data already; a failed check, or one that could not run, lets the
/// run go ahead.
pub open spec fn run_may_start(check: CommandStatus) -> bool {
    check != CommandStatus::Success
}

/// Whether a run may start after the check that its number is unused.
pub fn may_start_run(check: CommandStatus) -> (r: bool)
    ensures
        r == run_may_start(check),
{
    match check {
        CommandStatus::Success => false,
        CommandStatus::Failure => true,
        CommandStatus::CouldNotExecute => true,
    }
}

} // verus!
