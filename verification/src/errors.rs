//! Error kinds: specifier parsing failures, failures of the external tools
//! an operation runs, and the per-task outcome the scheduler collects.

use vstd::prelude::*;

verus! {

/// A malformed component specifier. A well-formed specifier holds at least a
/// group and a name, both non-empty.
#[derive(Clone, Copy, Debug, PartialEq, Eq, Structural)]
pub enum SpecifierParseError {
    /// No separator at all: the specifier holds a single token, so the name
    /// (or the group) is missing.
    MissingName,
    /// The group token is empty.
    EmptyGroup,
    /// The name token is empty.
    EmptyName,
}

/// Why one operation of a task group failed.
#[derive(Clone, Copy, Debug, PartialEq, Eq, Structural)]
pub enum TaskFailure {
    /// An external tool binary was missing or could not be started.
    ProcessSpawn,
    /// An external tool ran but returned the carried non-zero status.
    ProcessExit(i32),
    /// A filesystem probe could not resolve a path.
    FilesystemProbe,
}

/// How one operation of a task group ended.
#[derive(Clone, Copy, Debug, PartialEq, Eq, Structural)]
pub enum TaskOutcome {
    Succeeded,
    Failed(TaskFailure),
}

/// Classifies an external tool's exit status: zero is success, anything else
/// is a failure that carries the status.
pub fn outcome_of_status(status: i32) -> (o: TaskOutcome)
    ensures
        status == 0 ==> o == TaskOutcome::Succeeded,
        status != 0 ==> o == TaskOutcome::Failed(TaskFailure::ProcessExit(status)),
{
    if status == 0 {
        TaskOutcome::Succeeded
    } else {
        TaskOutcome::Failed(TaskFailure::ProcessExit(status))
    }
}

} // verus!
