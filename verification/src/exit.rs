//! Process exit codes for agents and scripts.
use vstd::prelude::*;

verus! {

#[derive(Debug, Clone, Copy, PartialEq, Eq, Structural)]
pub enum ExitCode {
    Success,
    Failure,
    /// Subcommand exists but is not implemented yet, or its inputs were missing.
    NotImplemented,
    /// Configuration or environment problem.
    Config,
    /// A required policy was not met (`verify --require-sig`).
    Policy,
}

pub open spec fn exit_number(c: ExitCode) -> i32 {
    match c {
        ExitCode::Success => 0,
        ExitCode::Failure => 1,
        ExitCode::NotImplemented => 2,
        ExitCode::Config => 3,
        ExitCode::Policy => 3,
    }
}

impl ExitCode {
    /// The process exit status.
    pub fn code(self) -> (r: i32)
        ensures
            r == exit_number(self),
    {
        match self {
            ExitCode::Success => 0,
            ExitCode::Failure => 1,
            ExitCode::NotImplemented => 2,
            ExitCode::Config => 3,
            ExitCode::Policy => 3,
        }
    }
}

} // verus!
