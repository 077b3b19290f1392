//! `signet inspect`: signature status per file and the `--strict` verdict.
use vstd::prelude::*;

use crate::exit::ExitCode;
use crate::inspect::report::{InspectReport, SignatureStatus};

verus! {

/// Arguments of `signet inspect`.
#[derive(Debug)]
pub struct Args {
    /// Artifact path(s) to inspect
    pub files: Vec<String>,
    /// JSON report for agents
    pub json: bool,
    /// Exit 1 if any file is unsigned or error
    pub strict: bool,
}

pub open spec fn any_unsigned_or_error(report: InspectReport) -> bool {
    exists|i: int|
        0 <= i < report.files@.len() && ((#[trigger] report.files@[i]).status == SignatureStatus::Unsigned
            || report.files@[i].status == SignatureStatus::Error)
}

/// `--strict` fails the run when a file is unsigned or could not be inspected.
pub fn inspect_exit(report: &InspectReport, strict: bool) -> (r: ExitCode)
    ensures
        r == (if strict && any_unsigned_or_error(*report) {
            ExitCode::Failure
        } else {
            ExitCode::Success
        }),
{
    if !strict {
        return ExitCode::Success;
    }
    let mut i: usize = 0;
    while i < report.files.len()
        invariant
            i <= report.files.len(),
            strict,
            forall|j: int|
                0 <= j < i ==> !((#[trigger] report.files@[j]).status == SignatureStatus::Unsigned
                    || report.files@[j].status == SignatureStatus::Error),
        decreases report.files.len() - i,
    {
        let s = report.files[i].status;
        if s == SignatureStatus::Unsigned || s == SignatureStatus::Error {
            assert(report.files@[i as int].status == s);
            return ExitCode::Failure;
        }
        i = i + 1;
    }
    ExitCode::Success
}

} // verus!
