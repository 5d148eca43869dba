//! How the tool's run ends: the process exit status for each way it can end.

use vstd::prelude::*;

verus! {

/// How a run ended.
#[derive(PartialEq, Eq, Structural, Clone, Copy, Debug)]
pub enum MainResult {
    /// The command succeeded.
    Success,
    /// The command line could not be parsed (or help or the version was
    /// asked for); the argument parser chose this exit code.
    ArgParseError(i32),
    /// The command failed while running.
    RuntimeError,
}

/// The exit status of the process.
#[derive(PartialEq, Eq, Structural, Clone, Copy, Debug)]
pub enum ExitStatus {
    /// The platform's success status.
    Success,
    /// The platform's general failure status.
    Failure,
    /// This exact status byte.
    Code(u8),
}

/// The status that reports a run: success, the parser's own code (its low
/// byte), or general failure.
pub open spec fn status_of(r: MainResult) -> ExitStatus {
    match r {
        MainResult::Success => ExitStatus::Success,
        MainResult::ArgParseError(code) => ExitStatus::Code(code as u8),
        MainResult::RuntimeError => ExitStatus::Failure,
    }
}

impl MainResult {
    /// The exit status that reports this run.
    pub fn report(&self) -> (status: ExitStatus)
        ensures
            status == status_of(*self),
    {
        match self {
            MainResult::Success => ExitStatus::Success,
            MainResult::ArgParseError(code) => ExitStatus::Code(*code as u8),
            MainResult::RuntimeError => ExitStatus::Failure,
        }
    }
}

/// A successful run exits with success, a failed one with failure, and an
/// argument-parsing outcome with the parser's own code whenever it fits in a
/// byte.
pub proof fn lemma_exit_status_reports_run(code: i32)
    ensures
        status_of(MainResult::Success) == ExitStatus::Success,
        status_of(MainResult::RuntimeError) == ExitStatus::Failure,
        status_of(MainResult::ArgParseError(code)) is Code,
        0 <= code < 256 ==> (status_of(MainResult::ArgParseError(code)) matches ExitStatus::Code(b)
            && b as int == code as int),
{
    assert(0 <= code < 256 ==> (code as u8) as int == code as int) by (bit_vector);
}

} // verus!
