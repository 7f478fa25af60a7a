//! Decisions that the sequences share: what a status means while a poll is
//! running, and which statuses let a step go on.

use crate::command::{Error, ExchangeView, ProgressView, GETIMAGE, NOFINGER, OK};
use vstd::prelude::*;

verus! {

/// What a status means for the step that received it.
#[derive(Clone, Copy, Debug, PartialEq, Eq)]
pub enum Verdict {
    /// Go on to the next step.
    Proceed,
    /// Repeat the exchange after a pause.
    Retry,
    /// Stop with this error.
    Abort(Error),
}

/// The verdict on a `GetImage` status while waiting for a finger: `OK` is the
/// capture, `NOFINGER` means waiting on while retries are left, every other
/// status ends the sequence.
pub open spec fn capture_verdict_spec(status: u8, retries_left: u32) -> Verdict {
    if status == OK {
        Verdict::Proceed
    } else if status != NOFINGER {
        Verdict::Abort(Error::CommandFailed { opcode: GETIMAGE, status })
    } else if retries_left > 0 {
        Verdict::Retry
    } else {
        Verdict::Abort(Error::PollTimeout)
    }
}

/// The verdict on a `GetImage` status while waiting for the finger to be
/// lifted: `NOFINGER` is what is waited for, every other status means waiting
/// on while retries are left.
pub open spec fn removal_verdict_spec(status: u8, retries_left: u32) -> Verdict {
    if status == NOFINGER {
        Verdict::Proceed
    } else if retries_left > 0 {
        Verdict::Retry
    } else {
        Verdict::Abort(Error::PollTimeout)
    }
}

/// A step that needs `OK`: any other status fails, naming the command.
pub open spec fn require_ok_spec(opcode: u8, status: u8) -> Result<(), Error> {
    if status == OK {
        Ok(())
    } else {
        Err(Error::CommandFailed { opcode, status })
    }
}

/// The verdict on a `GetImage` status while waiting for a finger.
#[verifier::when_used_as_spec(capture_verdict_spec)]
pub fn capture_verdict(status: u8, retries_left: u32) -> (verdict: Verdict)
    ensures
        verdict == capture_verdict_spec(status, retries_left),
{
    if status == OK {
        Verdict::Proceed
    } else if status != NOFINGER {
        Verdict::Abort(Error::CommandFailed { opcode: GETIMAGE, status })
    } else if retries_left > 0 {
        Verdict::Retry
    } else {
        Verdict::Abort(Error::PollTimeout)
    }
}

/// The verdict on a `GetImage` status while waiting for the finger to be lifted.
#[verifier::when_used_as_spec(removal_verdict_spec)]
pub fn removal_verdict(status: u8, retries_left: u32) -> (verdict: Verdict)
    ensures
        verdict == removal_verdict_spec(status, retries_left),
{
    if status == NOFINGER {
        Verdict::Proceed
    } else if retries_left > 0 {
        Verdict::Retry
    } else {
        Verdict::Abort(Error::PollTimeout)
    }
}

/// Fails with `CommandFailed` for `opcode` unless `status` is `OK`.
#[verifier::when_used_as_spec(require_ok_spec)]
pub fn require_ok(opcode: u8, status: u8) -> (r: Result<(), Error>)
    ensures
        r == require_ok_spec(opcode, status),
{
    if status == OK {
        Ok(())
    } else {
        Err(Error::CommandFailed { opcode, status })
    }
}

/// A step that goes on with `machine` and `exchange`.
pub open spec fn go_on<M, T>(machine: M, exchange: ExchangeView, pause: bool)
    -> Result<ProgressView<M, T>, Error> {
    Ok(ProgressView::Continue { machine, exchange, pause })
}

} // verus!
