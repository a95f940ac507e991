//! The error taxonomy of the pipeline and the policy tables that map each
//! failure kind to the action the process takes.

use vstd::prelude::*;

verus! {

/// Every way the pipeline can fail, tagged by the stage that failed.
///
/// `Bind` and `Connection` arise at startup; `Decode` arises per packet in
/// the receiver; `SocketRead` is a socket-level failure after a successful
/// bind; `Sink` is a failed push after the connection was established, and
/// carries whether the failure is worth retrying (a dropped connection or a
/// transient network error) or terminal (bad credentials, missing
/// destination).
#[derive(Clone, Copy, Debug, PartialEq, Eq, Structural)]
pub enum PipelineError {
    Bind,
    Connection,
    Decode,
    SocketRead,
    Sink { retryable: bool },
}

/// What the process does about a failure: terminate, log it and drop the
/// offending packet, or re-attempt the same push.
#[derive(Clone, Copy, Debug, PartialEq, Eq, Structural)]
pub enum ErrorAction {
    AbortProcess,
    LogAndDrop,
    RetryPush,
}

/// The reference policy: every failure, whatever its kind, terminates the
/// whole process.
pub open spec fn reference_policy_spec(e: PipelineError) -> ErrorAction {
    ErrorAction::AbortProcess
}

/// The hardened policy: per-message failures are handled locally — a packet
/// that does not decode is logged and dropped, a retryable push failure is
/// re-attempted — and only resource-level failures (bind, connect, socket
/// read, non-retryable push) terminate the process.
pub open spec fn hardened_policy_spec(e: PipelineError) -> ErrorAction {
    match e {
        PipelineError::Decode => ErrorAction::LogAndDrop,
        PipelineError::Sink { retryable } => if retryable {
            ErrorAction::RetryPush
        } else {
            ErrorAction::AbortProcess
        },
        _ => ErrorAction::AbortProcess,
    }
}

/// Looks up the reference policy for a failure.
pub fn reference_policy(e: PipelineError) -> (a: ErrorAction)
    ensures
        a == reference_policy_spec(e),
{
    ErrorAction::AbortProcess
}

/// Looks up the hardened policy for a failure.
pub fn hardened_policy(e: PipelineError) -> (a: ErrorAction)
    ensures
        a == hardened_policy_spec(e),
{
    match e {
        PipelineError::Decode => ErrorAction::LogAndDrop,
        PipelineError::Sink { retryable } => if retryable {
            ErrorAction::RetryPush
        } else {
            ErrorAction::AbortProcess
        },
        _ => ErrorAction::AbortProcess,
    }
}

/// The process exit code for each failure kind: distinct and non-zero,
/// so that an operator can tell from the exit status which stage failed.
pub open spec fn exit_code_spec(e: PipelineError) -> u8 {
    match e {
        PipelineError::Bind => 2,
        PipelineError::Connection => 3,
        PipelineError::Decode => 4,
        PipelineError::SocketRead => 5,
        PipelineError::Sink { .. } => 6,
    }
}

/// Looks up the exit code for a failure.
pub fn exit_code(e: PipelineError) -> (c: u8)
    ensures
        c == exit_code_spec(e),
{
    match e {
        PipelineError::Bind => 2,
        PipelineError::Connection => 3,
        PipelineError::Decode => 4,
        PipelineError::SocketRead => 5,
        PipelineError::Sink { .. } => 6,
    }
}

} // verus!
