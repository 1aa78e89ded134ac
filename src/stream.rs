use vstd::prelude::*;
use crate::error::{Error, status_result};

verus! {

/// Where an asynchronous streaming session stands.
#[derive(Clone, Copy, Debug, PartialEq, Eq, Structural)]
pub enum StreamPhase {
    /// The transfer buffers are being reset; streaming has not begun.
    Resetting,
    /// The driver's blocking event loop is running and delivering buffers.
    Streaming,
}

/// What the session does next.
#[derive(Clone, Copy, Debug)]
pub enum StreamAction {
    /// Enter the driver's blocking event loop.
    StartStreaming,
    /// The session is over, with this outcome.
    Finish(Result<(), Error>),
}

/// Whether `a` is the step of a session in `phase` whose native call
/// returned `status`: a successful reset starts streaming, a failed one ends
/// the session with its status, and the end of the event loop ends it with
/// the loop's status.
pub open spec fn stream_step_spec(phase: StreamPhase, status: i32, a: StreamAction) -> bool {
    match phase {
        StreamPhase::Resetting => if status == 0 {
            a == StreamAction::StartStreaming
        } else {
            a matches StreamAction::Finish(r) && status_result(status, r)
        },
        StreamPhase::Streaming => a matches StreamAction::Finish(r) && status_result(status, r),
    }
}

/// The session that a streaming read runs: it begins by resetting the
/// transfer buffers.
pub fn read_async_start() -> (r: StreamPhase)
    ensures
        r == StreamPhase::Resetting,
{
    StreamPhase::Resetting
}

/// Advances a streaming session by the status of the native call that its
/// phase made.
pub fn read_async_step(phase: StreamPhase, status: i32) -> (a: StreamAction)
    ensures
        stream_step_spec(phase, status, a),
{
    match phase {
        StreamPhase::Resetting => if status == 0 {
            StreamAction::StartStreaming
        } else {
            StreamAction::Finish(Err(Error::new(status)))
        },
        StreamPhase::Streaming => if status == 0 {
            StreamAction::Finish(Ok(()))
        } else {
            StreamAction::Finish(Err(Error::new(status)))
        },
    }
}

} // verus!
