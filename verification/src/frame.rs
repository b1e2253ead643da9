//! What a frame does once the surface has answered the request for its next
//! image.

use vstd::prelude::*;

verus! {

/// Why a surface gave no image.
#[derive(Clone, Copy, Debug, PartialEq, Eq, Structural)]
pub enum SurfaceError {
    /// The image did not come in time.
    Timeout,
    /// The surface has changed under the configuration.
    Outdated,
    /// The surface is gone and has to be configured again.
    Lost,
    /// No memory is left.
    OutOfMemory,
    /// Anything else.
    Other,
}

/// How the acquisition of the surface image ended.
#[derive(Clone, Copy, Debug, PartialEq, Eq, Structural)]
pub enum Acquisition {
    Acquired,
    Failed { error: SurfaceError },
}

/// What the frame does next.
#[derive(Clone, Copy, Debug, PartialEq, Eq, Structural)]
pub enum FrameStep {
    /// Paint, copy, submit and present.
    Render,
    /// Give the frame up; the animation goes on with the next redraw.
    Skip,
    /// Configure the surface again and ask for the image once more.
    Retry,
    /// Give up: the error goes to the caller.
    Fail { error: SurfaceError },
}

/// The step that follows an acquisition. An image is rendered to. A timeout
/// skips the frame. A surface that is outdated or lost is configured again
/// and asked once more, and fails the frame if that was tried already in
/// this frame. Every other error fails the frame.
pub open spec fn spec_frame_step(outcome: Acquisition, retried: bool) -> FrameStep {
    match outcome {
        Acquisition::Acquired => FrameStep::Render,
        Acquisition::Failed { error } => match error {
            SurfaceError::Timeout => FrameStep::Skip,
            SurfaceError::Outdated | SurfaceError::Lost => if retried {
                FrameStep::Fail { error }
            } else {
                FrameStep::Retry
            },
            SurfaceError::OutOfMemory | SurfaceError::Other => FrameStep::Fail { error },
        },
    }
}

pub fn frame_step(outcome: Acquisition, retried: bool) -> (step: FrameStep)
    ensures
        step == spec_frame_step(outcome, retried),
{
    match outcome {
        Acquisition::Acquired => FrameStep::Render,
        Acquisition::Failed { error } => match error {
            SurfaceError::Timeout => FrameStep::Skip,
            SurfaceError::Outdated | SurfaceError::Lost => if retried {
                FrameStep::Fail { error }
            } else {
                FrameStep::Retry
            },
            SurfaceError::OutOfMemory | SurfaceError::Other => FrameStep::Fail { error },
        },
    }
}

/// A frame asks again at most once: whatever the second acquisition brings,
/// the step after it is no retry, and every error but a timeout then fails
/// the frame. A frame fails only on an error, and with that error.
pub proof fn lemma_one_retry(first: Acquisition, second: Acquisition)
    ensures
        spec_frame_step(second, true) !is Retry,
        spec_frame_step(first, false) is Retry <==> first == (Acquisition::Failed {
            error: SurfaceError::Outdated,
        }) || first == (Acquisition::Failed { error: SurfaceError::Lost }),
        forall|error: SurfaceError|
            spec_frame_step(first, false) == (FrameStep::Fail { error }) ==> first == (
            Acquisition::Failed { error }),
        forall|error: SurfaceError|
            spec_frame_step(second, true) == (FrameStep::Fail { error }) ==> second == (
            Acquisition::Failed { error }),
        second is Failed && second != (Acquisition::Failed { error: SurfaceError::Timeout })
            ==> spec_frame_step(second, true) is Fail,
        spec_frame_step(first, false) is Skip <==> first == (Acquisition::Failed {
            error: SurfaceError::Timeout,
        }),
{
}

} // verus!
