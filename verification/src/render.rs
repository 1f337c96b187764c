//! What both math functions do at render time once the graphics are known:
//! they add them to the output, or fail at the token that invoked them.

use vstd::prelude::*;

use crate::scope::{appended, frame_outputs, is_stack_error, output, token_location, Location};
use stuart_core::process::{ProcessError, Scope};

verus! {

/// Why a math function rendered nothing.
#[derive(Debug)]
pub enum Failure {
    /// No graphics could be had for the markup. Whether the conversion
    /// failed, or its result was no document, or the restyled document could
    /// not be written, is not told apart.
    Stack,
    /// The output refused the graphics; its own error is kept as it came.
    Sink(ProcessError),
}

/// A failure of a math function, with the place of the invocation.
#[derive(Debug)]
pub struct RenderError {
    /// Where the function was invoked.
    pub location: Location,
    /// What went wrong.
    pub failure: Failure,
}

/// What rendering does to a scope, and what it returns, for the graphics
/// that were had (`None` where there are none).
///
/// With graphics and a frame to take them, the bytes follow what the
/// innermost frame held and the call succeeds. Otherwise nothing is written
/// and the call fails at `location`: as a stack failure for want of
/// graphics, as a sink failure for want of a frame, which carries the
/// engine's stack error. The current token is the same afterwards.
pub open spec fn rendering(
    graphics: Option<Seq<u8>>,
    location: Location,
    before: Scope<'_>,
    after: Scope<'_>,
    outcome: Result<(), RenderError>,
) -> bool {
    &&& token_location(after) == token_location(before)
    &&& match graphics {
        Some(bytes) if frame_outputs(before).len() > 0 => {
            &&& outcome is Ok
            &&& frame_outputs(after) == appended(frame_outputs(before), bytes)
        },
        Some(_) => {
            &&& outcome matches Err(error)
            &&& error.location == location
            &&& error.failure matches Failure::Sink(refusal)
            &&& is_stack_error(refusal)
            &&& frame_outputs(after) == frame_outputs(before)
        },
        None => {
            &&& outcome matches Err(error)
            &&& error.location == location
            &&& error.failure is Stack
            &&& frame_outputs(after) == frame_outputs(before)
        },
    }
}

/// The failure for want of graphics, at `location`.
pub fn stack_failure(location: Location) -> (error: RenderError)
    ensures
        error.location == location,
        error.failure is Stack,
{
    RenderError { location, failure: Failure::Stack }
}

/// What a write to the output amounts to for the function at `location`:
/// success stays success, and a refusal becomes a sink failure that carries
/// the output's own error unchanged.
pub fn sink_outcome(location: Location, written: Result<(), ProcessError>) -> (outcome: Result<
    (),
    RenderError,
>)
    ensures
        match written {
            Ok(_) => outcome is Ok,
            Err(refusal) => outcome == Err::<(), RenderError>(
                RenderError { location, failure: Failure::Sink(refusal) },
            ),
        },
{
    match written {
        Ok(_) => Ok(()),
        Err(refusal) => Err(RenderError { location, failure: Failure::Sink(refusal) }),
    }
}

/// Adds the graphics to the output of the innermost frame, or fails at
/// `location` where there are no graphics or no frame.
pub fn emit(location: Location, graphics: Option<Vec<u8>>, scope: &mut Scope<'_>) -> (outcome:
    Result<(), RenderError>)
    ensures
        rendering(
            match graphics {
                Some(bytes) => Some(bytes@),
                None => None,
            },
            location,
            *old(scope),
            *final(scope),
            outcome,
        ),
{
    match graphics {
        Some(bytes) => {
            let written = output(scope, bytes.as_slice());
            sink_outcome(location, written)
        },
        None => Err(stack_failure(location)),
    }
}

} // verus!
