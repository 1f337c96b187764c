//! The render scope of the host engine: where a function stands in the
//! template, and the output that it adds to.

use vstd::prelude::*;

use std::path::PathBuf;
use stuart_core::process::{ProcessError, Scope};

verus! {

/// `stuart_core::process::Scope`, the state that the engine hands to a
/// function while it renders a template.
#[verifier::external_type_specification]
#[verifier::external_body]
pub struct ExScope<'a>(Scope<'a>);

/// `stuart_core::process::ProcessError`, the engine's render-time error.
#[verifier::external_type_specification]
#[verifier::external_body]
pub struct ExProcessError(ProcessError);

/// `std::path::PathBuf`, carried from a token to an error and never looked
/// into.
#[verifier::external_type_specification]
#[verifier::external_body]
pub struct ExPathBuf(PathBuf);

/// A place in a template.
#[derive(Debug)]
pub struct Location {
    /// The file that the template was read from.
    pub path: PathBuf,
    /// The line in that file.
    pub line: u32,
    /// The column in that line.
    pub column: u32,
}

/// The `output` of each frame on the scope's `stack`, the innermost frame
/// last.
pub uninterp spec fn frame_outputs(scope: Scope<'_>) -> Seq<Seq<u8>>;

/// The path, line and column of the token that `TokenIter::current` gives
/// for the scope's `tokens`: the token that is being processed, if any.
pub uninterp spec fn token_location(scope: Scope<'_>) -> Option<Location>;

/// Whether the error is `ProcessError::StackError`, the one that the engine
/// gives where its stack does not hold what an operation needs.
pub uninterp spec fn is_stack_error(error: ProcessError) -> bool;

/// The outputs of a stack after `bytes` were added to its innermost frame.
pub open spec fn appended(outputs: Seq<Seq<u8>>, bytes: Seq<u8>) -> Seq<Seq<u8>>
    recommends
        outputs.len() > 0,
{
    outputs.update(outputs.len() - 1, outputs.last() + bytes)
}

/// `Scope::output`. With no frame on the stack it fails with
/// `ProcessError::StackError` and changes nothing. Otherwise it succeeds, the
/// bytes follow what the innermost frame held, and the other frames keep
/// their output. The current token stays the same either way.
#[verifier::external_body]
pub(crate) fn output(scope: &mut Scope<'_>, bytes: &[u8]) -> (outcome: Result<(), ProcessError>)
    ensures
        token_location(*final(scope)) == token_location(*old(scope)),
        match outcome {
            Ok(_) => frame_outputs(*old(scope)).len() > 0
                && frame_outputs(*final(scope)) == appended(frame_outputs(*old(scope)), bytes@),
            Err(error) => is_stack_error(error) && frame_outputs(*old(scope)).len() == 0
                && frame_outputs(*final(scope)) == frame_outputs(*old(scope)),
        },
{
    scope.output(bytes)
}

/// `TokenIter::current` on the scope's tokens, with the token's path, line
/// and column copied out.
#[verifier::external_body]
pub(crate) fn current_location(scope: &Scope<'_>) -> (location: Option<Location>)
    ensures
        location == token_location(*scope),
{
    match scope.tokens.current() {
        Some(token) => Some(
            Location { path: token.path.clone(), line: token.line, column: token.column },
        ),
        None => None,
    }
}

/// Whether the scope is processing a token, so that a failure can be
/// attributed to one.
pub fn has_current_token(scope: &Scope<'_>) -> (present: bool)
    ensures
        present == token_location(*scope) is Some,
{
    current_location(scope).is_some()
}

} // verus!
