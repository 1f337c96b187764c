//! Inline math: graphics that flow with the surrounding text, emitted as the
//! conversion gave them.

use vstd::prelude::*;
use vstd::string::*;
use vstd::utf8::encode_utf8;

use crate::arguments::{
    is_math_invocation, markup_in, math_argument, ArgumentError, RawFunction, SINGLE_ARGUMENT,
};
use crate::render::{emit, rendering, RenderError};
use crate::scope::{current_location, token_location};
use stuart_core::process::Scope;

verus! {

/// Parses invocations of `mathi`.
pub struct InlineMathParser;

/// An invocation of `mathi`, holding the markup that it was given.
#[derive(Debug, Clone)]
pub struct InlineMathFunction {
    math: String,
}

impl View for InlineMathFunction {
    type V = Seq<char>;

    /// The markup, as captured.
    closed spec fn view(&self) -> Seq<char> {
        self.math@
    }
}

/// The bytes that inline math emits for the outcome of a conversion: the
/// graphics as they are, or nothing where the conversion failed.
pub open spec fn inline_graphics<E>(converted: Result<String, E>) -> Option<Seq<u8>> {
    match converted {
        Ok(graphics) => Some(encode_utf8(graphics@)),
        Err(_) => None,
    }
}

impl InlineMathParser {
    /// The name by which templates invoke inline math.
    pub fn name(&self) -> (name: &'static str)
        ensures
            name@ == "mathi"@,
    {
        "mathi"
    }

    /// Makes the function object of an invocation. The invocation must carry
    /// exactly one positional argument, a string; that string becomes the
    /// markup of the function, unchanged.
    pub fn parse(&self, raw: RawFunction) -> (outcome: Result<InlineMathFunction, ArgumentError>)
        ensures
            is_math_invocation(raw) ==> (outcome matches Ok(function) && function@ == markup_in(raw)),
            raw.positional_args@.len() != 1 ==> (outcome matches Err(
                ArgumentError::AssertionError(condition),
            ) && condition@ == SINGLE_ARGUMENT@),
            raw.positional_args@.len() == 1 && !(raw.positional_args@[0] is String)
                ==> outcome matches Err(ArgumentError::InvalidArgument),
    {
        match math_argument(&raw) {
            Ok(math) => Ok(InlineMathFunction { math }),
            Err(error) => Err(error),
        }
    }
}

impl InlineMathFunction {
    /// The name of the function.
    pub fn name(&self) -> (name: &'static str)
        ensures
            name@ == "mathi"@,
    {
        "mathi"
    }

    /// The markup that was captured at parse time.
    pub fn math(&self) -> (math: &str)
        ensures
            math@ == self@,
    {
        self.math.as_str()
    }

    /// Emits the outcome of converting the markup. Graphics go to the output
    /// byte for byte; a failed conversion becomes a stack failure at the
    /// current token and writes nothing.
    pub fn emit_converted<E>(&self, converted: Result<String, E>, scope: &mut Scope<'_>) -> (outcome:
        Result<(), RenderError>)
        requires
            token_location(*old(scope)) is Some,
        ensures
            rendering(
                inline_graphics(converted),
                token_location(*old(scope))->Some_0,
                *old(scope),
                *final(scope),
                outcome,
            ),
    {
        let location = current_location(scope).unwrap();
        let graphics = match converted {
            Ok(graphics) => Some(graphics.as_str().as_bytes_vec()),
            Err(_) => None,
        };
        emit(location, graphics, scope)
    }

    /// Renders the function: converts the captured markup with `convert`,
    /// the inline entry point of the conversion routine, and emits the
    /// outcome.
    pub fn execute<E, F: Fn(String) -> Result<String, E>>(
        &self,
        convert: F,
        scope: &mut Scope<'_>,
    ) -> (outcome: Result<(), RenderError>)
        requires
            token_location(*old(scope)) is Some,
            forall|math: String| math@ == self@ ==> #[trigger] call_requires(convert, (math,)),
        ensures
            exists|math: String, converted: Result<String, E>|
                math@ == self@ && #[trigger] call_ensures(convert, (math,), converted) && rendering(
                    inline_graphics(converted),
                    token_location(*old(scope))->Some_0,
                    *old(scope),
                    *final(scope),
                    outcome,
                ),
    {
        let math = self.math.clone();
        let converted = convert(math);
        self.emit_converted(converted, scope)
    }
}

} // verus!
