//! Display math: graphics set apart as a block of their own, centred on the
//! line.

use vstd::prelude::*;
use vstd::string::*;
use vstd::utf8::encode_utf8;

use crate::arguments::{
    is_math_invocation, markup_in, math_argument, ArgumentError, RawFunction, SINGLE_ARGUMENT,
};
use crate::markup::{block_markup, block_markup_of};
use crate::render::{emit, rendering, RenderError};
use crate::scope::{current_location, token_location};
use stuart_core::process::Scope;

verus! {

/// Parses invocations of `math`.
pub struct DisplayMathParser;

/// An invocation of `math`, holding the markup that it was given.
#[derive(Debug, Clone)]
pub struct DisplayMathFunction {
    math: String,
}

impl View for DisplayMathFunction {
    type V = Seq<char>;

    /// The markup, as captured.
    closed spec fn view(&self) -> Seq<char> {
        self.math@
    }
}

/// The bytes that display math emits for the outcome of a conversion: the
/// graphics as a document whose root element is a centred block, or nothing
/// where the conversion failed, its result is no document, or the restyled
/// document cannot be written.
pub open spec fn display_graphics<E>(converted: Result<String, E>) -> Option<Seq<u8>> {
    match converted {
        Ok(graphics) => match block_markup_of(encode_utf8(graphics@)) {
            Ok(document) => Some(document),
            Err(_) => None,
        },
        Err(_) => None,
    }
}

impl DisplayMathParser {
    /// The name by which templates invoke display math.
    pub fn name(&self) -> (name: &'static str)
        ensures
            name@ == "math"@,
    {
        "math"
    }

    /// Makes the function object of an invocation. The invocation must carry
    /// exactly one positional argument, a string; that string becomes the
    /// markup of the function, unchanged.
    pub fn parse(&self, raw: RawFunction) -> (outcome: Result<DisplayMathFunction, ArgumentError>)
        ensures
            is_math_invocation(raw) ==> (outcome matches Ok(function) && function@ == markup_in(raw)),
            raw.positional_args@.len() != 1 ==> (outcome matches Err(
                ArgumentError::AssertionError(condition),
            ) && condition@ == SINGLE_ARGUMENT@),
            raw.positional_args@.len() == 1 && !(raw.positional_args@[0] is String)
                ==> outcome matches Err(ArgumentError::InvalidArgument),
    {
        match math_argument(&raw) {
            Ok(math) => Ok(DisplayMathFunction { math }),
            Err(error) => Err(error),
        }
    }
}

impl DisplayMathFunction {
    /// The name of the function.
    pub fn name(&self) -> (name: &'static str)
        ensures
            name@ == "math"@,
    {
        "math"
    }

    /// The markup that was captured at parse time.
    pub fn math(&self) -> (math: &str)
        ensures
            math@ == self@,
    {
        self.math.as_str()
    }

    /// Emits the outcome of converting the markup. Graphics are parsed, their
    /// root element is made a centred block, and the document written from
    /// that goes to the output. A failed conversion, graphics that are no
    /// document and a document that cannot be written all become the same
    /// stack failure at the current token, and nothing is written.
    pub fn emit_converted<E>(&self, converted: Result<String, E>, scope: &mut Scope<'_>) -> (outcome:
        Result<(), RenderError>)
        requires
            token_location(*old(scope)) is Some,
        ensures
            rendering(
                display_graphics(converted),
                token_location(*old(scope))->Some_0,
                *old(scope),
                *final(scope),
                outcome,
            ),
    {
        let location = current_location(scope).unwrap();
        let graphics = match converted {
            Ok(graphics) => match block_markup(graphics.as_str()) {
                Ok(document) => Some(document),
                Err(_) => None,
            },
            Err(_) => None,
        };
        emit(location, graphics, scope)
    }

    /// Renders the function: converts the captured markup with `convert`,
    /// the display entry point of the conversion routine, and emits the
    /// outcome.
    pub fn execute<E, F: Fn(String) -> Result<String, E>>(
        &self,
        convert: F,
        scope: &mut Scope<'_>,
    ) -> (outcome: Result<(), RenderError>)
        requires
            token_location(*old(scope)) is Some,
            forall|math: String| math@ == self@ ==> #[trigger] call_requires(convert, (math,)),
        ensures
            exists|math: String, converted: Result<String, E>|
                math@ == self@ && #[trigger] call_ensures(convert, (math,), converted) && rendering(
                    display_graphics(converted),
                    token_location(*old(scope))->Some_0,
                    *old(scope),
                    *final(scope),
                    outcome,
                ),
    {
        let math = self.math.clone();
        let converted = convert(math);
        self.emit_converted(converted, scope)
    }
}

} // verus!
