//! A template invocation as the host engine hands it over, and the one
//! argument that a math function accepts.

use vstd::prelude::*;
use vstd::string::*;

verus! {

/// An argument of a template invocation.
#[derive(Debug, Clone, PartialEq, Eq)]
pub enum RawArgument {
    /// A variable name.
    Variable(String),
    /// A string literal.
    String(String),
    /// An identifier, such as a function name.
    Ident(String),
    /// A number literal.
    Integer(i32),
}

/// A template invocation: the name that was called and its arguments.
pub struct RawFunction {
    /// The name of the function.
    pub name: String,
    /// The positional arguments, in order.
    pub positional_args: Vec<RawArgument>,
    /// The named arguments, in order.
    pub named_args: Vec<(String, RawArgument)>,
}

/// Why an invocation is not a math function.
#[derive(Debug, Clone, PartialEq, Eq)]
pub enum ArgumentError {
    /// The argument is not a string.
    InvalidArgument,
    /// A condition on the shape of the invocation does not hold; the
    /// condition is spelled out.
    AssertionError(String),
}

/// The condition that a math invocation has exactly one positional argument.
pub const SINGLE_ARGUMENT: &'static str = "raw.positional_args.len() == 1";

impl RawArgument {
    /// The text of a string argument.
    pub fn as_string(&self) -> (text: Option<&str>)
        ensures
            match text {
                Some(text) => *self matches RawArgument::String(held) && text@ == held@,
                None => !(*self is String),
            },
    {
        match self {
            RawArgument::String(text) => Some(text.as_str()),
            _ => None,
        }
    }
}

/// Whether the invocation carries exactly one positional argument and that
/// argument is a string: the only shape that a math function accepts.
pub open spec fn is_math_invocation(raw: RawFunction) -> bool {
    raw.positional_args@.len() == 1 && raw.positional_args@[0] is String
}

/// The markup that a math invocation carries.
pub open spec fn markup_in(raw: RawFunction) -> Seq<char>
    recommends
        is_math_invocation(raw),
{
    raw.positional_args@[0]->String_0@
}

/// Takes the markup out of an invocation, character for character. An
/// invocation with no positional argument or with several fails the
/// argument-count assertion, whatever the arguments are; a single argument
/// that is not a string is an invalid argument. Named arguments are not
/// looked at.
pub fn math_argument(raw: &RawFunction) -> (outcome: Result<String, ArgumentError>)
    ensures
        is_math_invocation(*raw) ==> (outcome matches Ok(math) && math@ == markup_in(*raw)),
        raw.positional_args@.len() != 1 ==> (outcome matches Err(
            ArgumentError::AssertionError(condition),
        ) && condition@ == SINGLE_ARGUMENT@),
        raw.positional_args@.len() == 1 && !(raw.positional_args@[0] is String)
            ==> outcome matches Err(ArgumentError::InvalidArgument),
{
    if raw.positional_args.len() != 1 {
        return Err(ArgumentError::AssertionError(SINGLE_ARGUMENT.to_string()));
    }
    match raw.positional_args[0].as_string() {
        Some(text) => Ok(text.to_string()),
        None => Err(ArgumentError::InvalidArgument),
    }
}

} // verus!
