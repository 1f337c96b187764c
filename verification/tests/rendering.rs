use std::cell::Cell;
use std::path::PathBuf;

use stuart_core::parse::{LocatableToken, Token};
use stuart_core::process::iter::TokenIter;
use stuart_core::process::stack::StackFrame;
use stuart_core::process::{ProcessError, Scope};
use stuart_core::Stuart;

use stuart_math::arguments::{RawArgument, RawFunction};
use stuart_math::display::{DisplayMathFunction, DisplayMathParser};
use stuart_math::inline::{InlineMathFunction, InlineMathParser};
use stuart_math::render::{emit, sink_outcome, stack_failure, Failure};
use stuart_math::scope::{has_current_token, Location};

const DECLARATION: &str = "<?xml version=\"1.0\" encoding=\"UTF-8\"?>";

fn tokens() -> Vec<LocatableToken> {
    vec![
        LocatableToken {
            inner: Token::Raw("<p>".to_string()),
            path: PathBuf::from("content/index.html"),
            line: 3,
            column: 1,
        },
        LocatableToken {
            inner: Token::Raw("{{ math }}".to_string()),
            path: PathBuf::from("content/index.html"),
            line: 7,
            column: 12,
        },
    ]
}

fn frames() -> Vec<StackFrame> {
    let mut base = StackFrame::new("base");
    base.output.extend_from_slice(b"<html>");
    let mut inner = StackFrame::new("for");
    inner.output.extend_from_slice(b"<p>");
    vec![base, inner]
}

fn display(math: &str) -> DisplayMathFunction {
    let raw = RawFunction {
        name: "math".to_string(),
        positional_args: vec![RawArgument::String(math.to_string())],
        named_args: Vec::new(),
    };
    DisplayMathParser.parse(raw).unwrap()
}

fn inline(math: &str) -> InlineMathFunction {
    let raw = RawFunction {
        name: "mathi".to_string(),
        positional_args: vec![RawArgument::String(math.to_string())],
        named_args: Vec::new(),
    };
    InlineMathParser.parse(raw).unwrap()
}

fn here() -> Location {
    Location { path: PathBuf::from("a.html"), line: 1, column: 2 }
}

#[test]
fn display_math_emits_a_centred_block() {
    let tokens = tokens();
    let mut iter = TokenIter::new(&tokens);
    iter.next();
    iter.next();
    let mut stack = frames();
    let stuart = Stuart::new("site");
    let mut sections = Vec::new();
    let mut scope = Scope { tokens: &mut iter, stack: &mut stack, processor: &stuart, sections: &mut sections };

    let outcome = display("x^2").execute(|_: String| Ok::<String, ()>("<svg>...</svg>".to_string()), &mut scope);

    assert!(outcome.is_ok());
    let expected = format!("<p>{}<svg style=\"display:block;margin:auto;\">...</svg>", DECLARATION);
    assert_eq!(scope.stack[1].output, expected.as_bytes().to_vec());
    assert_eq!(scope.stack[0].output, b"<html>".to_vec());
    assert_eq!(scope.stack.len(), 2);
}

#[test]
fn inline_math_emits_the_graphics_unchanged() {
    let tokens = tokens();
    let mut iter = TokenIter::new(&tokens);
    iter.next();
    iter.next();
    let mut stack = frames();
    let stuart = Stuart::new("site");
    let mut sections = Vec::new();
    let mut scope = Scope { tokens: &mut iter, stack: &mut stack, processor: &stuart, sections: &mut sections };

    let outcome = inline("x^2").execute(|_: String| Ok::<String, ()>("<svg>...</svg>".to_string()), &mut scope);

    assert!(outcome.is_ok());
    assert_eq!(scope.stack[1].output, b"<p><svg>...</svg>".to_vec());
    assert_eq!(scope.stack[0].output, b"<html>".to_vec());
}

#[test]
fn inline_math_does_not_parse_what_it_emits() {
    let tokens = tokens();
    let mut iter = TokenIter::new(&tokens);
    iter.next();
    let mut stack = vec![StackFrame::new("base")];
    let stuart = Stuart::new("site");
    let mut sections = Vec::new();
    let mut scope = Scope { tokens: &mut iter, stack: &mut stack, processor: &stuart, sections: &mut sections };

    let graphics = " <svg b=\"2\" a=\"1\"><g></svg> é ";
    let outcome = inline("x").emit_converted(Ok::<String, ()>(graphics.to_string()), &mut scope);

    assert!(outcome.is_ok());
    assert_eq!(scope.stack[0].output, graphics.as_bytes().to_vec());
}

#[test]
fn the_conversion_gets_the_captured_markup() {
    let tokens = tokens();
    let mut iter = TokenIter::new(&tokens);
    iter.next();
    let mut stack = vec![StackFrame::new("base")];
    let stuart = Stuart::new("site");
    let mut sections = Vec::new();
    let mut scope = Scope { tokens: &mut iter, stack: &mut stack, processor: &stuart, sections: &mut sections };

    let echo = |math: String| Ok::<String, ()>(format!("<svg>{}</svg>", math));
    inline(" a+b ").execute(echo, &mut scope).unwrap();
    display(" c+d ").execute(echo, &mut scope).unwrap();

    let expected = format!(
        "<svg> a+b </svg>{}<svg style=\"display:block;margin:auto;\"> c+d </svg>",
        DECLARATION
    );
    assert_eq!(scope.stack[0].output, expected.as_bytes().to_vec());
}

#[test]
fn empty_markup_goes_to_the_conversion() {
    let tokens = tokens();
    let mut iter = TokenIter::new(&tokens);
    iter.next();
    let mut stack = vec![StackFrame::new("base")];
    let stuart = Stuart::new("site");
    let mut sections = Vec::new();
    let mut scope = Scope { tokens: &mut iter, stack: &mut stack, processor: &stuart, sections: &mut sections };

    let seen = Cell::new(None);
    let outcome = display("").execute(
        |math: String| {
            seen.set(Some(math.len()));
            Ok::<String, ()>("<svg/>".to_string())
        },
        &mut scope,
    );

    assert!(outcome.is_ok());
    assert_eq!(seen.get(), Some(0));
}

#[test]
fn the_conversion_runs_once_for_each_rendering() {
    let tokens = tokens();
    let mut iter = TokenIter::new(&tokens);
    iter.next();
    let mut stack = vec![StackFrame::new("base")];
    let stuart = Stuart::new("site");
    let mut sections = Vec::new();
    let mut scope = Scope { tokens: &mut iter, stack: &mut stack, processor: &stuart, sections: &mut sections };

    let calls = Cell::new(0);
    let function = inline("x");
    let convert = |_: String| {
        calls.set(calls.get() + 1);
        Ok::<String, ()>("<svg/>".to_string())
    };
    function.execute(&convert, &mut scope).unwrap();
    function.execute(&convert, &mut scope).unwrap();

    assert_eq!(calls.get(), 2);
    assert_eq!(scope.stack[0].output, b"<svg/><svg/>".to_vec());
}

#[test]
fn no_conversion_runs_where_parsing_fails() {
    let calls = Cell::new(0);
    let convert = |_: String| {
        calls.set(calls.get() + 1);
        Ok::<String, ()>("<svg>...</svg>".to_string())
    };
    let raw = RawFunction { name: "math".to_string(), positional_args: Vec::new(), named_args: Vec::new() };

    let parsed = DisplayMathParser.parse(raw);

    assert!(parsed.is_err());
    assert_eq!(calls.get(), 0);
    assert_eq!(convert("x".to_string()), Ok("<svg>...</svg>".to_string()));
    assert_eq!(calls.get(), 1);
}

#[test]
fn a_failed_conversion_is_a_stack_failure_for_display_math() {
    let tokens = tokens();
    let mut iter = TokenIter::new(&tokens);
    iter.next();
    iter.next();
    let mut stack = frames();
    let stuart = Stuart::new("site");
    let mut sections = Vec::new();
    let mut scope = Scope { tokens: &mut iter, stack: &mut stack, processor: &stuart, sections: &mut sections };

    let outcome = display("\\frac{").execute(|_: String| Err::<String, String>("Missing close brace".to_string()), &mut scope);

    let error = outcome.unwrap_err();
    assert!(matches!(error.failure, Failure::Stack));
    assert_eq!(error.location.path, PathBuf::from("content/index.html"));
    assert_eq!(error.location.line, 7);
    assert_eq!(error.location.column, 12);
    assert_eq!(scope.stack[0].output, b"<html>".to_vec());
    assert_eq!(scope.stack[1].output, b"<p>".to_vec());
}

#[test]
fn a_failed_conversion_is_a_stack_failure_for_inline_math() {
    let tokens = tokens();
    let mut iter = TokenIter::new(&tokens);
    iter.next();
    let mut stack = frames();
    let stuart = Stuart::new("site");
    let mut sections = Vec::new();
    let mut scope = Scope { tokens: &mut iter, stack: &mut stack, processor: &stuart, sections: &mut sections };

    let outcome = inline("\\frac{").execute(|_: String| Err::<String, u8>(3), &mut scope);

    let error = outcome.unwrap_err();
    assert!(matches!(error.failure, Failure::Stack));
    assert_eq!(error.location.path, PathBuf::from("content/index.html"));
    assert_eq!(error.location.line, 3);
    assert_eq!(error.location.column, 1);
    assert_eq!(scope.stack[0].output, b"<html>".to_vec());
    assert_eq!(scope.stack[1].output, b"<p>".to_vec());
}

#[test]
fn graphics_that_are_no_document_are_a_stack_failure() {
    let tokens = tokens();
    let mut iter = TokenIter::new(&tokens);
    iter.next();
    iter.next();
    let mut stack = frames();
    let stuart = Stuart::new("site");
    let mut sections = Vec::new();
    let mut scope = Scope { tokens: &mut iter, stack: &mut stack, processor: &stuart, sections: &mut sections };

    let outcome = display("x").emit_converted(Ok::<String, ()>("<svg><g></svg>".to_string()), &mut scope);

    let error = outcome.unwrap_err();
    assert!(matches!(error.failure, Failure::Stack));
    assert_eq!(error.location.line, 7);
    assert_eq!(error.location.column, 12);
    assert_eq!(scope.stack[1].output, b"<p>".to_vec());
}

#[test]
fn an_output_without_a_frame_is_a_sink_failure() {
    let tokens = tokens();
    let mut iter = TokenIter::new(&tokens);
    iter.next();
    iter.next();
    let mut stack: Vec<StackFrame> = Vec::new();
    let stuart = Stuart::new("site");
    let mut sections = Vec::new();
    let mut scope = Scope { tokens: &mut iter, stack: &mut stack, processor: &stuart, sections: &mut sections };

    let inline_error = inline("x")
        .execute(|_: String| Ok::<String, ()>("<svg/>".to_string()), &mut scope)
        .unwrap_err();
    assert!(matches!(inline_error.failure, Failure::Sink(ProcessError::StackError)));
    assert_eq!(inline_error.location.line, 7);
    assert_eq!(inline_error.location.column, 12);

    let display_error = display("x")
        .execute(|_: String| Ok::<String, ()>("<svg/>".to_string()), &mut scope)
        .unwrap_err();
    assert!(matches!(display_error.failure, Failure::Sink(ProcessError::StackError)));
    assert_eq!(display_error.location.path, PathBuf::from("content/index.html"));
    assert!(scope.stack.is_empty());
}

#[test]
fn a_failed_conversion_without_a_frame_is_still_a_stack_failure() {
    let tokens = tokens();
    let mut iter = TokenIter::new(&tokens);
    iter.next();
    let mut stack: Vec<StackFrame> = Vec::new();
    let stuart = Stuart::new("site");
    let mut sections = Vec::new();
    let mut scope = Scope { tokens: &mut iter, stack: &mut stack, processor: &stuart, sections: &mut sections };

    let error = inline("x").emit_converted(Err::<String, ()>(()), &mut scope).unwrap_err();
    assert!(matches!(error.failure, Failure::Stack));
}

#[test]
fn the_current_token_is_the_one_last_taken() {
    let tokens = tokens();
    let stuart = Stuart::new("site");

    let mut iter = TokenIter::new(&tokens);
    let mut stack = frames();
    let mut sections = Vec::new();
    let scope = Scope { tokens: &mut iter, stack: &mut stack, processor: &stuart, sections: &mut sections };
    assert!(!has_current_token(&scope));

    let mut iter = TokenIter::new(&tokens);
    iter.next();
    let mut stack = frames();
    let mut sections = Vec::new();
    let scope = Scope { tokens: &mut iter, stack: &mut stack, processor: &stuart, sections: &mut sections };
    assert!(has_current_token(&scope));
}

#[test]
fn rendering_leaves_the_tokens_where_they_were() {
    let tokens = tokens();
    let mut iter = TokenIter::new(&tokens);
    iter.next();
    let mut stack = frames();
    let stuart = Stuart::new("site");
    let mut sections = Vec::new();
    let mut scope = Scope { tokens: &mut iter, stack: &mut stack, processor: &stuart, sections: &mut sections };

    inline("x").execute(|_: String| Ok::<String, ()>("<svg/>".to_string()), &mut scope).unwrap();

    let current = scope.tokens.current().unwrap();
    assert_eq!((current.line, current.column), (3, 1));
    let next = scope.tokens.next().unwrap();
    assert_eq!((next.line, next.column), (7, 12));
}

#[test]
fn emit_adds_to_the_innermost_frame() {
    let tokens = tokens();
    let mut iter = TokenIter::new(&tokens);
    let mut stack = frames();
    let stuart = Stuart::new("site");
    let mut sections = Vec::new();
    let mut scope = Scope { tokens: &mut iter, stack: &mut stack, processor: &stuart, sections: &mut sections };

    assert!(emit(here(), Some(vec![1, 2, 3]), &mut scope).is_ok());
    assert!(emit(here(), Some(Vec::new()), &mut scope).is_ok());
    assert!(emit(here(), Some(vec![4]), &mut scope).is_ok());

    assert_eq!(scope.stack[1].output, vec![60, 112, 62, 1, 2, 3, 4]);
    assert_eq!(scope.stack[0].output, b"<html>".to_vec());
}

#[test]
fn emit_without_graphics_fails_at_the_given_place() {
    let tokens = tokens();
    let mut iter = TokenIter::new(&tokens);
    let mut stack = frames();
    let stuart = Stuart::new("site");
    let mut sections = Vec::new();
    let mut scope = Scope { tokens: &mut iter, stack: &mut stack, processor: &stuart, sections: &mut sections };

    let error = emit(here(), None, &mut scope).unwrap_err();

    assert!(matches!(error.failure, Failure::Stack));
    assert_eq!(error.location.path, PathBuf::from("a.html"));
    assert_eq!((error.location.line, error.location.column), (1, 2));
    assert_eq!(scope.stack[1].output, b"<p>".to_vec());
}

#[test]
fn a_refusal_of_the_output_is_kept_as_it_came() {
    let error = sink_outcome(here(), Err(ProcessError::NotFound("frame".to_string()))).unwrap_err();
    match error.failure {
        Failure::Sink(ProcessError::NotFound(what)) => assert_eq!(what, "frame"),
        other => panic!("unexpected failure {:?}", other),
    }
    assert_eq!(error.location.path, PathBuf::from("a.html"));
    assert_eq!((error.location.line, error.location.column), (1, 2));
    assert!(sink_outcome(here(), Ok(())).is_ok());
}

#[test]
fn a_stack_failure_holds_its_place() {
    let error = stack_failure(Location { path: PathBuf::from("b/c.md"), line: 40, column: 9 });
    assert!(matches!(error.failure, Failure::Stack));
    assert_eq!(error.location.path, PathBuf::from("b/c.md"));
    assert_eq!((error.location.line, error.location.column), (40, 9));
}
