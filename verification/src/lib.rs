//! Template functions that render mathematical notation as embeddable vector
//! graphics: `math`, set apart as a centred block, and `mathi`, which flows
//! with the text around it.
//!
//! A function object is made from a template invocation at parse time and
//! holds the markup that it was given. At render time it hands the markup to
//! a conversion routine and adds the graphics that come back to the output
//! of the scope; display math first gives the root element of the graphics
//! the style of a centred block.

pub mod arguments;
pub mod display;
pub mod inline;
pub mod laws;
pub mod markup;
pub mod render;
pub mod scope;
pub mod style;

pub use display::{DisplayMathFunction, DisplayMathParser};
pub use inline::{InlineMathFunction, InlineMathParser};
