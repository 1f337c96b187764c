//! The presentation rule of display math: the root element of the graphics is
//! made a centred block by declarations put in front of its `style` attribute.

use vstd::prelude::*;
use vstd::string::*;

verus! {

/// The declarations that make an element a horizontally centred block.
pub const SVG_STYLE: &'static str = "display:block;margin:auto;";

/// The style value of a centred block, given the value that the element had
/// before, if any: the fixed declarations come first and whatever was there
/// follows them untouched.
pub open spec fn block_style_of(existing: Option<Seq<char>>) -> Seq<char> {
    match existing {
        Some(declarations) => SVG_STYLE@ + declarations,
        None => SVG_STYLE@,
    }
}

/// The view of an optional string.
pub open spec fn text_of(value: Option<String>) -> Option<Seq<char>> {
    match value {
        Some(text) => Some(text@),
        None => None,
    }
}

/// Computes the `style` value of display math from the value that the
/// conversion left on the root element. Nothing is parsed or merged: a
/// declaration of `display` or `margin` that was already there stays, after
/// the fixed ones.
pub fn block_style(existing: Option<String>) -> (style: String)
    ensures
        style@ == block_style_of(text_of(existing)),
{
    let prefix = SVG_STYLE.to_string();
    match existing {
        Some(declarations) => prefix.concat(declarations.as_str()),
        None => prefix,
    }
}

} // verus!
