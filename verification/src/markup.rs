//! Graphics markup as a tree: parsing, the `style` attribute of the root
//! element, and serialisation.
//!
//! The tree itself is an `xmltree::Element`. Contracts speak of it through
//! [`Markup`], which lists what an element holds. The tree library is built
//! with sorted attributes, so that what is written for an element depends
//! on nothing but what the element holds.

use vstd::prelude::*;
use vstd::string::*;

use crate::style::{block_style, block_style_of};

verus! {

/// A node below an element.
pub enum Node {
    /// A child element.
    Element(Markup),
    /// A comment.
    Comment(Seq<char>),
    /// A character data section.
    CData(Seq<char>),
    /// Text.
    Text(Seq<char>),
    /// A processing instruction: its name and its data.
    ProcessingInstruction(Seq<char>, Option<Seq<char>>),
}

/// What an element of a graphics document holds.
pub struct Markup {
    /// The prefix of the element's name.
    pub prefix: Option<Seq<char>>,
    /// The namespace of the element's name.
    pub namespace: Option<Seq<char>>,
    /// The namespaces in force at the element, by prefix.
    pub namespaces: Option<Map<Seq<char>, Seq<char>>>,
    /// The local name.
    pub name: Seq<char>,
    /// The attributes, by local name.
    pub attributes: Map<Seq<char>, Seq<char>>,
    /// The nodes below the element, in document order.
    pub children: Seq<Node>,
}

/// `xmltree::Element`, an element with everything below it.
#[verifier::external_type_specification]
#[verifier::external_body]
pub struct ExElement(xmltree::Element);

/// `xmltree::ParseError`, the reason why bytes are no document.
#[verifier::external_type_specification]
#[verifier::external_body]
pub struct ExParseError(xmltree::ParseError);

/// `xmltree::Error`, the reason why an element could not be written.
#[verifier::external_type_specification]
#[verifier::external_body]
pub struct ExWriteError(xmltree::Error);

/// What an element holds: its public fields, field by field, with the
/// children taken the same way.
pub uninterp spec fn markup_of(element: xmltree::Element) -> Markup;

/// What `xmltree::Element::parse` makes of the bytes: the root element of
/// the document, or nothing where the bytes are no document.
pub uninterp spec fn parsed(bytes: Seq<u8>) -> Option<Markup>;

/// What `xmltree::Element::write` emits for an element: a document with the
/// element as its root, or nothing where the writer gives up.
pub uninterp spec fn written(markup: Markup) -> Option<Seq<u8>>;

/// `xmltree::Element::parse` on a byte slice. The result depends on the
/// bytes alone: it is the element that [`parsed`] names, and an error
/// exactly where [`parsed`] names none.
#[verifier::external_body]
pub(crate) fn parse_markup(bytes: &[u8]) -> (outcome: Result<xmltree::Element, xmltree::ParseError>)
    ensures
        match outcome {
            Ok(element) => parsed(bytes@) == Some(markup_of(element)),
            Err(_) => parsed(bytes@) is None,
        },
{
    xmltree::Element::parse(bytes)
}

/// Looks `style` up in the `attributes` map of the element and copies the
/// value out.
#[verifier::external_body]
pub(crate) fn style_attribute(element: &xmltree::Element) -> (value: Option<String>)
    ensures
        match value {
            Some(text) => markup_of(*element).attributes.contains_key("style"@) && markup_of(
                *element,
            ).attributes["style"@] == text@,
            None => !markup_of(*element).attributes.contains_key("style"@),
        },
{
    element.attributes.get("style").cloned()
}

/// Inserts `style` with the given value into the `attributes` map of the
/// element. A value that was there under that key is replaced; no other
/// entry and no other field of the element changes.
#[verifier::external_body]
pub(crate) fn set_style_attribute(element: &mut xmltree::Element, value: String)
    ensures
        markup_of(*final(element)) == (Markup {
            attributes: markup_of(*old(element)).attributes.insert("style"@, value@),
            ..markup_of(*old(element))
        }),
{
    element.attributes.insert("style".to_string(), value);
}

/// `xmltree::Element::write` into a fresh buffer. What comes out depends on
/// what the element holds alone: it is the document that [`written`] names,
/// and an error exactly where [`written`] names none.
#[verifier::external_body]
pub(crate) fn write_markup(element: &xmltree::Element) -> (outcome: Result<
    Vec<u8>,
    xmltree::Error,
>)
    ensures
        match outcome {
            Ok(bytes) => written(markup_of(*element)) == Some(bytes@),
            Err(_) => written(markup_of(*element)) is None,
        },
{
    let mut bytes = Vec::new();
    match element.write(&mut bytes) {
        Ok(_) => Ok(bytes),
        Err(error) => Err(error),
    }
}

/// Why display math could not be given its presentation.
#[derive(Debug, Clone, Copy, PartialEq, Eq, Structural)]
pub enum MarkupError {
    /// The graphics are not a well-formed document.
    Malformed,
    /// The restyled document could not be written out.
    Unwritable,
}

/// The `style` attribute of an element, if it has one.
pub open spec fn style_in(markup: Markup) -> Option<Seq<char>> {
    if markup.attributes.contains_key("style"@) {
        Some(markup.attributes["style"@])
    } else {
        None
    }
}

/// The element as a centred block: its `style` attribute is the block style
/// made from the one it had, and nothing else differs.
pub open spec fn centred(markup: Markup) -> Markup {
    Markup {
        attributes: markup.attributes.insert("style"@, block_style_of(style_in(markup))),
        ..markup
    }
}

/// The document that display math emits for the graphics in `bytes`: what is
/// written for the root element as a centred block.
pub open spec fn block_markup_of(bytes: Seq<u8>) -> Result<Seq<u8>, MarkupError> {
    match parsed(bytes) {
        None => Err(MarkupError::Malformed),
        Some(markup) => match written(centred(markup)) {
            None => Err(MarkupError::Unwritable),
            Some(document) => Ok(document),
        },
    }
}

/// The element that a parse gave, or the reason why there is none. What the
/// parser objected to is dropped.
pub fn parsed_element(outcome: Result<xmltree::Element, xmltree::ParseError>) -> (element: Result<
    xmltree::Element,
    MarkupError,
>)
    ensures
        match outcome {
            Ok(root) => element == Ok::<xmltree::Element, MarkupError>(root),
            Err(_) => element == Err::<xmltree::Element, MarkupError>(MarkupError::Malformed),
        },
{
    match outcome {
        Ok(root) => Ok(root),
        Err(_) => Err(MarkupError::Malformed),
    }
}

/// The document that a write gave, or the reason why there is none. What the
/// writer objected to is dropped.
pub fn written_document(outcome: Result<Vec<u8>, xmltree::Error>) -> (document: Result<
    Vec<u8>,
    MarkupError,
>)
    ensures
        match outcome {
            Ok(bytes) => document == Ok::<Vec<u8>, MarkupError>(bytes),
            Err(_) => document == Err::<Vec<u8>, MarkupError>(MarkupError::Unwritable),
        },
{
    match outcome {
        Ok(bytes) => Ok(bytes),
        Err(_) => Err(MarkupError::Unwritable),
    }
}

/// Makes the element a centred block. Where it has no `style` attribute it
/// gets one that holds the fixed declarations; where it has one, the fixed
/// declarations are put in front of its value. Nothing else about the
/// element changes.
pub fn centre(element: &mut xmltree::Element)
    ensures
        markup_of(*final(element)) == centred(markup_of(*old(element))),
{
    let existing = style_attribute(element);
    let style = block_style(existing);
    set_style_attribute(element, style);
}

/// Parses graphics, makes the root element a centred block and writes the
/// document out again.
pub fn block_markup(graphics: &str) -> (outcome: Result<Vec<u8>, MarkupError>)
    ensures
        match outcome {
            Ok(document) => block_markup_of(graphics.spec_bytes()) == Ok::<Seq<u8>, MarkupError>(
                document@,
            ),
            Err(error) => block_markup_of(graphics.spec_bytes()) == Err::<Seq<u8>, MarkupError>(
                error,
            ),
        },
{
    let mut element = match parsed_element(parse_markup(graphics.as_bytes())) {
        Ok(element) => element,
        Err(error) => return Err(error),
    };
    centre(&mut element);
    written_document(write_markup(&element))
}

} // verus!
