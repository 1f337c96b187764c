//! What holds of the math functions whatever the markup and the scope.

use vstd::prelude::*;
use vstd::utf8::encode_utf8;

use crate::display::display_graphics;
use crate::inline::inline_graphics;
use crate::markup::{block_markup_of, centred, parsed, style_in, written, Markup};
use crate::render::{rendering, RenderError};
use crate::scope::{appended, frame_outputs, is_stack_error, token_location, Location};
use crate::style::SVG_STYLE;
use stuart_core::process::Scope;

verus! {

/// A root element without a `style` attribute leaves display math with a
/// `style` attribute that is exactly the fixed declarations.
pub proof fn fresh_style_is_the_fixed_declarations(markup: Markup)
    requires
        style_in(markup) is None,
    ensures
        style_in(centred(markup)) == Some(SVG_STYLE@),
{
}

/// A root element whose `style` attribute is `declarations` leaves display
/// math with the fixed declarations followed by `declarations`. Every other
/// attribute is there as before, none is added, and the name, the
/// namespaces and the children of the element are the same.
pub proof fn existing_style_follows_the_fixed_declarations(
    markup: Markup,
    declarations: Seq<char>,
)
    requires
        style_in(markup) == Some(declarations),
    ensures
        style_in(centred(markup)) == Some(SVG_STYLE@ + declarations),
        centred(markup).attributes.dom() == markup.attributes.dom(),
        forall|key: Seq<char>|
            key != "style"@ && markup.attributes.contains_key(key) ==> #[trigger] centred(
                markup,
            ).attributes[key] == markup.attributes[key],
        centred(markup).prefix == markup.prefix,
        centred(markup).namespace == markup.namespace,
        centred(markup).namespaces == markup.namespaces,
        centred(markup).name == markup.name,
        centred(markup).children == markup.children,
{
    assert(centred(markup).attributes.dom() =~= markup.attributes.dom());
}

/// Whatever the root element held, display math alters nothing but its
/// `style` attribute.
pub proof fn only_the_style_differs(markup: Markup)
    ensures
        centred(markup).attributes.remove("style"@) == markup.attributes.remove("style"@),
        centred(markup) == (Markup { attributes: centred(markup).attributes, ..markup }),
{
    assert(centred(markup).attributes.remove("style"@) =~= markup.attributes.remove("style"@));
}

/// The document of display math is what is written for the root element of
/// the graphics as a centred block.
pub proof fn display_document_is_the_centred_root(graphics: Seq<u8>, markup: Markup)
    requires
        parsed(graphics) == Some(markup),
    ensures
        block_markup_of(graphics) is Ok ==> written(centred(markup)) == Some(
            block_markup_of(graphics)->Ok_0,
        ),
        block_markup_of(graphics) is Err ==> written(centred(markup)) is None,
{
}

/// Inline math that succeeds has added to the innermost frame exactly the
/// bytes of the graphics that the conversion returned.
pub proof fn inline_output_is_the_conversion_result<E>(
    graphics: String,
    location: Location,
    before: Scope<'_>,
    after: Scope<'_>,
    outcome: Result<(), RenderError>,
)
    requires
        rendering(inline_graphics(Ok::<String, E>(graphics)), location, before, after, outcome),
        outcome is Ok,
    ensures
        frame_outputs(after) == appended(frame_outputs(before), encode_utf8(graphics@)),
{
}

/// Where the conversion failed, both functions fail with a stack failure at
/// the place of the invocation, and no frame's output has changed.
pub proof fn failed_conversion_writes_nothing<E>(
    converted: Result<String, E>,
    location: Location,
    before: Scope<'_>,
    after: Scope<'_>,
    outcome: Result<(), RenderError>,
)
    requires
        converted is Err,
        rendering(inline_graphics(converted), location, before, after, outcome) || rendering(
            display_graphics(converted),
            location,
            before,
            after,
            outcome,
        ),
    ensures
        outcome is Err,
        outcome->Err_0.failure is Stack,
        outcome->Err_0.location == location,
        frame_outputs(after) == frame_outputs(before),
        token_location(after) == token_location(before),
{
}

/// Graphics that find no frame to take them leave both functions with a sink
/// failure at the place of the invocation, which carries the engine's stack
/// error, and nothing is written.
pub proof fn refused_output_is_a_sink_failure(
    graphics: Seq<u8>,
    location: Location,
    before: Scope<'_>,
    after: Scope<'_>,
    outcome: Result<(), RenderError>,
)
    requires
        frame_outputs(before).len() == 0,
        rendering(Some(graphics), location, before, after, outcome),
    ensures
        outcome is Err,
        outcome->Err_0.failure is Sink,
        is_stack_error(outcome->Err_0.failure->Sink_0),
        outcome->Err_0.location == location,
        frame_outputs(after) == frame_outputs(before),
{
}

/// Graphics that are no document, and a document that cannot be written,
/// leave display math with the same stack failure as a failed conversion.
pub proof fn unusable_graphics_write_nothing<E>(
    graphics: String,
    location: Location,
    before: Scope<'_>,
    after: Scope<'_>,
    outcome: Result<(), RenderError>,
)
    requires
        block_markup_of(encode_utf8(graphics@)) is Err,
        rendering(display_graphics(Ok::<String, E>(graphics)), location, before, after, outcome),
    ensures
        outcome is Err,
        outcome->Err_0.failure is Stack,
        outcome->Err_0.location == location,
        frame_outputs(after) == frame_outputs(before),
{
}

} // verus!
