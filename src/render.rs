//! The terminal widget pieces that a text area is drawn with.

use tui::style::{Modifier, Style};
use tui::text::{Span, Spans, Text};
use tui::widgets::{Block, Paragraph};
use vstd::prelude::*;

verus! {

#[verifier::external_type_specification]
#[verifier::external_body]
pub struct ExSpan<'a>(tui::text::Span<'a>);

#[verifier::external_type_specification]
#[verifier::external_body]
pub struct ExSpans<'a>(tui::text::Spans<'a>);

#[verifier::external_type_specification]
#[verifier::external_body]
pub struct ExParagraph<'a>(tui::widgets::Paragraph<'a>);

/// Relies on tui's `Style::add_modifier`: the given style, drawn in reverse video.
#[verifier::external_body]
pub(crate) fn reversed(style: Style) -> Style {
    style.add_modifier(Modifier::REVERSED)
}

/// Relies on tui's `Span::raw`: unstyled text.
#[verifier::external_body]
pub(crate) fn raw_span<'b>(text: String) -> Span<'b> {
    Span::raw(text)
}

/// Relies on tui's `Span::styled`: text drawn in `style`.
#[verifier::external_body]
pub(crate) fn styled_span<'b>(text: String, style: Style) -> Span<'b> {
    Span::styled(text, style)
}

/// Relies on tui's `From<Vec<Span>> for Spans`: the spans of one screen line.
#[verifier::external_body]
pub(crate) fn spans_of<'b>(spans: Vec<Span<'b>>) -> Spans<'b> {
    Spans::from(spans)
}

/// Relies on tui's `Paragraph::new`: a paragraph of the given screen lines.
#[verifier::external_body]
pub(crate) fn paragraph<'b>(lines: Vec<Spans<'b>>) -> Paragraph<'b> {
    Paragraph::new(Text::from(lines))
}

/// Relies on tui's `Paragraph::style`: the paragraph drawn in `style`.
#[verifier::external_body]
pub(crate) fn paragraph_styled<'b>(p: Paragraph<'b>, style: Style) -> Paragraph<'b> {
    p.style(style)
}

/// Relies on tui's `Paragraph::block`: the paragraph drawn inside `block`.
#[verifier::external_body]
pub(crate) fn paragraph_framed<'b>(p: Paragraph<'b>, block: Block<'b>) -> Paragraph<'b> {
    p.block(block)
}

/// Relies on the `Clone` impl of tui's `Block`.
#[verifier::external_body]
pub(crate) fn clone_block<'b>(block: &Block<'b>) -> Block<'b> {
    block.clone()
}

} // verus!
