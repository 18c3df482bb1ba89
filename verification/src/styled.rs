use vstd::prelude::*;

verus! {

/// How a piece of text on screen is drawn.
#[derive(Clone, Copy, Debug, PartialEq, Eq, Structural)]
pub enum SpanStyle {
    /// Drawn in the surrounding style.
    Plain,
    /// The cursor cell: drawn in reverse (black on white).
    Cursor,
    /// The marker of the selected row: drawn in yellow.
    Marker,
}

/// A piece of text with its style.
pub struct StyledSpan {
    pub text: String,
    pub style: SpanStyle,
}

/// What a span stands for: its characters and its style.
pub type SpanView = (Seq<char>, SpanStyle);

impl View for StyledSpan {
    type V = SpanView;

    open spec fn view(&self) -> SpanView {
        (self.text@, self.style)
    }
}

/// The characters and styles of a line of spans.
pub open spec fn line_view(line: Vec<StyledSpan>) -> Seq<SpanView> {
    line@.map_values(|s: StyledSpan| s@)
}

/// The characters and styles of a sequence of lines.
pub open spec fn lines_view(lines: Seq<Vec<StyledSpan>>) -> Seq<Seq<SpanView>> {
    lines.map_values(|l: Vec<StyledSpan>| line_view(l))
}

/// A span of plain text.
pub fn plain_span(text: String) -> (s: StyledSpan)
    ensures
        s@ == (text@, SpanStyle::Plain),
{
    StyledSpan { text, style: SpanStyle::Plain }
}

} // verus!
