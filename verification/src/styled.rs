//! Text with colours, as plain values: what the library hands to a front
//! end to draw.

use vstd::prelude::*;
use vstd::string::*;

verus! {

/// The colour of a piece of text.
#[derive(Clone, Copy, Debug, PartialEq, Eq, Structural)]
pub enum Paint {
    /// The colour of the terminal.
    Plain,
    Black,
    White,
    Gray,
    Red,
    Green,
    Yellow,
    Blue,
    Cyan,
    Magenta,
    LightBlue,
}

/// A piece of text in one style.
#[derive(Debug)]
pub struct Span {
    pub text: String,
    pub paint: Paint,
    pub bold: bool,
    pub italic: bool,
}

/// The mathematical value of a [`Span`].
pub struct SpanView {
    pub text: Seq<char>,
    pub paint: Paint,
    pub bold: bool,
    pub italic: bool,
}

impl View for Span {
    type V = SpanView;

    open spec fn view(&self) -> SpanView {
        SpanView { text: self.text@, paint: self.paint, bold: self.bold, italic: self.italic }
    }
}

/// Text without a style.
pub open spec fn plain(text: Seq<char>) -> SpanView {
    SpanView { text, paint: Paint::Plain, bold: false, italic: false }
}

/// Text in a colour.
pub open spec fn painted(text: Seq<char>, paint: Paint) -> SpanView {
    SpanView { text, paint, bold: false, italic: false }
}

/// Bold text in a colour.
pub open spec fn strong(text: Seq<char>, paint: Paint) -> SpanView {
    SpanView { text, paint, bold: true, italic: false }
}

/// Italic text in a colour.
pub open spec fn slanted(text: Seq<char>, paint: Paint) -> SpanView {
    SpanView { text, paint, bold: false, italic: true }
}

impl Span {
    /// Text without a style.
    pub fn plain(text: String) -> (s: Span)
        ensures
            s@ == plain(text@),
    {
        Span { text, paint: Paint::Plain, bold: false, italic: false }
    }

    /// Text in a colour.
    pub fn painted(text: String, paint: Paint) -> (s: Span)
        ensures
            s@ == painted(text@, paint),
    {
        Span { text, paint, bold: false, italic: false }
    }

    /// Bold text in a colour.
    pub fn strong(text: String, paint: Paint) -> (s: Span)
        ensures
            s@ == strong(text@, paint),
    {
        Span { text, paint, bold: true, italic: false }
    }

    /// Italic text in a colour.
    pub fn slanted(text: String, paint: Paint) -> (s: Span)
        ensures
            s@ == slanted(text@, paint),
    {
        Span { text, paint, bold: false, italic: true }
    }
}

/// A line of text: its pieces from left to right.
#[derive(Debug)]
pub struct Line {
    pub spans: Vec<Span>,
}

impl View for Line {
    type V = Seq<SpanView>;

    open spec fn view(&self) -> Seq<SpanView> {
        self.spans@.map_values(|s: Span| s@)
    }
}

/// The values of lines.
pub open spec fn line_views(lines: Seq<Line>) -> Seq<Seq<SpanView>> {
    lines.map_values(|l: Line| l@)
}

impl Line {
    /// An empty line.
    pub fn blank() -> (l: Line)
        ensures
            l@ == Seq::<SpanView>::empty(),
    {
        let l = Line { spans: Vec::new() };
        assert(l@ =~= Seq::<SpanView>::empty());
        l
    }

    /// A line of one piece.
    pub fn of(a: Span) -> (l: Line)
        ensures
            l@ == seq![a@],
    {
        let mut spans: Vec<Span> = Vec::new();
        spans.push(a);
        let l = Line { spans };
        assert(l@ =~= seq![a@]);
        l
    }

    /// A line of two pieces.
    pub fn pair(a: Span, b: Span) -> (l: Line)
        ensures
            l@ == seq![a@, b@],
    {
        let mut spans: Vec<Span> = Vec::new();
        spans.push(a);
        spans.push(b);
        let l = Line { spans };
        assert(l@ =~= seq![a@, b@]);
        l
    }

    /// A line of three pieces.
    pub fn triple(a: Span, b: Span, c: Span) -> (l: Line)
        ensures
            l@ == seq![a@, b@, c@],
    {
        let mut spans: Vec<Span> = Vec::new();
        spans.push(a);
        spans.push(b);
        spans.push(c);
        let l = Line { spans };
        assert(l@ =~= seq![a@, b@, c@]);
        l
    }
}

/// Appends a line.
pub fn push_line(lines: &mut Vec<Line>, line: Line)
    ensures
        line_views(final(lines)@) == line_views(old(lines)@).push(line@),
{
    lines.push(line);
    assert(line_views(lines@) =~= line_views(old(lines)@).push(line@));
}

/// Appends lines.
pub fn push_lines(lines: &mut Vec<Line>, more: Vec<Line>)
    ensures
        line_views(final(lines)@) == line_views(old(lines)@) + line_views(more@),
{
    let mut more = more;
    let ghost added = more@;
    lines.append(&mut more);
    assert(line_views(lines@) =~= line_views(old(lines)@) + line_views(added));
}

/// No lines yet.
pub fn no_lines() -> (lines: Vec<Line>)
    ensures
        line_views(lines@) == Seq::<Seq<SpanView>>::empty(),
{
    let lines: Vec<Line> = Vec::new();
    assert(line_views(lines@) =~= Seq::<Seq<SpanView>>::empty());
    lines
}

} // verus!
