//! Styled text: spans of text that carry an optional color and a bold flag,
//! and their rendering to terminal text through `colored`.

use colored::Colorize;
use vstd::prelude::*;

verus! {

/// The colors the game's output uses.
#[derive(Clone, Copy, PartialEq, Eq, Debug, Structural)]
pub enum Color {
    Green,
    Red,
    Cyan,
    BrightBlack,
    Yellow,
    White,
    BrightRed,
}

impl Color {
    /// The color's name as `colored` parses it.
    pub fn name(self) -> &'static str {
        match self {
            Color::Green => "green",
            Color::Red => "red",
            Color::Cyan => "cyan",
            Color::BrightBlack => "bright black",
            Color::Yellow => "yellow",
            Color::White => "white",
            Color::BrightRed => "bright red",
        }
    }
}

/// A piece of text with its style.
#[derive(Clone, Debug)]
pub struct Span {
    pub text: String,
    pub color: Option<Color>,
    pub bold: bool,
}

/// What a span is, as a mathematical value.
pub ghost struct SpanView {
    pub text: Seq<char>,
    pub color: Option<Color>,
    pub bold: bool,
}

impl View for Span {
    type V = SpanView;

    open spec fn view(&self) -> SpanView {
        SpanView { text: self.text@, color: self.color, bold: self.bold }
    }
}

/// An unstyled span.
pub open spec fn plain_view(text: Seq<char>) -> SpanView {
    SpanView { text, color: None, bold: false }
}

/// A span in a color, not bold.
pub open spec fn colored_view(text: Seq<char>, color: Color) -> SpanView {
    SpanView { text, color: Some(color), bold: false }
}

/// The views of the spans of a line.
pub open spec fn views(line: Seq<Span>) -> Seq<SpanView> {
    line.map_values(|s: Span| s@)
}

/// The text of a line with its styles left out.
pub open spec fn line_text(line: Seq<SpanView>) -> Seq<char>
    decreases line.len(),
{
    if line.len() == 0 {
        Seq::empty()
    } else {
        line_text(line.drop_last()) + line.last().text
    }
}

/// Whether no span of the line carries a style.
pub open spec fn unstyled(line: Seq<SpanView>) -> bool {
    forall|i: int| 0 <= i < line.len() ==> (#[trigger] line[i]).color is None && !line[i].bold
}

/// Several pieces of text one after the other.
pub open spec fn joined(pieces: Seq<Seq<char>>) -> Seq<char>
    decreases pieces.len(),
{
    if pieces.len() == 0 {
        Seq::empty()
    } else {
        joined(pieces.drop_last()) + pieces.last()
    }
}

/// The control sequence introducer, `ESC [`.
pub open spec fn csi() -> Seq<char> {
    seq!['\x1b', '[']
}

/// The escape sequence that resets all styles.
pub open spec fn sgr_reset() -> Seq<char> {
    seq!['\x1b', '[', '0', 'm']
}

/// Whether `t` holds the reset sequence somewhere.
pub open spec fn holds_reset(t: Seq<char>) -> bool {
    exists|i: int| 0 <= i && i + 4 <= t.len() && #[trigger] t.subrange(i, i + 4) == sgr_reset()
}

/// `r` shows `text`: as it is when the terminal takes no colors, or between
/// a style sequence and the reset sequence. Only a text that holds reset
/// sequences itself is altered inside (each is followed by the style again).
pub open spec fn painted(r: Seq<char>, text: Seq<char>) -> bool {
    r == text || exists|style: Seq<char>, body: Seq<char>|
        #![trigger csi() + style + seq!['m'] + body]
        r == csi() + style + seq!['m'] + body + sgr_reset() && (!holds_reset(text) ==> body
            == text)
}

/// How a rendered piece shows a span: an unstyled span as its text.
pub open spec fn shown(piece: Seq<char>, s: SpanView) -> bool {
    if s.color is None && !s.bold {
        piece == s.text
    } else {
        painted(piece, s.text)
    }
}

/// Relies on `colored`'s `Colorize::color` and the `Display` of the
/// `ColoredString` it returns: the text in the color named.
#[verifier::external_body]
fn paint(text: &str, color: &str) -> (r: String)
    ensures
        painted(r@, text@),
{
    text.color(color).to_string()
}

/// Relies on `colored`'s `Colorize::bold` and the `Display` of the
/// `ColoredString` it returns: the text in bold.
#[verifier::external_body]
fn embolden(text: &str) -> (r: String)
    ensures
        painted(r@, text@),
{
    text.bold().to_string()
}

/// Relies on `colored`'s `Colorize::color`, then `ColoredString::bold`, and
/// the `Display` of the result: the text in the color named and in bold,
/// under one style sequence.
#[verifier::external_body]
fn paint_bold(text: &str, color: &str) -> (r: String)
    ensures
        painted(r@, text@),
{
    text.color(color).bold().to_string()
}

impl Span {
    /// An unstyled span.
    pub fn plain(text: String) -> (r: Span)
        ensures
            r@ == plain_view(text@),
    {
        Span { text, color: None, bold: false }
    }

    /// A span in `color`, not bold.
    pub fn colored(text: String, color: Color) -> (r: Span)
        ensures
            r@ == colored_view(text@, color),
    {
        Span { text, color: Some(color), bold: false }
    }

    /// The span as terminal text.
    pub fn render(&self) -> (r: String)
        ensures
            shown(r@, self@),
    {
        match self.color {
            None => {
                if self.bold {
                    embolden(self.text.as_str())
                } else {
                    self.text.clone()
                }
            },
            Some(c) => {
                if self.bold {
                    paint_bold(self.text.as_str(), c.name())
                } else {
                    paint(self.text.as_str(), c.name())
                }
            },
        }
    }
}

/// Appends a span to a line.
pub fn push_span(line: &mut Vec<Span>, s: Span)
    ensures
        views(final(line)@) == views(old(line)@).push(s@),
{
    line.push(s);
    assert(views(line@) =~= views(old(line)@).push(s@));
}

/// Appends the spans of `more` to a line.
pub fn extend_line(line: &mut Vec<Span>, more: Vec<Span>)
    ensures
        views(final(line)@) == views(old(line)@) + views(more@),
{
    let mut more = more;
    let ghost m = more@;
    line.append(&mut more);
    assert(views(line@) =~= views(old(line)@) + views(m));
}

/// A line of a single unstyled span.
pub fn plain_line(text: String) -> (r: Vec<Span>)
    ensures
        views(r@) == seq![plain_view(text@)],
{
    let mut r: Vec<Span> = Vec::new();
    push_span(&mut r, Span::plain(text));
    assert(views(r@) =~= seq![plain_view(text@)]);
    r
}

/// The text of a line with its styles left out.
pub fn text_of(line: &Vec<Span>) -> (r: String)
    ensures
        r@ == line_text(views(line@)),
{
    let mut r = String::new();
    let mut i: usize = 0;
    while i < line.len()
        invariant
            i <= line@.len(),
            r@ == line_text(views(line@.take(i as int))),
        decreases line@.len() - i,
    {
        r.append(line[i].text.as_str());
        i = i + 1;
        assert(views(line@.take(i as int)).drop_last() =~= views(line@.take(i - 1)));
    }
    assert(line@.take(i as int) =~= line@);
    r
}

/// The line as terminal text, each span rendered in its style.
pub fn render_line(line: &Vec<Span>) -> (r: String)
    ensures
        exists|pieces: Seq<Seq<char>>|
            pieces.len() == line@.len() && r@ == joined(pieces) && forall|i: int|
                0 <= i < pieces.len() ==> shown(#[trigger] pieces[i], line@[i]@),
        unstyled(views(line@)) ==> r@ == line_text(views(line@)),
{
    let mut r = String::new();
    let ghost mut pieces: Seq<Seq<char>> = Seq::empty();
    let mut i: usize = 0;
    while i < line.len()
        invariant
            i <= line@.len(),
            pieces.len() == i,
            r@ == joined(pieces),
            forall|j: int| 0 <= j < i ==> shown(#[trigger] pieces[j], line@[j]@),
            unstyled(views(line@)) ==> r@ == line_text(views(line@.take(i as int))),
        decreases line@.len() - i,
    {
        let piece = line[i].render();
        r.append(piece.as_str());
        proof {
            let old_pieces = pieces;
            pieces = pieces.push(piece@);
            assert(pieces.drop_last() =~= old_pieces);
            assert(views(line@.take(i + 1)).drop_last() =~= views(line@.take(i as int)));
            if unstyled(views(line@)) {
                assert(views(line@)[i as int].color is None);
            }
        }
        i = i + 1;
    }
    assert(line@.take(i as int) =~= line@);
    r
}

} // verus!
