//! What a screen draws, as plain data: rectangles of the terminal, styled
//! text, and paragraphs placed in rectangles. The program around the
//! library draws panels on the terminal one for one.
use vstd::prelude::*;

verus! {

/// A rectangle of the terminal, in cells.
#[derive(Debug, Clone, Copy, PartialEq, Eq, Structural)]
pub struct Area {
    pub x: u16,
    pub y: u16,
    pub width: u16,
    pub height: u16,
}

/// A constraint on the height of one part of a vertical split.
#[derive(Debug, Clone, Copy, PartialEq, Eq, Structural)]
pub enum Extent {
    /// Exactly this many rows.
    Length(u16),
    /// At least this many rows.
    Min(u16),
}

/// Colors used by the screens.
#[derive(Debug, Clone, Copy, PartialEq, Eq, Structural)]
pub enum Color {
    Black,
    White,
    Yellow,
    DarkGray,
}

/// Foreground, background and modifiers of text; `None` keeps what is
/// below.
#[derive(Debug, Clone, Copy, PartialEq, Eq)]
pub struct TextStyle {
    pub fg: Option<Color>,
    pub bg: Option<Color>,
    pub bold: bool,
    pub underlined: bool,
}

/// A piece of text in one style.
pub struct Span {
    pub text: String,
    pub style: TextStyle,
}

/// One line of text, made of spans.
pub struct Line {
    pub spans: Vec<Span>,
}

/// A paragraph of lines drawn in an area, with a style for the whole
/// paragraph and, where it has one, the style of a borderless block that
/// is drawn behind it.
pub struct Panel {
    pub area: Area,
    pub lines: Vec<Line>,
    pub style: TextStyle,
    pub backdrop: Option<TextStyle>,
}

/// A span as text and style.
pub type SpanView = (Seq<char>, TextStyle);

/// A line as its spans.
pub type LineView = Seq<SpanView>;

/// A panel as its area, lines and styles.
pub struct PanelView {
    pub area: Area,
    pub lines: Seq<LineView>,
    pub style: TextStyle,
    pub backdrop: Option<TextStyle>,
}

impl View for Span {
    type V = SpanView;

    open spec fn view(&self) -> SpanView {
        (self.text@, self.style)
    }
}

impl View for Line {
    type V = LineView;

    open spec fn view(&self) -> LineView {
        self.spans@.map_values(|s: Span| s@)
    }
}

impl View for Panel {
    type V = PanelView;

    open spec fn view(&self) -> PanelView {
        PanelView {
            area: self.area,
            lines: self.lines@.map_values(|l: Line| l@),
            style: self.style,
            backdrop: self.backdrop,
        }
    }
}

/// The panels of a screen, in drawing order.
pub open spec fn panels_view(panels: Seq<Panel>) -> Seq<PanelView> {
    panels.map_values(|p: Panel| p@)
}

/// No color and no modifier.
pub open spec fn plain() -> TextStyle {
    TextStyle { fg: None, bg: None, bold: false, underlined: false }
}

/// Text in `fg` on `bg`.
pub open spec fn colored(fg: Color, bg: Color) -> TextStyle {
    TextStyle { fg: Some(fg), bg: Some(bg), bold: false, underlined: false }
}

/// Text in `fg` on what is below.
pub open spec fn foreground(fg: Color) -> TextStyle {
    TextStyle { fg: Some(fg), bg: None, bold: false, underlined: false }
}

/// The style made bold.
pub open spec fn bolded(s: TextStyle) -> TextStyle {
    TextStyle { bold: true, ..s }
}

/// Title bars: bold black on white.
pub open spec fn title_style() -> TextStyle {
    bolded(colored(Color::Black, Color::White))
}

/// Key menu bars: dark gray on black.
pub open spec fn key_bar_style() -> TextStyle {
    colored(Color::DarkGray, Color::Black)
}

/// Keys in key menu bars: bold white.
pub open spec fn key_name_style() -> TextStyle {
    bolded(foreground(Color::White))
}

/// A line of one plain span.
pub open spec fn text_line(t: Seq<char>) -> LineView {
    seq![(t, plain())]
}

/// A line of one span in the given style.
pub open spec fn styled_line(t: Seq<char>, st: TextStyle) -> LineView {
    seq![(t, st)]
}

/// A panel without a backdrop.
pub open spec fn panel(area: Area, lines: Seq<LineView>, style: TextStyle) -> PanelView {
    PanelView { area, lines, style, backdrop: None }
}

/// Rows asked for by the `Length` extents together.
pub open spec fn lengths_total(extents: Seq<Extent>) -> int
    decreases extents.len(),
{
    if extents.len() == 0 {
        0
    } else {
        lengths_total(extents.drop_last()) + match extents.last() {
            Extent::Length(n) => n as int,
            Extent::Min(_) => 0,
        }
    }
}

/// Number of `Min` extents.
pub open spec fn min_count(extents: Seq<Extent>) -> int
    decreases extents.len(),
{
    if extents.len() == 0 {
        0
    } else {
        min_count(extents.drop_last()) + if extents.last() is Min { 1int } else { 0 }
    }
}

/// Whether the split has one answer: exactly one `Min(0)` part, every
/// other part a `Length`, the lengths fitting in the area's rows, and the
/// area's bottom row within the terminal's row numbers.
pub open spec fn fills_exactly(area: Area, extents: Seq<Extent>) -> bool {
    &&& area.y + area.height <= u16::MAX
    &&& min_count(extents) == 1
    &&& forall|i: int| 0 <= i < extents.len() && (#[trigger] extents[i] is Min) ==> extents[i] == Extent::Min(0)
    &&& lengths_total(extents) <= area.height
}

/// Rows of part `i`: its length, or for the `Min` part all rows left.
pub open spec fn part_height(area: Area, extents: Seq<Extent>, i: int) -> int {
    match extents[i] {
        Extent::Length(n) => n as int,
        Extent::Min(_) => area.height - lengths_total(extents),
    }
}

/// First row of part `i`: the parts are stacked from the area's top row
/// without gaps.
pub open spec fn part_top(area: Area, extents: Seq<Extent>, i: int) -> int
    decreases i,
{
    if i <= 0 {
        area.y as int
    } else {
        part_top(area, extents, i - 1) + part_height(area, extents, i - 1)
    }
}

/// The parts of `area` stacked top to bottom, each `Length` part its
/// length and the `Min` part the rest.
pub open spec fn stacked(area: Area, extents: Seq<Extent>) -> Seq<Area> {
    Seq::new(
        extents.len(),
        |i: int|
            Area {
                x: area.x,
                y: part_top(area, extents, i) as u16,
                width: area.width,
                height: part_height(area, extents, i) as u16,
            },
    )
}

/// What holds of every vertical split of `area` by `extents`: one part
/// per extent, each with the area's column and width, and the stacked
/// parts wherever the split has one answer.
pub open spec fn is_vertical_split(area: Area, extents: Seq<Extent>, parts: Seq<Area>) -> bool {
    &&& parts.len() == extents.len()
    &&& forall|i: int| 0 <= i < parts.len() ==> (#[trigger] parts[i]).x == area.x && parts[i].width == area.width
    &&& fills_exactly(area, extents) ==> parts == stacked(area, extents)
}

/// Splits `area` top to bottom with ratatui's
/// `Layout::vertical(extents).split(area)`, one part per extent. Claimed
/// of ratatui: there are as many parts as extents; a vertical split keeps
/// the area's column and width in every part; and where the lengths fit
/// in the area and one `Min(0)` takes the rest, the parts are stacked
/// from the area's top row, each `Length` part its length, the `Min` part
/// the rows left. Where the lengths do not fit, several answers are
/// equally good to ratatui's solver and which one it gives is left
/// unsaid.
#[verifier::external_body]
pub(crate) fn split_vertical(area: Area, extents: &Vec<Extent>) -> (parts: Vec<Area>)
    ensures
        is_vertical_split(area, extents@, parts@),
{
    let rect = ratatui::layout::Rect { x: area.x, y: area.y, width: area.width, height: area.height };
    let constraints = extents.iter().map(|e| match e {
        Extent::Length(n) => ratatui::layout::Constraint::Length(*n),
        Extent::Min(n) => ratatui::layout::Constraint::Min(*n),
    });
    ratatui::layout::Layout::vertical(constraints).split(rect).iter().map(
        |r| Area { x: r.x, y: r.y, width: r.width, height: r.height },
    ).collect()
}

impl TextStyle {
    /// No color and no modifier.
    pub fn plain() -> (s: TextStyle)
        ensures
            s == plain(),
    {
        TextStyle { fg: None, bg: None, bold: false, underlined: false }
    }

    /// Text in `fg` on `bg`.
    pub fn colored(fg: Color, bg: Color) -> (s: TextStyle)
        ensures
            s == colored(fg, bg),
    {
        TextStyle { fg: Some(fg), bg: Some(bg), bold: false, underlined: false }
    }

    /// Text in `fg` on what is below.
    pub fn foreground(fg: Color) -> (s: TextStyle)
        ensures
            s == foreground(fg),
    {
        TextStyle { fg: Some(fg), bg: None, bold: false, underlined: false }
    }

    /// This style made bold.
    pub fn bold(self) -> (s: TextStyle)
        ensures
            s == bolded(self),
    {
        TextStyle { bold: true, ..self }
    }
}

impl Span {
    /// A span of the given text.
    pub fn new(text: &str, style: TextStyle) -> (s: Span)
        ensures
            s@ == (text@, style),
    {
        Span { text: String::from_str(text), style }
    }

    /// A span of the given string.
    pub fn owned(text: String, style: TextStyle) -> (s: Span)
        ensures
            s@ == (text@, style),
    {
        Span { text, style }
    }
}

impl Line {
    /// A line without spans.
    pub fn empty() -> (l: Line)
        ensures
            l@ == Seq::<SpanView>::empty(),
    {
        Line { spans: Vec::new() }
    }

    /// A line of one plain span.
    pub fn text(t: &str) -> (l: Line)
        ensures
            l@ == text_line(t@),
    {
        Line::styled(t, TextStyle::plain())
    }

    /// A line of one span in the given style.
    pub fn styled(t: &str, style: TextStyle) -> (l: Line)
        ensures
            l@ == styled_line(t@, style),
    {
        let mut l = Line::empty();
        l.push(Span::new(t, style));
        assert(l@ =~= styled_line(t@, style));
        l
    }

    /// A line of one plain span of the given string.
    pub fn owned(t: String) -> (l: Line)
        ensures
            l@ == text_line(t@),
    {
        let mut l = Line::empty();
        l.push(Span::owned(t, TextStyle::plain()));
        assert(l@ =~= text_line(l@[0].0));
        l
    }

    /// Adds a span at the end of the line.
    pub fn push(&mut self, s: Span)
        ensures
            final(self)@ == old(self)@.push(s@),
    {
        let ghost old_spans = self.spans@;
        self.spans.push(s);
        assert(self.spans@.map_values(|s: Span| s@) =~= old_spans.map_values(|s: Span| s@).push(
            s@,
        ));
    }
}

impl Panel {
    /// A panel without lines and without a backdrop.
    pub fn new(area: Area, style: TextStyle) -> (p: Panel)
        ensures
            p@ == panel(area, Seq::empty(), style),
    {
        let p = Panel { area, lines: Vec::new(), style, backdrop: None };
        assert(p@.lines =~= Seq::<LineView>::empty());
        p
    }

    /// A panel of one line.
    pub fn single(area: Area, line: Line, style: TextStyle) -> (p: Panel)
        ensures
            p@ == panel(area, seq![line@], style),
    {
        let mut p = Panel::new(area, style);
        p.push(line);
        assert(p@.lines =~= seq![line@]);
        p
    }

    /// Adds a line at the end of the panel.
    pub fn push(&mut self, l: Line)
        ensures
            final(self)@ == (PanelView { lines: old(self)@.lines.push(l@), ..old(self)@ }),
    {
        let ghost old_lines = self.lines@;
        self.lines.push(l);
        assert(self.lines@.map_values(|l: Line| l@) =~= old_lines.map_values(|l: Line| l@).push(
            l@,
        ));
    }
}

/// Adds a panel at the end of a screen's panels.
pub fn push_panel(panels: &mut Vec<Panel>, p: Panel)
    ensures
        panels_view(final(panels)@) == panels_view(old(panels)@).push(p@),
{
    let ghost old_panels = panels@;
    panels.push(p);
    assert(panels_view(panels@) =~= panels_view(old_panels).push(p@));
}

/// Appends `c` with `String::push`, which adds the character at the end
/// of the string.
#[verifier::external_body]
pub(crate) fn push_char(s: &mut String, c: char)
    ensures
        final(s)@ == old(s)@.push(c),
{
    s.push(c);
}

/// `s` followed by spaces up to `width` characters, as `{:<width}` pads.
pub open spec fn padded(s: Seq<char>, width: nat) -> Seq<char> {
    if s.len() >= width {
        s
    } else {
        s + Seq::new((width - s.len()) as nat, |i: int| ' ')
    }
}

/// `s` followed by spaces up to `width` characters.
pub fn pad_right(s: &str, width: usize) -> (r: String)
    ensures
        r@ == padded(s@, width as nat),
{
    let n = s.unicode_len();
    let mut r = String::from_str(s);
    let mut k: usize = n;
    while k < width
        invariant
            n == s@.len(),
            k >= n,
            k <= width || k == n,
            r@ == s@ + Seq::new((k - n) as nat, |i: int| ' '),
        decreases width - k,
    {
        r.append(" ");
        proof {
            reveal_strlit(" ");
            assert(r@ =~= s@ + Seq::new((k + 1 - n) as nat, |i: int| ' '));
        }
        k = k + 1;
    }
    proof {
        if n >= width {
            assert(r@ =~= s@);
        } else {
            assert(k == width);
        }
    }
    r
}

/// A character in upper case where it is an ASCII lower-case letter.
pub open spec fn upper_char(c: char) -> char {
    if 'a' <= c && c <= 'z' {
        ((c as int) - 32) as char
    } else {
        c
    }
}

/// The text with its ASCII lower-case letters in upper case.
pub open spec fn upper_ascii(s: Seq<char>) -> Seq<char> {
    s.map_values(|c: char| upper_char(c))
}

/// The text with its ASCII lower-case letters in upper case.
pub fn ascii_uppercase(s: &str) -> (r: String)
    ensures
        r@ == upper_ascii(s@),
{
    let n = s.unicode_len();
    let mut r = String::new();
    let mut i: usize = 0;
    while i < n
        invariant
            n == s@.len(),
            i <= n,
            r@ == upper_ascii(s@.subrange(0, i as int)),
        decreases n - i,
    {
        let c = s.get_char(i);
        let u = if 'a' <= c && c <= 'z' { ((c as u8) - 32) as char } else { c };
        push_char(&mut r, u);
        assert(s@.subrange(0, i + 1) =~= s@.subrange(0, i as int).push(c));
        assert(r@ =~= upper_ascii(s@.subrange(0, i + 1)));
        i = i + 1;
    }
    assert(s@.subrange(0, n as int) =~= s@);
    r
}

/// The line without a carriage return at its end.
pub open spec fn strip_cr(line: Seq<char>) -> Seq<char> {
    if line.len() > 0 && line.last() == '\r' {
        line.drop_last()
    } else {
        line
    }
}

/// The lines of `s` read from position `i` on, `cur` being what has been
/// read of the current line and `done` the lines before it, cut as
/// `str::lines` cuts them: a line ends at each `\n`, which is dropped
/// together with a `\r` just before it; a last line without `\n` is kept,
/// as it is, where it is not empty.
pub open spec fn lines_from(s: Seq<char>, i: int, cur: Seq<char>, done: Seq<Seq<char>>) -> Seq<Seq<char>>
    decreases s.len() - i,
{
    if i < 0 || i >= s.len() {
        if cur.len() > 0 { done.push(cur) } else { done }
    } else if s[i] == '\n' {
        lines_from(s, i + 1, Seq::empty(), done.push(strip_cr(cur)))
    } else {
        lines_from(s, i + 1, cur.push(s[i]), done)
    }
}

/// The lines of a paragraph's text: one empty line for empty text, else
/// the lines `str::lines` gives.
pub open spec fn paragraph_lines(s: Seq<char>) -> Seq<LineView> {
    let texts = if s.len() == 0 {
        seq![Seq::<char>::empty()]
    } else {
        lines_from(s, 0, Seq::empty(), Seq::empty())
    };
    texts.map_values(|t: Seq<char>| text_line(t))
}

impl Panel {
    /// A panel showing the text `s` in plain lines, cut at line breaks as
    /// a paragraph cuts its text.
    pub fn text(area: Area, s: &str, style: TextStyle) -> (p: Panel)
        ensures
            p@ == panel(area, paragraph_lines(s@), style),
    {
        let n = s.unicode_len();
        let mut p = Panel::new(area, style);
        if n == 0 {
            p.push(Line::owned(String::new()));
            assert(p@.lines =~= paragraph_lines(s@));
            return p;
        }
        let ghost mut done: Seq<Seq<char>> = Seq::empty();
        let mut cur = String::new();
        let mut pending_cr = false;
        let mut i: usize = 0;
        assert(p@.lines =~= done.map_values(|t: Seq<char>| text_line(t)));
        while i < n
            invariant
                n == s@.len(),
                n > 0,
                i <= n,
                !pending_cr ==> (cur@.len() == 0 || cur@.last() != '\r'),
                p@ == panel(area, done.map_values(|t: Seq<char>| text_line(t)), style),
                lines_from(s@, 0, Seq::empty(), Seq::empty()) == lines_from(
                    s@,
                    i as int,
                    if pending_cr { cur@.push('\r') } else { cur@ },
                    done,
                ),
            decreases n - i,
        {
            let c = s.get_char(i);
            if c == '\n' {
                let ghost full = if pending_cr { cur@.push('\r') } else { cur@ };
                assert(strip_cr(full) == cur@) by {
                    if pending_cr {
                        assert(full.drop_last() =~= cur@);
                    }
                }
                let line = Line::owned(cur);
                p.push(line);
                proof {
                    done = done.push(cur@);
                }
                assert(p@.lines =~= done.map_values(|t: Seq<char>| text_line(t)));
                cur = String::new();
                pending_cr = false;
            } else if c == '\r' {
                if pending_cr {
                    push_char(&mut cur, '\r');
                }
                pending_cr = true;
            } else {
                if pending_cr {
                    push_char(&mut cur, '\r');
                    pending_cr = false;
                }
                push_char(&mut cur, c);
            }
            i = i + 1;
        }
        if pending_cr {
            push_char(&mut cur, '\r');
        }
        if cur.unicode_len() > 0 {
            p.push(Line::owned(cur));
            proof {
                done = done.push(cur@);
            }
        }
        assert(p@.lines =~= paragraph_lines(s@));
        p
    }
}

/// Whether the text holds no line break.
pub open spec fn single_line(t: Seq<char>) -> bool {
    forall|k: int| 0 <= k < t.len() ==> t[k] != '\n'
}

/// A paragraph of non-empty text without line breaks is that one line.
pub proof fn lemma_single_line_paragraph(t: Seq<char>)
    requires
        t.len() > 0,
        single_line(t),
    ensures
        paragraph_lines(t) == seq![text_line(t)],
{
    lemma_lines_from_single(t, 0);
    assert(t.take(0) =~= Seq::<char>::empty());
    let texts = lines_from(t, 0, Seq::empty(), Seq::empty());
    assert(texts =~= seq![t]);
    assert(texts.map_values(|x: Seq<char>| text_line(x)) =~= seq![text_line(t)]);
}

proof fn lemma_lines_from_single(t: Seq<char>, i: int)
    requires
        t.len() > 0,
        single_line(t),
        0 <= i <= t.len(),
    ensures
        lines_from(t, i, t.take(i), Seq::empty()) == seq![t],
    decreases t.len() - i,
{
    if i < t.len() {
        assert(t.take(i).push(t[i]) =~= t.take(i + 1));
        lemma_lines_from_single(t, i + 1);
    } else {
        assert(t.take(i) =~= t);
        assert(Seq::<Seq<char>>::empty().push(t) =~= seq![t]);
    }
}

/// Upper-casing keeps the length and every character but the ASCII
/// lower-case letters, which become their capitals; none is left.
pub proof fn lemma_upper_ascii(s: Seq<char>)
    ensures
        upper_ascii(s).len() == s.len(),
        forall|k: int| 0 <= k < s.len() ==> !('a' <= #[trigger] upper_ascii(s)[k] && upper_ascii(s)[k] <= 'z'),
        forall|k: int|
            0 <= k < s.len() ==> (#[trigger] upper_ascii(s)[k] == s[k] || ('a' <= s[k] && s[k] <= 'z'
                && upper_ascii(s)[k] as int == s[k] as int - 32)),
{
}

/// Padding keeps the text in front, adds only spaces, and reaches the
/// width where the text is shorter.
pub proof fn lemma_padded(s: Seq<char>, width: nat)
    ensures
        padded(s, width).subrange(0, s.len() as int) == s,
        padded(s, width).len() == if s.len() >= width { s.len() } else { width },
        forall|k: int| s.len() <= k < padded(s, width).len() ==> #[trigger] padded(s, width)[k] == ' ',
{
    assert(padded(s, width).subrange(0, s.len() as int) =~= s);
}

} // verus!
