//! Message index screen: the messages of the current folder. Until a
//! mail backend is connected it shows what the index will look like.
use vstd::prelude::*;

use crate::screen::view::{
    foreground, key_bar_style, key_name_style, panel, panels_view, plain, push_panel,
    split_vertical, text_line, title_style, is_vertical_split, fills_exactly, stacked,
    paragraph_lines, lengths_total, min_count, part_top, Area, Color, Extent, Line, LineView,
    Panel, PanelView, Span, TextStyle,
};

verus! {

/// Parts of the message index screen, top to bottom: title bar, index,
/// status line, key menu.
pub open spec fn message_index_extents() -> Seq<Extent> {
    seq![Extent::Length(1), Extent::Min(0), Extent::Length(1), Extent::Length(1)]
}

/// The title bar text after the version.
pub open spec fn message_index_title_rest() -> Seq<char> {
    " MESSAGE INDEX  Strstr Folder: INBOX  Strstr Strstr  No Messages"@
}

/// The index text.
pub open spec fn message_index_lines() -> Seq<LineView> {
    seq![
        text_line(""@),
        text_line("   [Message index will appear here once IMAP backend is connected]"@),
        text_line(""@),
        text_line("   This screen corresponds to Alpine's mail_index_screen() function."@),
        text_line("   It will display messages from the current folder in a columnar format:"@),
        text_line(""@),
        text_line("     STATUS  NUM   DATE         FROM                 SIZE  SUBJECT"@),
        text_line("     \u{2500}\u{2500}\u{2500}\u{2500}\u{2500}\u{2500}  \u{2500}\u{2500}\u{2500}   \u{2500}\u{2500}\u{2500}\u{2500}\u{2500}\u{2500}\u{2500}\u{2500}\u{2500}\u{2500}   \u{2500}\u{2500}\u{2500}\u{2500}\u{2500}\u{2500}\u{2500}\u{2500}\u{2500}\u{2500}\u{2500}\u{2500}\u{2500}\u{2500}\u{2500}\u{2500}\u{2500}\u{2500}   \u{2500}\u{2500}\u{2500}\u{2500}  \u{2500}\u{2500}\u{2500}\u{2500}\u{2500}\u{2500}\u{2500}\u{2500}\u{2500}\u{2500}\u{2500}"@),
        text_line("       N  +    1   Mar 23       user@example.com     2KB   Welcome to Alpenrose"@),
        text_line(""@),
        text_line("   Press '<' or 'M' to return to the main menu."@),
    ]
}

/// The key menu of the message index.
pub open spec fn message_index_keys() -> LineView {
    seq![
        (" ? "@, key_name_style()),
        ("Help "@, plain()),
        ("M "@, key_name_style()),
        ("Main Menu "@, plain()),
        ("< "@, key_name_style()),
        ("FldrList "@, plain()),
        ("V "@, key_name_style()),
        ("ViewMsg"@, plain()),
    ]
}

/// What the message index draws in the parts `chunks` of its area: the
/// title with the version, the index text in white, and the key menu in
/// the last part; the status part is left alone.
pub open spec fn message_index_panels(version: Seq<char>, chunks: Seq<Area>) -> Seq<PanelView> {
    seq![
        panel(chunks[0], paragraph_lines(" ALPENROSE "@ + version + message_index_title_rest()), title_style()),
        panel(chunks[1], message_index_lines(), foreground(Color::White)),
        panel(chunks[3], seq![message_index_keys()], key_bar_style()),
    ]
}

fn message_index_body(area: Area) -> (p: Panel)
    ensures
        p@ == panel(area, message_index_lines(), foreground(Color::White)),
{
    let mut p = Panel::new(area, TextStyle::foreground(Color::White));
    p.push(Line::text(""));
    p.push(Line::text("   [Message index will appear here once IMAP backend is connected]"));
    p.push(Line::text(""));
    p.push(Line::text("   This screen corresponds to Alpine's mail_index_screen() function."));
    p.push(Line::text("   It will display messages from the current folder in a columnar format:"));
    p.push(Line::text(""));
    p.push(Line::text("     STATUS  NUM   DATE         FROM                 SIZE  SUBJECT"));
    p.push(Line::text("     \u{2500}\u{2500}\u{2500}\u{2500}\u{2500}\u{2500}  \u{2500}\u{2500}\u{2500}   \u{2500}\u{2500}\u{2500}\u{2500}\u{2500}\u{2500}\u{2500}\u{2500}\u{2500}\u{2500}   \u{2500}\u{2500}\u{2500}\u{2500}\u{2500}\u{2500}\u{2500}\u{2500}\u{2500}\u{2500}\u{2500}\u{2500}\u{2500}\u{2500}\u{2500}\u{2500}\u{2500}\u{2500}   \u{2500}\u{2500}\u{2500}\u{2500}  \u{2500}\u{2500}\u{2500}\u{2500}\u{2500}\u{2500}\u{2500}\u{2500}\u{2500}\u{2500}\u{2500}"));
    p.push(Line::text("       N  +    1   Mar 23       user@example.com     2KB   Welcome to Alpenrose"));
    p.push(Line::text(""));
    p.push(Line::text("   Press '<' or 'M' to return to the main menu."));
    assert(p@.lines =~= message_index_lines());
    p
}

fn message_index_keymenu() -> (l: Line)
    ensures
        l@ == message_index_keys(),
{
    let key = TextStyle::foreground(Color::White).bold();
    let mut keys = Line::empty();
    keys.push(Span::new(" ? ", key));
    keys.push(Span::new("Help ", TextStyle::plain()));
    keys.push(Span::new("M ", key));
    keys.push(Span::new("Main Menu ", TextStyle::plain()));
    keys.push(Span::new("< ", key));
    keys.push(Span::new("FldrList ", TextStyle::plain()));
    keys.push(Span::new("V ", key));
    keys.push(Span::new("ViewMsg", TextStyle::plain()));
    assert(keys@ =~= message_index_keys());
    keys
}

/// What the message index draws, given the parts of its area.
pub fn message_index_screen_in(version: &str, chunks: &Vec<Area>) -> (panels: Vec<Panel>)
    requires
        chunks@.len() == message_index_extents().len(),
    ensures
        panels_view(panels@) == message_index_panels(version@, chunks@),
{
    let mut title = String::from_str(" ALPENROSE ");
    title.append(version);
    title.append(" MESSAGE INDEX  Strstr Folder: INBOX  Strstr Strstr  No Messages");
    let mut panels: Vec<Panel> = Vec::new();
    push_panel(&mut panels, Panel::text(chunks[0], title.as_str(), TextStyle::colored(Color::Black, Color::White).bold()));
    push_panel(&mut panels, message_index_body(chunks[1]));
    push_panel(&mut panels, Panel::single(chunks[3], message_index_keymenu(), TextStyle::colored(Color::DarkGray, Color::Black)));
    assert(panels_view(panels@) =~= message_index_panels(version@, chunks@));
    panels
}

/// Whether `pv` is what the message index draws in `area` for one of the
/// splits of the area that the layout may give.
pub open spec fn message_index_drawn(version: Seq<char>, area: Area, pv: Seq<PanelView>) -> bool {
    exists|parts: Seq<Area>|
        #[trigger] is_vertical_split(area, message_index_extents(), parts) && pv == message_index_panels(version, parts)
}

/// Where the layout of the message index has one answer, and what it is:
/// the title bar on the first row, the key menu on the last, the status
/// line above it and the index between.
pub proof fn lemma_message_index_layout(area: Area)
    requires
        area.height >= 3,
        area.y + area.height <= u16::MAX,
    ensures
        fills_exactly(area, message_index_extents()),
        stacked(area, message_index_extents())[0] == (Area { height: 1, ..area }),
        stacked(area, message_index_extents())[1] == (Area { y: (area.y + 1) as u16, height: (area.height - 3) as u16, ..area }),
        stacked(area, message_index_extents())[3] == (Area { y: (area.y + area.height - 1) as u16, height: 1, ..area }),
{
    let e = message_index_extents();
    reveal_with_fuel(lengths_total, 5);
    reveal_with_fuel(min_count, 5);
    reveal_with_fuel(part_top, 4);
    assert(e.drop_last() =~= seq![Extent::Length(1), Extent::Min(0), Extent::Length(1)]);
    assert(e.drop_last().drop_last() =~= seq![Extent::Length(1), Extent::Min(0)]);
    assert(e.drop_last().drop_last().drop_last() =~= seq![Extent::Length(1)]);
    assert(e.drop_last().drop_last().drop_last().drop_last() =~= Seq::<Extent>::empty());
    assert(lengths_total(e) == 3);
    assert(min_count(e) == 1);
}

/// What the message index draws in `area`: the area is split top to
/// bottom into a title bar, the index, a status line and a key menu; in
/// an area of three rows or more, the title bar is its first row and the
/// key menu its last.
pub fn message_index_screen(version: &str, area: Area) -> (panels: Vec<Panel>)
    ensures
        message_index_drawn(version@, area, panels_view(panels@)),
        area.height >= 3 && area.y + area.height <= u16::MAX ==> {
            &&& panels_view(panels@)[0].area == (Area { height: 1, ..area })
            &&& panels_view(panels@)[1].area == (Area { y: (area.y + 1) as u16, height: (area.height - 3) as u16, ..area })
            &&& panels_view(panels@)[2].area == (Area { y: (area.y + area.height - 1) as u16, height: 1, ..area })
        },
{
    let extents = vec![Extent::Length(1), Extent::Min(0), Extent::Length(1), Extent::Length(1)];
    assert(extents@ =~= message_index_extents());
    let chunks = split_vertical(area, &extents);
    let panels = message_index_screen_in(version, &chunks);
    assert(is_vertical_split(area, message_index_extents(), chunks@));
    proof {
        if area.height >= 3 && area.y + area.height <= u16::MAX {
            lemma_message_index_layout(area);
        }
    }
    panels
}

} // verus!
