//! Lines of the popup that lists the URLs of a message.
use crate::display_width::{columns_before, fit_end, fit_to_width};
use crate::keybindings::{default_indexed_shortcuts, spec_indexed_shortcut, KeyBindings};
use vstd::prelude::*;

verus! {

/// A URL found in a message, with the text that names it.
#[derive(Clone, Debug)]
pub struct MessageUrlItem {
    pub label: String,
    pub url: String,
}

/// A line of the URL picker: the selection marker, the row's shortcut
/// prefix, the label, and whether the line is highlighted.
#[derive(Clone, Debug)]
pub struct UrlPickerLine {
    pub marker: String,
    pub shortcut: String,
    pub label: String,
    pub highlighted: bool,
}

/// The marker in front of a row: an arrow on the selected row.
pub open spec fn marker_for(selected: bool) -> Seq<char> {
    if selected {
        "› "@
    } else {
        "  "@
    }
}

/// The prefix that shows a row's shortcut key: the key and a space, or two
/// spaces for a row without one.
pub open spec fn spec_shortcut_prefix(shortcut: Option<char>) -> Seq<char> {
    match shortcut {
        Some(c) => seq![c, ' '],
        None => seq![' ', ' '],
    }
}

/// Line `index` of the picker, for a URL labelled `label`.
pub open spec fn is_picker_line(line: UrlPickerLine, label: Seq<char>, index: int, selected: int) -> bool {
    &&& line.marker@ == marker_for(index == selected)
    &&& line.shortcut@ == spec_shortcut_prefix(spec_indexed_shortcut(default_indexed_shortcuts(), index))
    &&& line.label@ == label
    &&& line.highlighted == (index == selected)
}

/// The prefix that shows a row's shortcut key.
pub fn shortcut_prefix(shortcut: Option<char>) -> (prefix: String)
    ensures
        prefix@ == spec_shortcut_prefix(shortcut),
{
    proof {
        reveal_strlit("  ");
        reveal_strlit(" ");
    }
    match shortcut {
        Some(c) => {
            let mut prefix = String::new();
            crate::display_width::push_char(&mut prefix, c);
            prefix.append(" ");
            assert(prefix@ =~= seq![c, ' ']);
            prefix
        },
        None => String::from_str("  "),
    }
}

/// One line per URL, in order; the selected one marked and highlighted, each
/// with the default numbered shortcut of its row.
pub fn message_url_picker_lines(urls: &[MessageUrlItem], selected: usize) -> (lines: Vec<
    UrlPickerLine,
>)
    ensures
        lines@.len() == urls@.len(),
        forall|i: int|
            0 <= i < urls@.len() ==> is_picker_line(
                #[trigger] lines@[i],
                urls@[i].label@,
                i,
                selected as int,
            ),
{
    let bindings = KeyBindings::default();
    let mut lines: Vec<UrlPickerLine> = Vec::new();
    let mut index: usize = 0;
    proof {
        reveal_strlit("› ");
        reveal_strlit("  ");
    }
    while index < urls.len()
        invariant
            index <= urls@.len(),
            lines@.len() == index,
            bindings@ == default_indexed_shortcuts(),
            forall|i: int|
                0 <= i < index ==> is_picker_line(
                    #[trigger] lines@[i],
                    urls@[i].label@,
                    i,
                    selected as int,
                ),
        decreases urls.len() - index,
    {
        let is_selected = index == selected;
        let marker = if is_selected { "› " } else { "  " };
        let line = UrlPickerLine {
            marker: String::from_str(marker),
            shortcut: shortcut_prefix(bindings.indexed_shortcut(index)),
            label: urls[index].label.clone(),
            highlighted: is_selected,
        };
        lines.push(line);
        index += 1;
    }
    lines
}

/// A picker line cut to `width` columns: its parts are written in order
/// (marker, shortcut, label) and the line ends at the first character that no
/// longer fits; nothing after it is kept.
pub open spec fn is_truncated_line(cut: UrlPickerLine, line: UrlPickerLine, width: int) -> bool {
    is_truncated_parts(cut, line.marker@, line.shortcut@, line.label@, line.highlighted, width)
}

/// A picker line with the given parts, cut to `width` columns.
pub open spec fn is_truncated_parts(
    cut: UrlPickerLine,
    marker: Seq<char>,
    shortcut: Seq<char>,
    label: Seq<char>,
    highlighted: bool,
    width: int,
) -> bool {
    let marker_end = fit_end(marker, 0, width);
    let after_marker = width - columns_before(marker, marker.len() as int);
    let shortcut_end = fit_end(shortcut, 0, after_marker);
    let after_shortcut = after_marker - columns_before(shortcut, shortcut.len() as int);
    &&& cut.highlighted == highlighted
    &&& cut.marker@ == marker.take(marker_end)
    &&& if marker_end < marker.len() {
        cut.shortcut@.len() == 0 && cut.label@.len() == 0
    } else {
        &&& cut.shortcut@ == shortcut.take(shortcut_end)
        &&& if shortcut_end < shortcut.len() {
            cut.label@.len() == 0
        } else {
            cut.label@ == label.take(fit_end(label, 0, after_shortcut))
        }
    }
}

/// Cuts a picker line to `width` columns.
pub fn truncate_url_picker_line(line: &UrlPickerLine, width: usize) -> (cut: UrlPickerLine)
    ensures
        is_truncated_line(cut, *line, width as int),
{
    let (marker, used, whole) = fit_to_width(line.marker.as_str(), width);
    if !whole {
        return UrlPickerLine {
            marker,
            shortcut: String::new(),
            label: String::new(),
            highlighted: line.highlighted,
        };
    }
    let rest = width - used;
    let (shortcut, used_shortcut, whole_shortcut) = fit_to_width(line.shortcut.as_str(), rest);
    if !whole_shortcut {
        return UrlPickerLine { marker, shortcut, label: String::new(), highlighted: line.highlighted };
    }
    let (label, _, _) = fit_to_width(line.label.as_str(), rest - used_shortcut);
    UrlPickerLine { marker, shortcut, label, highlighted: line.highlighted }
}

/// Cuts every picker line to `width` columns, and at least one.
pub fn truncate_message_url_picker_lines(lines: &Vec<UrlPickerLine>, width: usize) -> (cut: Vec<
    UrlPickerLine,
>)
    ensures
        cut@.len() == lines@.len(),
        forall|i: int|
            0 <= i < lines@.len() ==> is_truncated_line(
                #[trigger] cut@[i],
                lines@[i],
                if width >= 1 {
                    width as int
                } else {
                    1
                },
            ),
{
    let width = if width >= 1 { width } else { 1 };
    let mut cut: Vec<UrlPickerLine> = Vec::new();
    let mut i: usize = 0;
    while i < lines.len()
        invariant
            i <= lines@.len(),
            cut@.len() == i,
            width >= 1,
            forall|j: int| 0 <= j < i ==> is_truncated_line(#[trigger] cut@[j], lines@[j], width as int),
        decreases lines.len() - i,
    {
        cut.push(truncate_url_picker_line(&lines[i], width));
        i += 1;
    }
    cut
}

/// The picker's lines, each cut to `width` columns, and at least one.
pub fn message_url_picker_lines_for_width(urls: &[MessageUrlItem], selected: usize, width: usize) -> (lines:
    Vec<UrlPickerLine>)
    ensures
        lines@.len() == urls@.len(),
        forall|i: int|
            0 <= i < urls@.len() ==> is_truncated_parts(
                #[trigger] lines@[i],
                marker_for(i == selected),
                spec_shortcut_prefix(spec_indexed_shortcut(default_indexed_shortcuts(), i)),
                urls@[i].label@,
                i == selected,
                if width >= 1 {
                    width as int
                } else {
                    1
                },
            ),
{
    let full = message_url_picker_lines(urls, selected);
    let lines = truncate_message_url_picker_lines(&full, width);
    assert forall|i: int| 0 <= i < urls@.len() implies is_truncated_parts(
        #[trigger] lines@[i],
        marker_for(i == selected),
        spec_shortcut_prefix(spec_indexed_shortcut(default_indexed_shortcuts(), i)),
        urls@[i].label@,
        i == selected,
        if width >= 1 {
            width as int
        } else {
            1
        },
    ) by {
        assert(is_picker_line(full@[i], urls@[i].label@, i, selected as int));
        assert(is_truncated_line(lines@[i], full@[i], if width >= 1 { width as int } else { 1 }));
    }
    lines
}

/// The selected row is marked by an arrow and every other row by two
/// spaces; a row's shortcut is shown as the key and a space, or two spaces
/// when the row has none.
pub proof fn lemma_picker_line_parts(c: char)
    ensures
        marker_for(true) == seq!['›', ' '],
        marker_for(false) == seq![' ', ' '],
        spec_shortcut_prefix(Some(c)) == seq![c, ' '],
        spec_shortcut_prefix(None) == seq![' ', ' '],
{
    reveal_strlit("› ");
    reveal_strlit("  ");
    assert("› "@ =~= seq!['›', ' ']);
    assert("  "@ =~= seq![' ', ' ']);
}

/// Exactly the selected line is highlighted and marked; each line shows its
/// URL's own label and its row's default numbered shortcut.
pub proof fn lemma_picker_lines(line: UrlPickerLine, label: Seq<char>, index: int, selected: int)
    requires
        is_picker_line(line, label, index, selected),
    ensures
        line.highlighted <==> index == selected,
        line.marker@ == marker_for(index == selected),
        line.label@ == label,
        0 <= index < 9 ==> line.shortcut@ == seq![(('1' as int) + index) as char, ' '],
        !(0 <= index < 9) ==> line.shortcut@ == seq![' ', ' '],
{
    crate::keybindings::lemma_default_numbered_shortcuts(index);
}

/// Cutting a line keeps its highlight and a start of each of its parts, in
/// order: the shortcut only once the whole marker fits, the label only once
/// the whole shortcut fits; a line that fits is kept whole.
pub proof fn lemma_cut_lines(
    cut: UrlPickerLine,
    marker: Seq<char>,
    shortcut: Seq<char>,
    label: Seq<char>,
    highlighted: bool,
    width: nat,
)
    requires
        is_truncated_parts(cut, marker, shortcut, label, highlighted, width as int),
    ensures
        cut.highlighted == highlighted,
        cut.marker@.is_prefix_of(marker),
        cut.shortcut@.is_prefix_of(shortcut),
        cut.label@.is_prefix_of(label),
        cut.shortcut@.len() > 0 ==> cut.marker@ == marker,
        cut.label@.len() > 0 ==> cut.marker@ == marker && cut.shortcut@ == shortcut,
        columns_before(marker, marker.len() as int) + columns_before(shortcut, shortcut.len() as int)
            + columns_before(label, label.len() as int) <= width ==> cut.marker@ == marker
            && cut.shortcut@ == shortcut && cut.label@ == label,
{
    let w = width as int;
    let cm = columns_before(marker, marker.len() as int);
    let cs = columns_before(shortcut, shortcut.len() as int);
    let cl = columns_before(label, label.len() as int);
    crate::display_width::lemma_fitting_text_is_kept_whole(marker, width);
    let marker_end = fit_end(marker, 0, w);
    if marker_end == marker.len() {
        assert(marker.take(marker_end) =~= marker);
        let after = w - cm;
        if after >= 0 {
            crate::display_width::lemma_fitting_text_is_kept_whole(shortcut, after as nat);
            let shortcut_end = fit_end(shortcut, 0, after);
            if shortcut_end == shortcut.len() {
                assert(shortcut.take(shortcut_end) =~= shortcut);
                let rest = after - cs;
                if rest >= 0 {
                    crate::display_width::lemma_fitting_text_is_kept_whole(label, rest as nat);
                    if cl <= rest {
                        assert(label.take(label.len() as int) =~= label);
                    }
                } else {
                    assert(fit_end(label, 0, rest) == 0 || label.len() == 0);
                    assert(label.take(fit_end(label, 0, rest)).is_prefix_of(label)) by {
                        assert(label.take(0) =~= Seq::<char>::empty());
                    }
                }
            }
        } else {
            assert(fit_end(shortcut, 0, after) == 0 || shortcut.len() == 0);
            assert(shortcut.take(0) =~= Seq::<char>::empty());
            if shortcut.len() == 0 {
                assert(shortcut.take(fit_end(shortcut, 0, after)) =~= shortcut);
                assert(fit_end(label, 0, after - cs) == 0 || label.len() == 0);
                assert(label.take(0) =~= Seq::<char>::empty());
                assert(label.take(fit_end(label, 0, after - cs)).is_prefix_of(label));
            }
        }
    }
}

} // verus!
