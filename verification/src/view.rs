use vstd::prelude::*;

use crate::format::{duration_text, format_duration};
use crate::layout::{LayoutConstraint, Rect};
use crate::text::{chars_of, push_char, push_str};

verus! {

/// How a table row is drawn.
#[derive(Debug, Clone, Copy, PartialEq, Eq, Structural)]
pub enum RowTone {
    /// An ordinary row.
    Plain,
    /// A track that cannot be played: greyed out.
    Unplayable,
    /// The selected playable track of the focused pane.
    Selected,
    /// The selected playable track of a pane without focus.
    SelectedUnfocused,
    /// The selected track when it cannot be played.
    SelectedUnplayable,
    /// The selected row of a list of playlists, albums or people.
    SelectedCollection,
}

/// The tone of a track row: a selected row shows whether its track can be
/// played and whether its pane has focus; an unselected one only whether
/// its track can be played.
pub open spec fn track_row_tone_spec(playable: bool, selected: bool, focused: bool) -> RowTone {
    if selected {
        if !playable {
            RowTone::SelectedUnplayable
        } else if focused {
            RowTone::Selected
        } else {
            RowTone::SelectedUnfocused
        }
    } else if playable {
        RowTone::Plain
    } else {
        RowTone::Unplayable
    }
}

pub fn track_row_tone(playable: bool, selected: bool, focused: bool) -> (r: RowTone)
    ensures
        r == track_row_tone_spec(playable, selected, focused),
{
    if selected {
        if !playable {
            RowTone::SelectedUnplayable
        } else if focused {
            RowTone::Selected
        } else {
            RowTone::SelectedUnfocused
        }
    } else if playable {
        RowTone::Plain
    } else {
        RowTone::Unplayable
    }
}

/// The tone of a row in a list of playlists, albums or people.
pub fn collection_row_tone(selected: bool) -> (r: RowTone)
    ensures
        r == (if selected { RowTone::SelectedCollection } else { RowTone::Plain }),
{
    if selected {
        RowTone::SelectedCollection
    } else {
        RowTone::Plain
    }
}

/// The first cell of a row: a heart for what is liked or followed.
pub fn liked_marker(liked: bool) -> (r: &'static str)
    ensures
        r@ == (if liked { "♥"@ } else { ""@ }),
{
    if liked {
        "♥"
    } else {
        ""
    }
}

/// The label of the progress bar: the position played, then the track's
/// duration text.
pub fn progress_label(progress_ms: u64, duration: &str) -> (r: String)
    ensures
        r@ == duration_text(progress_ms) + " / "@ + duration@,
{
    let mut r = format_duration(progress_ms);
    push_str(&mut r, " / ");
    push_str(&mut r, duration);
    r
}

/// The indicator of a playback toggle (shuffle, repeat).
pub fn toggle_indicator(enabled: bool) -> (r: &'static str)
    ensures
        r@ == (if enabled { "✔︎"@ } else { "×"@ }),
{
    if enabled {
        "✔︎"
    } else {
        "×"
    }
}

pub open spec fn min_int(a: int, b: int) -> int {
    if a <= b { a } else { b }
}

pub open spec fn max_int(a: int, b: int) -> int {
    if a >= b { a } else { b }
}

pub open spec fn sat_end(x: u16, len: u16) -> int {
    min_int(x + len, u16::MAX as int)
}

/// The part of `area` that lies inside `bounds` (empty where they do not
/// overlap), with ends computed by saturating addition.
pub open spec fn clip_spec(area: Rect, bounds: Rect) -> Rect {
    let x1 = max_int(area.x as int, bounds.x as int);
    let y1 = max_int(area.y as int, bounds.y as int);
    let x2 = min_int(sat_end(area.x, area.width), sat_end(bounds.x, bounds.width));
    let y2 = min_int(sat_end(area.y, area.height), sat_end(bounds.y, bounds.height));
    Rect {
        x: x1 as u16,
        y: y1 as u16,
        width: max_int(x2 - x1, 0) as u16,
        height: max_int(y2 - y1, 0) as u16,
    }
}

/// Clips the cover-art area to the inside of the now-playing frame.
pub fn clip_rect(area: Rect, bounds: Rect) -> (r: Rect)
    ensures
        r == clip_spec(area, bounds),
{
    let x1 = if area.x >= bounds.x { area.x } else { bounds.x };
    let y1 = if area.y >= bounds.y { area.y } else { bounds.y };
    let ax2 = area.x.saturating_add(area.width);
    let bx2 = bounds.x.saturating_add(bounds.width);
    let x2 = if ax2 <= bx2 { ax2 } else { bx2 };
    let ay2 = area.y.saturating_add(area.height);
    let by2 = bounds.y.saturating_add(bounds.height);
    let y2 = if ay2 <= by2 { ay2 } else { by2 };
    Rect { x: x1, y: y1, width: x2.saturating_sub(x1), height: y2.saturating_sub(y1) }
}

/// The rows of the help overlay: each shortcut and what it does.
pub open spec fn help_entries_spec() -> Seq<(Seq<char>, Seq<char>)> {
    seq![
        ("Ctrl-Q"@, "Quit immediately"@),
        ("Esc"@, "Open quit confirmation"@),
        ("Tab"@, "Cycle main tabs / Visualizer view (in visualizer mode)"@),
        ("Ctrl + Left/Right"@, "Change sub-tab"@),
        ("Right"@, "Next track"@),
        ("Left"@, "Restart; previous track if elapsed < 3s"@),
        ("Up/Down · PgUp/PgDn"@, "Move selector by row / page"@),
        ("Space"@, "Play/Pause"@),
        ("Enter"@, "Submit focused search / play selected track"@),
        ("Wheel · Shift+Wheel"@, "Move track selector by 1 / 5"@),
        ("Shift + Right"@, "Skip song"@),
        ("Shift + Left"@, "Go back a song"@),
        ("Option + Right"@, "Fast forward 10s"@),
        ("Option + Left"@, "Rewind 10s"@),
        ("Option + Up/Down"@, "Move selector by 10"@),
        ("Shift + Up/Down"@, "Move secondary selector"@),
        ("Shift + J/K"@, "Move tertiary selector"@),
        ("Shift + U"@, "Volume up"@),
        ("Shift + D"@, "Volume down"@),
        ("Shift + S"@, "Toggle shuffle queue"@),
        ("Shift + R"@, "Toggle repeat same song"@),
        ("Shift + A"@, "Add selected song to queue"@),
        ("Shift + N"@, "Play next (add to front of queue)"@),
        ("Shift + L"@, "Like selected item (or follow selected person)"@),
        ("Shift + V"@, "Toggle visualizer mode"@),
        ("Shift + F"@, "Search current view (only works in library)"@),
        ("Shift + Q"@, "Toggle queue popup"@),
        ("Shift + H"@, "Toggle help popup"@),
    ]
}

/// The texts of a list of text pairs.
pub open spec fn str_pair_texts(v: Seq<(&str, &str)>) -> Seq<(Seq<char>, Seq<char>)> {
    v.map_values(|p: (&str, &str)| (p.0@, p.1@))
}

/// The help rows that fit a popup of the given height: its borders and
/// header take three lines, and the rows past the last line are dropped.
pub fn help_rows(popup_height: u16) -> (r: Vec<(&'static str, &'static str)>)
    ensures
        str_pair_texts(r@) == help_entries_spec().take(
            min_int(help_entries_spec().len() as int, max_int(popup_height - 3, 0)),
        ),
{
    let mut v: Vec<(&'static str, &'static str)> = Vec::new();
    v.push(("Ctrl-Q", "Quit immediately"));
    v.push(("Esc", "Open quit confirmation"));
    v.push(("Tab", "Cycle main tabs / Visualizer view (in visualizer mode)"));
    v.push(("Ctrl + Left/Right", "Change sub-tab"));
    v.push(("Right", "Next track"));
    v.push(("Left", "Restart; previous track if elapsed < 3s"));
    v.push(("Up/Down · PgUp/PgDn", "Move selector by row / page"));
    v.push(("Space", "Play/Pause"));
    v.push(("Enter", "Submit focused search / play selected track"));
    v.push(("Wheel · Shift+Wheel", "Move track selector by 1 / 5"));
    v.push(("Shift + Right", "Skip song"));
    v.push(("Shift + Left", "Go back a song"));
    v.push(("Option + Right", "Fast forward 10s"));
    v.push(("Option + Left", "Rewind 10s"));
    v.push(("Option + Up/Down", "Move selector by 10"));
    v.push(("Shift + Up/Down", "Move secondary selector"));
    v.push(("Shift + J/K", "Move tertiary selector"));
    v.push(("Shift + U", "Volume up"));
    v.push(("Shift + D", "Volume down"));
    v.push(("Shift + S", "Toggle shuffle queue"));
    v.push(("Shift + R", "Toggle repeat same song"));
    v.push(("Shift + A", "Add selected song to queue"));
    v.push(("Shift + N", "Play next (add to front of queue)"));
    v.push(("Shift + L", "Like selected item (or follow selected person)"));
    v.push(("Shift + V", "Toggle visualizer mode"));
    v.push(("Shift + F", "Search current view (only works in library)"));
    v.push(("Shift + Q", "Toggle queue popup"));
    v.push(("Shift + H", "Toggle help popup"));
    assert(str_pair_texts(v@) =~= help_entries_spec());
    let max_rows = popup_height.saturating_sub(3) as usize;
    if v.len() > max_rows {
        v.truncate(max_rows);
    }
    assert(str_pair_texts(v@) =~= help_entries_spec().take(
        min_int(help_entries_spec().len() as int, max_int(popup_height - 3, 0)),
    ));
    v
}

/// A cell's text cut to `max` characters: longer text keeps its first
/// `max - 1` characters and ends in an ellipsis.
pub open spec fn truncated(text: Seq<char>, max: nat) -> Seq<char> {
    if text.len() <= max {
        text
    } else if max == 0 {
        Seq::empty()
    } else {
        text.take(max - 1).push('…')
    }
}

pub fn truncate_with_ellipsis(text: &str, max: usize) -> (r: String)
    ensures
        r@ == truncated(text@, max as nat),
{
    let chars = chars_of(text);
    let mut r = String::new();
    if chars.len() <= max {
        push_str(&mut r, text);
        return r;
    }
    if max == 0 {
        return r;
    }
    let mut i: usize = 0;
    while i < max - 1
        invariant
            i <= max - 1,
            max <= chars.len(),
            chars@ == text@,
            r@ == chars@.take(i as int),
        decreases max - 1 - i,
    {
        push_char(&mut r, chars[i]);
        i = i + 1;
        assert(r@ =~= chars@.take(i as int));
    }
    push_char(&mut r, '…');
    r
}

/// The width a column gets at least: its length, its minimum, or its share
/// of the table width rounded down.
pub open spec fn column_width(c: LayoutConstraint, width: nat) -> nat {
    match c {
        LayoutConstraint::Length(n) => n as nat,
        LayoutConstraint::Min(n) => n as nat,
        LayoutConstraint::Percentage(p) => (width * p / 100) as nat,
    }
}

/// The widths that a table's cells are cut to.
pub fn column_widths(constraints: &Vec<LayoutConstraint>, width: u16) -> (r: Vec<usize>)
    ensures
        r@.len() == constraints@.len(),
        forall|i: int| 0 <= i < r@.len() ==> #[trigger] r@[i] == column_width(constraints@[i], width as nat),
{
    let mut r: Vec<usize> = Vec::new();
    let mut i: usize = 0;
    while i < constraints.len()
        invariant
            i <= constraints.len(),
            r@.len() == i,
            forall|k: int| 0 <= k < i ==> #[trigger] r@[k] == column_width(constraints@[k], width as nat),
        decreases constraints.len() - i,
    {
        let w = match constraints[i] {
            LayoutConstraint::Length(n) => n as usize,
            LayoutConstraint::Min(n) => n as usize,
            LayoutConstraint::Percentage(p) => {
                assert(width as u64 * p as u64 <= 0xffff * 0xffff) by (nonlinear_arith)
                    requires width <= 0xffff, p <= 0xffff;
                ((width as u64 * p as u64) / 100) as usize
            },
        };
        r.push(w);
        i = i + 1;
    }
    r
}

} // verus!
