use vstd::prelude::*;

use crate::text::chars_of;
use ratatui::layout::{Constraint, Direction, Layout};

verus! {

/// A rectangle of terminal cells.
#[derive(Clone, Copy, Debug, PartialEq, Eq, Structural)]
pub struct Rect {
    pub x: u16,
    pub y: u16,
    pub width: u16,
    pub height: u16,
}

impl Rect {
    pub fn new(x: u16, y: u16, width: u16, height: u16) -> (r: Rect)
        ensures
            r == (Rect { x, y, width, height }),
    {
        Rect { x, y, width, height }
    }
}

/// How one part of a layout is sized.
#[derive(Clone, Copy, Debug, PartialEq, Eq, Structural)]
pub enum LayoutConstraint {
    Length(u16),
    Min(u16),
    Percentage(u16),
}

/// What `ratatui`'s `Layout::split` gives for an area, a direction
/// (vertical when `vertical`) and constraints. Named, not stated: ratatui
/// solves the constraints with its cassowary solver.
pub uninterp spec fn layout_split(area: Rect, vertical: bool, constraints: Seq<LayoutConstraint>) -> Seq<Rect>;

/// Splits an area with `ratatui::layout::Layout::split`, one rectangle per
/// constraint, as ratatui's `try_split` makes one segment per constraint.
#[verifier::external_body]
fn split_layout(area: Rect, vertical: bool, constraints: &Vec<LayoutConstraint>) -> (r: Vec<Rect>)
    ensures
        r@ == layout_split(area, vertical, constraints@),
        r@.len() == constraints@.len(),
{
    let cs: Vec<Constraint> = constraints.iter().map(|c| match *c {
        LayoutConstraint::Length(n) => Constraint::Length(n),
        LayoutConstraint::Min(n) => Constraint::Min(n),
        LayoutConstraint::Percentage(n) => Constraint::Percentage(n),
    }).collect();
    let d = if vertical { Direction::Vertical } else { Direction::Horizontal };
    let a = ratatui::layout::Rect::new(area.x, area.y, area.width, area.height);
    Layout::default().direction(d).constraints(cs).split(a).iter()
        .map(|r| Rect { x: r.x, y: r.y, width: r.width, height: r.height }).collect()
}

/// Splits an area by constraints, as the renderer does.
pub fn split_constraints(area: Rect, vertical: bool, constraints: &Vec<LayoutConstraint>) -> (r: Vec<Rect>)
    ensures
        r@ == layout_split(area, vertical, constraints@),
        r@.len() == constraints@.len(),
{
    split_layout(area, vertical, constraints)
}

/// The track tables that a click can hit.
#[derive(Clone, Copy, Debug, PartialEq, Eq, Structural)]
pub enum TrackTarget {
    Likes,
    Playlist,
    Album,
    FollowingPublished,
    FollowingLikes,
    SearchTracks,
    SearchPlaylist,
    SearchAlbum,
    SearchPersonPublished,
    SearchPersonLikes,
}

/// The four bands of the screen, top to bottom.
#[derive(Clone, Copy, Debug, PartialEq, Eq, Structural)]
pub struct RootRegions {
    pub tabs: Rect,
    pub content: Rect,
    pub status: Rect,
    pub now_playing: Rect,
}

pub open spec fn root_constraints() -> Seq<LayoutConstraint> {
    seq![LayoutConstraint::Length(3), LayoutConstraint::Min(0), LayoutConstraint::Length(1), LayoutConstraint::Length(7)]
}

/// Tabs three rows high, the content, a one-row status line, and the
/// player seven rows high.
pub fn root_regions(area: Rect) -> (r: RootRegions)
    ensures
        ({
            let parts = layout_split(area, true, root_constraints());
            r == (RootRegions { tabs: parts[0], content: parts[1], status: parts[2], now_playing: parts[3] })
        }),
{
    let cs = vec![LayoutConstraint::Length(3), LayoutConstraint::Min(0), LayoutConstraint::Length(1), LayoutConstraint::Length(7)];
    assert(cs@ =~= root_constraints());
    let chunks = split_layout(area, true, &cs);
    RootRegions { tabs: chunks[0], content: chunks[1], status: chunks[2], now_playing: chunks[3] }
}

pub open spec fn two_thirds() -> Seq<LayoutConstraint> {
    seq![LayoutConstraint::Percentage(33), LayoutConstraint::Percentage(67)]
}

pub open spec fn album_columns() -> Seq<LayoutConstraint> {
    seq![LayoutConstraint::Percentage(65), LayoutConstraint::Percentage(35)]
}

pub open spec fn people_columns() -> Seq<LayoutConstraint> {
    seq![LayoutConstraint::Percentage(20), LayoutConstraint::Percentage(40), LayoutConstraint::Percentage(40)]
}

/// The track tables of a section's table area: the liked tracks fill it;
/// playlists, albums and followed users put their tracks in columns beside
/// the list.
pub open spec fn section_regions(table_area: Rect, section: usize, search: bool) -> Seq<(TrackTarget, Rect)> {
    if section == 0 {
        seq![(if search { TrackTarget::SearchTracks } else { TrackTarget::Likes }, table_area)]
    } else if (section == 1 && !search) || (section == 2 && search) {
        seq![(if search { TrackTarget::SearchPlaylist } else { TrackTarget::Playlist }, layout_split(table_area, false, two_thirds())[1])]
    } else if (section == 2 && !search) || (section == 1 && search) {
        seq![(if search { TrackTarget::SearchAlbum } else { TrackTarget::Album }, layout_split(table_area, false, album_columns())[1])]
    } else if section == 3 {
        let cols = layout_split(table_area, false, people_columns());
        seq![(if search { TrackTarget::SearchPersonPublished } else { TrackTarget::FollowingPublished }, cols[1]),
             (if search { TrackTarget::SearchPersonLikes } else { TrackTarget::FollowingLikes }, cols[2])]
    } else {
        Seq::empty()
    }
}

fn section_track_regions(table_area: Rect, section: usize, search: bool) -> (r: Vec<(TrackTarget, Rect)>)
    ensures
        r@ == section_regions(table_area, section, search),
{
    if section == 0 {
        let t = if search { TrackTarget::SearchTracks } else { TrackTarget::Likes };
        let r = vec![(t, table_area)];
        assert(r@ =~= section_regions(table_area, section, search));
        r
    } else if (section == 1 && !search) || (section == 2 && search) {
        let cs = vec![LayoutConstraint::Percentage(33), LayoutConstraint::Percentage(67)];
        assert(cs@ =~= two_thirds());
        let cols = split_layout(table_area, false, &cs);
        let t = if search { TrackTarget::SearchPlaylist } else { TrackTarget::Playlist };
        let r = vec![(t, cols[1])];
        assert(r@ =~= section_regions(table_area, section, search));
        r
    } else if (section == 2 && !search) || (section == 1 && search) {
        let cs = vec![LayoutConstraint::Percentage(65), LayoutConstraint::Percentage(35)];
        assert(cs@ =~= album_columns());
        let cols = split_layout(table_area, false, &cs);
        let t = if search { TrackTarget::SearchAlbum } else { TrackTarget::Album };
        let r = vec![(t, cols[1])];
        assert(r@ =~= section_regions(table_area, section, search));
        r
    } else if section == 3 {
        let cs = vec![LayoutConstraint::Percentage(20), LayoutConstraint::Percentage(40), LayoutConstraint::Percentage(40)];
        assert(cs@ =~= people_columns());
        let cols = split_layout(table_area, false, &cs);
        let a = if search { TrackTarget::SearchPersonPublished } else { TrackTarget::FollowingPublished };
        let b = if search { TrackTarget::SearchPersonLikes } else { TrackTarget::FollowingLikes };
        let r = vec![(a, cols[1]), (b, cols[2])];
        assert(r@ =~= section_regions(table_area, section, search));
        r
    } else {
        let r: Vec<(TrackTarget, Rect)> = Vec::new();
        assert(r@ =~= section_regions(table_area, section, search));
        r
    }
}

pub open spec fn library_rows(search_popup_visible: bool) -> Seq<LayoutConstraint> {
    if search_popup_visible {
        seq![LayoutConstraint::Length(3), LayoutConstraint::Length(3), LayoutConstraint::Min(0)]
    } else {
        seq![LayoutConstraint::Length(3), LayoutConstraint::Min(0)]
    }
}

/// Where the library's track tables are: below the sub-tabs (and the find
/// box when it shows), split as the section renders.
pub fn library_track_regions(area: Rect, selected_subtab: usize, search_popup_visible: bool) -> (r: Vec<(TrackTarget, Rect)>)
    ensures
        ({
            let rows = layout_split(area, true, library_rows(search_popup_visible));
            let table_area = rows[if search_popup_visible { 2int } else { 1int }];
            r@ == section_regions(table_area, selected_subtab, false)
        }),
{
    let cs = if search_popup_visible {
        vec![LayoutConstraint::Length(3), LayoutConstraint::Length(3), LayoutConstraint::Min(0)]
    } else {
        vec![LayoutConstraint::Length(3), LayoutConstraint::Min(0)]
    };
    assert(cs@ =~= library_rows(search_popup_visible));
    let rows = split_layout(area, true, &cs);
    let table_area = if search_popup_visible { rows[2] } else { rows[1] };
    section_track_regions(table_area, selected_subtab, false)
}

pub open spec fn search_rows() -> Seq<LayoutConstraint> {
    seq![LayoutConstraint::Length(3), LayoutConstraint::Min(0), LayoutConstraint::Length(3)]
}

/// Where the search tab's track tables are: between the filter tabs and the
/// query box, split as the filter renders.
pub fn search_track_regions(area: Rect, selected_searchfilter: usize) -> (r: Vec<(TrackTarget, Rect)>)
    ensures
        r@ == section_regions(layout_split(area, true, search_rows())[1], selected_searchfilter, true),
{
    let cs = vec![LayoutConstraint::Length(3), LayoutConstraint::Min(0), LayoutConstraint::Length(3)];
    assert(cs@ =~= search_rows());
    let rows = split_layout(area, true, &cs);
    section_track_regions(rows[1], selected_searchfilter, true)
}

pub open spec fn progress_outer() -> Seq<LayoutConstraint> {
    seq![LayoutConstraint::Percentage(15), LayoutConstraint::Percentage(70), LayoutConstraint::Percentage(15)]
}

pub open spec fn progress_padding() -> Seq<LayoutConstraint> {
    seq![LayoutConstraint::Percentage(1), LayoutConstraint::Percentage(98), LayoutConstraint::Percentage(1)]
}

pub open spec fn progress_columns() -> Seq<LayoutConstraint> {
    seq![LayoutConstraint::Percentage(1), LayoutConstraint::Length(12), LayoutConstraint::Percentage(5), LayoutConstraint::Min(0),
         LayoutConstraint::Percentage(5), LayoutConstraint::Length(9), LayoutConstraint::Percentage(1)]
}

pub open spec fn progress_rows() -> Seq<LayoutConstraint> {
    seq![LayoutConstraint::Percentage(20), LayoutConstraint::Percentage(12), LayoutConstraint::Percentage(12), LayoutConstraint::Percentage(12),
         LayoutConstraint::Percentage(12), LayoutConstraint::Percentage(12), LayoutConstraint::Percentage(20)]
}

/// The progress bar of the player panel in `area`.
pub open spec fn progress_area_of(area: Rect) -> Rect {
    let outer = layout_split(area, false, progress_outer());
    let padding = layout_split(outer[1], false, progress_padding());
    let columns = layout_split(padding[1], false, progress_columns());
    layout_split(columns[3], true, progress_rows())[5]
}

/// The progress bar of the player, as the player panel renders it.
pub fn now_playing_progress_area(area: Rect) -> (r: Rect)
    ensures
        r == progress_area_of(area),
{
    let c1 = vec![LayoutConstraint::Percentage(15), LayoutConstraint::Percentage(70), LayoutConstraint::Percentage(15)];
    assert(c1@ =~= progress_outer());
    let outer = split_layout(area, false, &c1);
    let c2 = vec![LayoutConstraint::Percentage(1), LayoutConstraint::Percentage(98), LayoutConstraint::Percentage(1)];
    assert(c2@ =~= progress_padding());
    let padding = split_layout(outer[1], false, &c2);
    let c3 = vec![LayoutConstraint::Percentage(1), LayoutConstraint::Length(12), LayoutConstraint::Percentage(5), LayoutConstraint::Min(0),
        LayoutConstraint::Percentage(5), LayoutConstraint::Length(9), LayoutConstraint::Percentage(1)];
    assert(c3@ =~= progress_columns());
    let columns = split_layout(padding[1], false, &c3);
    let c4 = vec![LayoutConstraint::Percentage(20), LayoutConstraint::Percentage(12), LayoutConstraint::Percentage(12), LayoutConstraint::Percentage(12),
        LayoutConstraint::Percentage(12), LayoutConstraint::Percentage(12), LayoutConstraint::Percentage(20)];
    assert(c4@ =~= progress_rows());
    let rows = split_layout(columns[3], true, &c4);
    rows[5]
}

/// `a + b`, stopping at the type's maximum.
pub open spec fn sat(v: int, max: int) -> int {
    if v > max { max } else { v }
}

/// `a - b`, stopping at zero.
pub open spec fn sat_sub(a: int, b: int) -> int {
    if a < b { 0 } else { a - b }
}

/// The data row of a bordered table with a header that a row of the screen
/// shows: rows below the top border and the header, above the bottom
/// border, counted from the scroll offset, and only where the row exists.
pub open spec fn table_row(area: Rect, y: u16, offset: usize, len: usize) -> Option<usize> {
    let first = sat(area.y + 2, u16::MAX as int);
    let last = sat_sub(sat(area.y + area.height, u16::MAX as int), 1);
    if y < first || y >= last {
        None
    } else {
        let row = sat(offset + (y - first), usize::MAX as int);
        if row < len { Some(row as usize) } else { None }
    }
}

pub fn table_row_at(area: Rect, y: u16, offset: usize, len: usize) -> (r: Option<usize>)
    ensures
        r == table_row(area, y, offset, len),
{
    let first_row = area.y.saturating_add(2);
    let last_exclusive = area.y.saturating_add(area.height).saturating_sub(1);
    if y < first_row || y >= last_exclusive {
        return None;
    }
    let row = offset.saturating_add((y - first_row) as usize);
    if row < len { Some(row) } else { None }
}

/// The position a click on the progress bar asks for: the left end is the
/// start, the right end the full length, in proportion between.
pub open spec fn seek_position(area: Rect, x: u16, duration_ms: u64) -> Option<u64> {
    if area.width == 0 || x < area.x || x >= sat(area.x + area.width, u16::MAX as int) {
        None
    } else if area.width == 1 || duration_ms == 0 {
        Some(0)
    } else {
        Some((sat((x - area.x) * duration_ms, u64::MAX as int) / ((area.width - 1) as int)) as u64)
    }
}

pub fn seek_position_ms(area: Rect, x: u16, duration_ms: u64) -> (r: Option<u64>)
    ensures
        r == seek_position(area, x, duration_ms),
{
    if area.width == 0 || x < area.x || x >= area.x.saturating_add(area.width) {
        return None;
    }
    if area.width == 1 || duration_ms == 0 {
        return Some(0);
    }
    let numerator = match ((x - area.x) as u64).checked_mul(duration_ms) { Some(v) => v, None => u64::MAX };
    Some(numerator / ((area.width - 1) as u64))
}

/// The title widths of a tab bar: a title's length plus its two padding
/// cells, stopping at `u16::MAX`.
pub open spec fn tab_width(title: Seq<char>) -> int {
    sat(sat(title.len() as int, u16::MAX as int) + 2, u16::MAX as int)
}

/// The tab under column `x` among titles `i..`, the first starting at `cursor`.
pub open spec fn tab_hit(titles: Seq<Seq<char>>, x: int, cursor: int, i: int) -> Option<usize>
    decreases titles.len() - i,
{
    if i >= titles.len() || i < 0 {
        None
    } else if x >= cursor && x < sat(cursor + tab_width(titles[i]), u16::MAX as int) {
        Some(i as usize)
    } else {
        tab_hit(titles, x, sat(sat(cursor + tab_width(titles[i]), u16::MAX as int) + 1, u16::MAX as int), i + 1)
    }
}

/// The texts of a list of titles.
pub open spec fn title_views(titles: Seq<&str>) -> Seq<Seq<char>> {
    titles.map_values(|t: &str| t@)
}

/// The tab under column `x` of a tab bar drawn inside a border, with a
/// divider cell between padded titles.
/// The tab of a bar under column `x`: none on the border or outside it.
pub open spec fn tab_at(area: Rect, titles: Seq<Seq<char>>, x: u16) -> Option<usize> {
    if area.width < 2 || x <= area.x || x >= sat_sub(sat(area.x + area.width, u16::MAX as int), 1) {
        None
    } else {
        tab_hit(titles, x as int, area.x + 1, 0)
    }
}

pub fn tab_at_x(area: Rect, titles: &[&str], x: u16) -> (r: Option<usize>)
    ensures
        r == tab_at(area, title_views(titles@), x),
{
    if area.width < 2 || x <= area.x || x >= area.x.saturating_add(area.width).saturating_sub(1) {
        return None;
    }
    let ghost tv = title_views(titles@);
    let mut cursor: u16 = area.x + 1;
    let mut i: usize = 0;
    while i < titles.len()
        invariant
            i <= titles@.len(),
            tv == title_views(titles@),
            !(area.width < 2 || x <= area.x || x >= sat_sub(sat(area.x + area.width, u16::MAX as int), 1)),
            tab_hit(tv, x as int, area.x + 1, 0) == tab_hit(tv, x as int, cursor as int, i as int),
        decreases titles@.len() - i,
    {
        let count = chars_of(titles[i]).len();
        assert(tv[i as int] == titles@[i as int]@);
        let w16: u16 = if count > 65535 { 65535 } else { count as u16 };
        let width = w16.saturating_add(2);
        if x >= cursor && x < cursor.saturating_add(width) {
            return Some(i);
        }
        cursor = cursor.saturating_add(width).saturating_add(1);
        i += 1;
    }
    None
}

/// The tab under column `x` of a bar of `count` equally wide tabs inside a border.
pub open spec fn equal_tab(area: Rect, count: usize, x: u16) -> Option<usize> {
    if count == 0 || area.width < 2 || x <= area.x || x >= sat_sub(sat(area.x + area.width, u16::MAX as int), 1) {
        None
    } else {
        let relative = x - area.x - 1;
        let inner = area.width - 2;
        let q = sat(relative * count, usize::MAX as int) / (if inner < 1 { 1 } else { inner });
        Some((if q < count - 1 { q } else { count - 1 }) as usize)
    }
}

pub fn equal_tab_at_x(area: Rect, count: usize, x: u16) -> (r: Option<usize>)
    ensures
        r == equal_tab(area, count, x),
{
    if count == 0 || area.width < 2 || x <= area.x || x >= area.x.saturating_add(area.width).saturating_sub(1) {
        return None;
    }
    let relative = (x - area.x - 1) as usize;
    let inner_width = (area.width - 2) as usize;
    let divisor = if inner_width < 1 { 1 } else { inner_width };
    let q = match relative.checked_mul(count) { Some(v) => v, None => usize::MAX } / divisor;
    Some(if q < count - 1 { q } else { count - 1 })
}

/// The number of terminal columns a text takes, as `ratatui`'s
/// `Span::width` counts them (Unicode display widths). Named, not stated:
/// the widths come from Unicode's tables.
pub uninterp spec fn display_width(s: Seq<char>) -> nat;

/// Measures a text with `ratatui::text::Span::raw(..).width()`.
#[verifier::external_body]
fn text_width(s: &str) -> (r: usize)
    ensures
        r == display_width(s@),
{
    ratatui::text::Span::raw(s).width()
}

/// Where the cursor of the centered search input goes: after the query,
/// never past the inner right edge; none for a field too small to have an inside.
pub open spec fn cursor_position(area: Rect, query_width: nat) -> Option<(u16, u16)> {
    if area.width < 3 || area.height < 3 {
        None
    } else {
        let inner_x = sat(area.x + 1, u16::MAX as int);
        let inner_width = area.width - 2;
        let qw = if query_width < inner_width { query_width as int } else { inner_width as int };
        let start = sat(inner_x + (inner_width - qw) / 2, u16::MAX as int);
        let rightmost = sat(inner_x + (inner_width - 1), u16::MAX as int);
        let x = sat(start + qw, u16::MAX as int);
        Some(((if x < rightmost { x } else { rightmost }) as u16, sat(area.y + 1, u16::MAX as int) as u16))
    }
}

/// Places the terminal cursor after centered input without crossing the field border.
pub fn search_cursor_position(area: Rect, query: &str) -> (r: Option<(u16, u16)>)
    ensures
        r == cursor_position(area, display_width(query@)),
{
    if area.width < 3 || area.height < 3 {
        return None;
    }
    let inner_x = area.x.saturating_add(1);
    let inner_width = area.width - 2;
    let w = text_width(query);
    let query_width: u16 = if w < inner_width as usize { w as u16 } else { inner_width };
    let start = inner_x.saturating_add((inner_width - query_width) / 2);
    let rightmost = inner_x.saturating_add(inner_width - 1);
    let x = start.saturating_add(query_width);
    Some((if x < rightmost { x } else { rightmost }, area.y.saturating_add(1)))
}

} // verus!
