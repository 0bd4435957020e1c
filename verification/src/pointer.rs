use vstd::prelude::*;

use crate::control::PlayerRequest;
use crate::engagement::{is_filter_active, item_at_row};
use crate::input::{enter_target, handle_enter, PlayTarget, move_index, moved_index, scroll_step, ClickKind, ClickTracker, MouseKind, DOUBLE_CLICK_WINDOW_MS};
use crate::layout::{album_columns, equal_tab, equal_tab_at_x, layout_split, library_rows, people_columns, two_thirds, library_track_regions, now_playing_progress_area,
    progress_area_of, root_constraints, root_regions, sat, sat_sub, search_track_regions, seek_position, seek_position_ms, tab_at,
    tab_at_x, table_row, table_row_at, Rect, TrackTarget, LayoutConstraint};
use crate::session::{AppData, AppState, keeps_lists, same_content};
use crate::state::{FollowingTracksFocus, TableSel};

verus! {

/// The track table that wheel, clicks and paging act on.
pub open spec fn active_target(state: AppState) -> Option<TrackTarget> {
    if state.selected_tab == 0 {
        if state.selected_subtab == 0 { Some(TrackTarget::Likes) }
        else if state.selected_subtab == 1 { Some(TrackTarget::Playlist) }
        else if state.selected_subtab == 2 { Some(TrackTarget::Album) }
        else if state.selected_subtab == 3 {
            if state.following_tracks_focus == FollowingTracksFocus::Likes { Some(TrackTarget::FollowingLikes) } else { Some(TrackTarget::FollowingPublished) }
        } else { None }
    } else if state.selected_tab == 1 {
        if state.selected_searchfilter == 0 { Some(TrackTarget::SearchTracks) }
        else if state.selected_searchfilter == 1 { Some(TrackTarget::SearchAlbum) }
        else if state.selected_searchfilter == 2 { Some(TrackTarget::SearchPlaylist) }
        else if state.selected_searchfilter == 3 {
            if state.search_people_tracks_focus == FollowingTracksFocus::Likes { Some(TrackTarget::SearchPersonLikes) } else { Some(TrackTarget::SearchPersonPublished) }
        } else { None }
    } else {
        None
    }
}

pub fn active_track_target(state: &AppState) -> (r: Option<TrackTarget>)
    ensures
        r == active_target(*state),
{
    if state.selected_tab == 0 {
        if state.selected_subtab == 0 { Some(TrackTarget::Likes) }
        else if state.selected_subtab == 1 { Some(TrackTarget::Playlist) }
        else if state.selected_subtab == 2 { Some(TrackTarget::Album) }
        else if state.selected_subtab == 3 {
            if state.following_tracks_focus == FollowingTracksFocus::Likes { Some(TrackTarget::FollowingLikes) } else { Some(TrackTarget::FollowingPublished) }
        } else { None }
    } else if state.selected_tab == 1 {
        if state.selected_searchfilter == 0 { Some(TrackTarget::SearchTracks) }
        else if state.selected_searchfilter == 1 { Some(TrackTarget::SearchAlbum) }
        else if state.selected_searchfilter == 2 { Some(TrackTarget::SearchPlaylist) }
        else if state.selected_searchfilter == 3 {
            if state.search_people_tracks_focus == FollowingTracksFocus::Likes { Some(TrackTarget::SearchPersonLikes) } else { Some(TrackTarget::SearchPersonPublished) }
        } else { None }
    } else {
        None
    }
}

/// The data rows a bordered table with a header shows.
pub fn visible_table_rows(area: Rect) -> (r: usize)
    ensures
        r == (if area.height < 3 { 0 } else { area.height - 3 }),
{
    if area.height < 3 { 0 } else { (area.height - 3) as usize }
}

/// The data rows of the first region for a table, or none.
pub open spec fn region_rows(regions: Seq<(TrackTarget, Rect)>, target: TrackTarget) -> int
    decreases regions.len(),
{
    if regions.len() == 0 {
        0
    } else if regions[0].0 == target {
        if regions[0].1.height < 3 { 0 } else { regions[0].1.height - 3 }
    } else {
        region_rows(regions.drop_first(), target)
    }
}

/// The track tables of the tab that shows in `area`.
pub open spec fn track_regions_of(area: Rect, state: AppState) -> Seq<(TrackTarget, Rect)> {
    let content = layout_split(area, true, root_constraints())[1];
    if state.selected_tab == 0 {
        let rows = layout_split(content, true, library_rows(state.search_popup_visible));
        crate::layout::section_regions(rows[if state.search_popup_visible { 2int } else { 1int }], state.selected_subtab, false)
    } else {
        crate::layout::section_regions(layout_split(content, true, crate::layout::search_rows())[1], state.selected_searchfilter, true)
    }
}

/// The rows of one page of the active track table.
pub open spec fn page_rows(area: Rect, state: AppState) -> int {
    match active_target(state) {
        None => 0,
        Some(t) => region_rows(track_regions_of(area, state), t),
    }
}

/// The rows of one page of the active track table, as rendered in `area`.
#[verifier::loop_isolation(false)]
pub fn active_track_page_rows(area: Rect, state: &AppState) -> (r: usize)
    ensures
        r == page_rows(area, *state),
{
    let target = match active_track_target(state) {
        Some(t) => t,
        None => return 0,
    };
    let root = root_regions(area);
    let regions = if state.selected_tab == 0 {
        library_track_regions(root.content, state.selected_subtab, state.search_popup_visible)
    } else {
        search_track_regions(root.content, state.selected_searchfilter)
    };
    let ghost all = regions@;
    assert(all == track_regions_of(area, *state));
    assert(all.skip(0) =~= all);
    let mut i: usize = 0;
    while i < regions.len()
        invariant
            i <= regions.len(),
            all == regions@,
            region_rows(all, target) == region_rows(all.skip(i as int), target),
        decreases regions.len() - i,
    {
        assert(all.skip(i as int).drop_first() =~= all.skip(i + 1));
        assert(all.skip(i as int)[0] == all[i as int]);
        if regions[i].0 == target {
            return visible_table_rows(regions[i].1);
        }
        i += 1;
    }
    assert(all.skip(i as int).len() == 0);
    0
}

/// `Page Down` (when `down`) or `Page Up`: moves the active track table's
/// selection by one page of the table as rendered in `area`. Nothing moves
/// while the player seeks or where no track table is active.
pub fn handle_page_key(down: bool, area: Rect, is_seeking: bool, state: &mut AppState, data: &mut AppData)
    ensures
        keeps_lists(*final(data), *old(data)),
        final(state).selected_tab == old(state).selected_tab,
        final(state).current_playing_index == old(state).current_playing_index,
        is_seeking || active_target(*old(state)) is None ==> *final(state) == *old(state),
        (!is_seeking && active_target(*old(state)) is Some) ==> ({
            let t = active_target(*old(state))->0;
            target_row(t, *final(state)) == moved_index(target_row(t, *old(state)) as int, track_len(t, *old(state), *old(data)) as int,
                if down { page_rows(area, *old(state)) } else { -page_rows(area, *old(state)) })
        }),
{
    if is_seeking {
        return;
    }
    let target = match active_track_target(state) {
        Some(t) => t,
        None => return,
    };
    let page = active_track_page_rows(area, state);
    assert(page <= 0xffff) by {
        lemma_region_rows_bound(track_regions_of(area, *state), target);
    }
    let delta: isize = if down { page as isize } else { -(page as isize) };
    move_track_selection(target, delta, state, data);
}

proof fn lemma_region_rows_bound(regions: Seq<(TrackTarget, Rect)>, target: TrackTarget)
    ensures
        0 <= region_rows(regions, target) <= 0xffff,
    decreases regions.len(),
{
    if regions.len() > 0 && regions[0].0 != target {
        lemma_region_rows_bound(regions.drop_first(), target);
    }
}

/// The scroll offset and the length of a track table; the find box shortens
/// the liked and playlist tracks to their matches.
/// The number of rows of a track table; the find box shortens the liked
/// and playlist tracks to their matches.
pub open spec fn track_len(target: TrackTarget, state: AppState, data: AppData) -> nat {
    match target {
        TrackTarget::Likes => if crate::engagement::filter_active(state) { state.search_matches@.len() } else { data.likes@.len() },
        TrackTarget::Playlist => if crate::engagement::filter_active(state) { state.search_matches@.len() } else { data.playlist_tracks@.len() },
        TrackTarget::Album => data.album_tracks@.len(),
        TrackTarget::FollowingPublished => data.following_tracks@.len(),
        TrackTarget::FollowingLikes => data.following_likes_tracks@.len(),
        TrackTarget::SearchTracks => data.search_tracks@.len(),
        TrackTarget::SearchPlaylist => data.search_playlist_tracks@.len(),
        TrackTarget::SearchAlbum => data.search_album_tracks@.len(),
        TrackTarget::SearchPersonPublished => data.search_people_tracks@.len(),
        TrackTarget::SearchPersonLikes => data.search_people_likes_tracks@.len(),
    }
}

/// The scroll offset of a track table.
pub open spec fn track_offset(target: TrackTarget, data: AppData) -> usize {
    match target {
        TrackTarget::Likes => data.likes_state.offset,
        TrackTarget::Playlist => data.playlist_tracks_state.offset,
        TrackTarget::Album => data.album_tracks_state.offset,
        TrackTarget::FollowingPublished => data.following_tracks_state.offset,
        TrackTarget::FollowingLikes => data.following_likes_state.offset,
        TrackTarget::SearchTracks => data.search_tracks_state.offset,
        TrackTarget::SearchPlaylist => data.search_playlist_tracks_state.offset,
        TrackTarget::SearchAlbum => data.search_album_tracks_state.offset,
        TrackTarget::SearchPersonPublished => data.search_people_tracks_state.offset,
        TrackTarget::SearchPersonLikes => data.search_people_likes_state.offset,
    }
}

/// The row of a track table that a click at (`column`, `row`) hits, if the
/// click is inside the table's columns and on one of its data rows.
pub open spec fn track_hit(region: (TrackTarget, Rect), column: u16, row: u16, state: AppState, data: AppData) -> Option<usize> {
    let table = region.1;
    if table.x <= column && column < table.x + table.width {
        table_row(table, row, track_offset(region.0, data), track_len(region.0, state, data) as usize)
    } else {
        None
    }
}

pub fn track_offset_and_len(target: TrackTarget, state: &AppState, data: &AppData) -> (r: (usize, usize))
    ensures
        r.0 == track_offset(target, *data),
        r.1 == track_len(target, *state, *data),
{
    match target {
        TrackTarget::Likes => (data.likes_state.offset, if is_filter_active(state) { state.search_matches.len() } else { data.likes.len() }),
        TrackTarget::Playlist => (data.playlist_tracks_state.offset, if is_filter_active(state) { state.search_matches.len() } else { data.playlist_tracks.len() }),
        TrackTarget::Album => (data.album_tracks_state.offset, data.album_tracks.len()),
        TrackTarget::FollowingPublished => (data.following_tracks_state.offset, data.following_tracks.len()),
        TrackTarget::FollowingLikes => (data.following_likes_state.offset, data.following_likes_tracks.len()),
        TrackTarget::SearchTracks => (data.search_tracks_state.offset, data.search_tracks.len()),
        TrackTarget::SearchPlaylist => (data.search_playlist_tracks_state.offset, data.search_playlist_tracks.len()),
        TrackTarget::SearchAlbum => (data.search_album_tracks_state.offset, data.search_album_tracks.len()),
        TrackTarget::SearchPersonPublished => (data.search_people_tracks_state.offset, data.search_people_tracks.len()),
        TrackTarget::SearchPersonLikes => (data.search_people_likes_state.offset, data.search_people_likes_tracks.len()),
    }
}

/// The selected row of a track table.
pub open spec fn target_row(target: TrackTarget, state: AppState) -> usize {
    match target {
        TrackTarget::Likes | TrackTarget::SearchTracks => state.selected_row,
        TrackTarget::Playlist => state.selected_playlist_track_row,
        TrackTarget::Album => state.selected_album_track_row,
        TrackTarget::FollowingPublished => state.selected_following_track_row,
        TrackTarget::FollowingLikes => state.selected_following_like_row,
        TrackTarget::SearchPlaylist => state.search_selected_playlist_track_row,
        TrackTarget::SearchAlbum => state.search_selected_album_track_row,
        TrackTarget::SearchPersonPublished => state.search_selected_person_track_row,
        TrackTarget::SearchPersonLikes => state.search_selected_person_like_row,
    }
}

pub fn selected_track_row(target: TrackTarget, state: &AppState) -> (r: usize)
    ensures
        r == target_row(target, *state),
{
    match target {
        TrackTarget::Likes | TrackTarget::SearchTracks => state.selected_row,
        TrackTarget::Playlist => state.selected_playlist_track_row,
        TrackTarget::Album => state.selected_album_track_row,
        TrackTarget::FollowingPublished => state.selected_following_track_row,
        TrackTarget::FollowingLikes => state.selected_following_like_row,
        TrackTarget::SearchPlaylist => state.search_selected_playlist_track_row,
        TrackTarget::SearchAlbum => state.search_selected_album_track_row,
        TrackTarget::SearchPersonPublished => state.search_selected_person_track_row,
        TrackTarget::SearchPersonLikes => state.search_selected_person_like_row,
    }
}

/// Whether two states select the same: the tab, section and filter, every
/// track and collection row, the focus of the user panes, and the find box.
pub open spec fn same_selection(a: AppState, b: AppState) -> bool {
    &&& a.selected_tab == b.selected_tab
    &&& a.selected_subtab == b.selected_subtab
    &&& a.selected_searchfilter == b.selected_searchfilter
    &&& a.selected_row == b.selected_row
    &&& a.selected_playlist_track_row == b.selected_playlist_track_row
    &&& a.selected_album_track_row == b.selected_album_track_row
    &&& a.selected_following_track_row == b.selected_following_track_row
    &&& a.selected_following_like_row == b.selected_following_like_row
    &&& a.following_tracks_focus == b.following_tracks_focus
    &&& a.search_selected_playlist_track_row == b.search_selected_playlist_track_row
    &&& a.search_selected_album_track_row == b.search_selected_album_track_row
    &&& a.search_selected_person_track_row == b.search_selected_person_track_row
    &&& a.search_selected_person_like_row == b.search_selected_person_like_row
    &&& a.search_people_tracks_focus == b.search_people_tracks_focus
    &&& a.search_input_focused == b.search_input_focused
    &&& a.search_popup_visible == b.search_popup_visible
    &&& a.search_query == b.search_query
    &&& a.search_matches@ == b.search_matches@
}

/// Whether `b` is `a` with a row of a track table selected: that table's row
/// is `row`; a search table also takes the focus from the search input, and
/// a followed user's or person's pane takes the focus between published and
/// liked tracks; everything else that selects stays.
pub open spec fn track_selected(a: AppState, b: AppState, target: TrackTarget, row: usize) -> bool {
    let search = target == TrackTarget::SearchTracks || target == TrackTarget::SearchPlaylist || target == TrackTarget::SearchAlbum
        || target == TrackTarget::SearchPersonPublished || target == TrackTarget::SearchPersonLikes;
    &&& b.selected_tab == a.selected_tab
    &&& b.selected_subtab == a.selected_subtab
    &&& b.selected_searchfilter == a.selected_searchfilter
    &&& b.selected_row == (if target == TrackTarget::Likes || target == TrackTarget::SearchTracks { row } else { a.selected_row })
    &&& b.selected_playlist_track_row == (if target == TrackTarget::Playlist { row } else { a.selected_playlist_track_row })
    &&& b.selected_album_track_row == (if target == TrackTarget::Album { row } else { a.selected_album_track_row })
    &&& b.selected_following_track_row == (if target == TrackTarget::FollowingPublished { row } else { a.selected_following_track_row })
    &&& b.selected_following_like_row == (if target == TrackTarget::FollowingLikes { row } else { a.selected_following_like_row })
    &&& b.following_tracks_focus == (if target == TrackTarget::FollowingPublished { FollowingTracksFocus::Published }
        else if target == TrackTarget::FollowingLikes { FollowingTracksFocus::Likes } else { a.following_tracks_focus })
    &&& b.search_selected_playlist_track_row == (if target == TrackTarget::SearchPlaylist { row } else { a.search_selected_playlist_track_row })
    &&& b.search_selected_album_track_row == (if target == TrackTarget::SearchAlbum { row } else { a.search_selected_album_track_row })
    &&& b.search_selected_person_track_row == (if target == TrackTarget::SearchPersonPublished { row } else { a.search_selected_person_track_row })
    &&& b.search_selected_person_like_row == (if target == TrackTarget::SearchPersonLikes { row } else { a.search_selected_person_like_row })
    &&& b.search_people_tracks_focus == (if target == TrackTarget::SearchPersonPublished { FollowingTracksFocus::Published }
        else if target == TrackTarget::SearchPersonLikes { FollowingTracksFocus::Likes } else { a.search_people_tracks_focus })
    &&& b.search_input_focused == (if search { false } else { a.search_input_focused })
    &&& b.search_popup_visible == a.search_popup_visible
    &&& b.search_query == a.search_query
    &&& b.search_matches@ == a.search_matches@
}

/// Selects a row of a track table; a search table also takes the focus from
/// the search input, and a followed user's pane takes the focus between
/// published and liked tracks.
pub fn select_track(target: TrackTarget, row: usize, state: &mut AppState, data: &mut AppData)
    ensures
        track_selected(*old(state), *final(state), target, row),
        same_content(*old(data), *final(data)),
        track_table(target, *final(data)).selected == Some(row),
        target_row(target, *final(state)) == row,
        keeps_lists(*final(data), *old(data)),
        final(state).selected_tab == old(state).selected_tab,
        final(state).selected_subtab == old(state).selected_subtab,
        final(state).selected_searchfilter == old(state).selected_searchfilter,
        final(state).current_playing_index == old(state).current_playing_index,
        final(state).playback_source == old(state).playback_source,
        target == TrackTarget::FollowingLikes ==> final(state).following_tracks_focus == FollowingTracksFocus::Likes,
        target == TrackTarget::FollowingPublished ==> final(state).following_tracks_focus == FollowingTracksFocus::Published,
{
    set_track_row(target, row, state);
    select_track_table(target, row, data);
}

/// Sets the selected row of a track table and the focus that goes with it.
fn set_track_row(target: TrackTarget, row: usize, state: &mut AppState)
    ensures
        track_selected(*old(state), *final(state), target, row),
        final(state).current_playing_index == old(state).current_playing_index,
        final(state).playback_source == old(state).playback_source,
{
    match target {
        TrackTarget::Likes | TrackTarget::Playlist | TrackTarget::Album | TrackTarget::FollowingPublished
        | TrackTarget::FollowingLikes => set_library_row(target, row, state),
        _ => set_search_row(target, row, state),
    }
}

/// Sets the row of a library track table.
#[verifier::spinoff_prover]
fn set_library_row(target: TrackTarget, row: usize, state: &mut AppState)
    requires
        target == TrackTarget::Likes || target == TrackTarget::Playlist || target == TrackTarget::Album
            || target == TrackTarget::FollowingPublished || target == TrackTarget::FollowingLikes,
    ensures
        track_selected(*old(state), *final(state), target, row),
        final(state).current_playing_index == old(state).current_playing_index,
        final(state).playback_source == old(state).playback_source,
{
    match target {
        TrackTarget::Likes => state.selected_row = row,
        TrackTarget::Playlist => state.selected_playlist_track_row = row,
        TrackTarget::Album => state.selected_album_track_row = row,
        TrackTarget::FollowingPublished => {
            state.selected_following_track_row = row;
            state.following_tracks_focus = FollowingTracksFocus::Published;
        },
        _ => {
            state.selected_following_like_row = row;
            state.following_tracks_focus = FollowingTracksFocus::Likes;
        },
    }
}

/// Sets the row of a search track table, which takes the focus from the input.
#[verifier::spinoff_prover]
fn set_search_row(target: TrackTarget, row: usize, state: &mut AppState)
    requires
        target == TrackTarget::SearchTracks || target == TrackTarget::SearchPlaylist || target == TrackTarget::SearchAlbum
            || target == TrackTarget::SearchPersonPublished || target == TrackTarget::SearchPersonLikes,
    ensures
        track_selected(*old(state), *final(state), target, row),
        final(state).current_playing_index == old(state).current_playing_index,
        final(state).playback_source == old(state).playback_source,
{
    state.search_input_focused = false;
    match target {
        TrackTarget::SearchTracks => state.selected_row = row,
        TrackTarget::SearchPlaylist => state.search_selected_playlist_track_row = row,
        TrackTarget::SearchAlbum => state.search_selected_album_track_row = row,
        TrackTarget::SearchPersonPublished => {
            state.search_selected_person_track_row = row;
            state.search_people_tracks_focus = FollowingTracksFocus::Published;
        },
        _ => {
            state.search_selected_person_like_row = row;
            state.search_people_tracks_focus = FollowingTracksFocus::Likes;
        },
    }
}

/// The table selection of a track table.
pub open spec fn track_table(target: TrackTarget, data: AppData) -> TableSel {
    match target {
        TrackTarget::Likes => data.likes_state,
        TrackTarget::SearchTracks => data.search_tracks_state,
        TrackTarget::Playlist => data.playlist_tracks_state,
        TrackTarget::Album => data.album_tracks_state,
        TrackTarget::FollowingPublished => data.following_tracks_state,
        TrackTarget::FollowingLikes => data.following_likes_state,
        TrackTarget::SearchPlaylist => data.search_playlist_tracks_state,
        TrackTarget::SearchAlbum => data.search_album_tracks_state,
        TrackTarget::SearchPersonPublished => data.search_people_tracks_state,
        TrackTarget::SearchPersonLikes => data.search_people_likes_state,
    }
}

/// Moves the table selection of a track table to a row, keeping its scroll
/// offset; every other table keeps its selection.
#[verifier::spinoff_prover]
fn select_track_table(target: TrackTarget, row: usize, data: &mut AppData)
    ensures
        same_content(*old(data), *final(data)),
        keeps_lists(*final(data), *old(data)),
        track_table(target, *final(data)).selected == Some(row),
        track_table(target, *final(data)).offset == track_table(target, *old(data)).offset,
        forall|t: TrackTarget| t != target ==> #[trigger] track_table(t, *final(data)) == track_table(t, *old(data)),
{
    match target {
        TrackTarget::Likes => data.likes_state.select(Some(row)),
        TrackTarget::SearchTracks => data.search_tracks_state.select(Some(row)),
        TrackTarget::Playlist => data.playlist_tracks_state.select(Some(row)),
        TrackTarget::Album => data.album_tracks_state.select(Some(row)),
        TrackTarget::FollowingPublished => data.following_tracks_state.select(Some(row)),
        TrackTarget::FollowingLikes => data.following_likes_state.select(Some(row)),
        TrackTarget::SearchPlaylist => data.search_playlist_tracks_state.select(Some(row)),
        TrackTarget::SearchAlbum => data.search_album_tracks_state.select(Some(row)),
        TrackTarget::SearchPersonPublished => data.search_people_tracks_state.select(Some(row)),
        TrackTarget::SearchPersonLikes => data.search_people_likes_state.select(Some(row)),
    }
}

/// Moves the selection of a track table by `delta` rows, within the table.
pub fn move_track_selection(target: TrackTarget, delta: isize, state: &mut AppState, data: &mut AppData)
    ensures
        target_row(target, *final(state)) == moved_index(target_row(target, *old(state)) as int,
            track_len(target, *old(state), *old(data)) as int, delta as int),
        keeps_lists(*final(data), *old(data)),
        final(state).selected_tab == old(state).selected_tab,
        final(state).current_playing_index == old(state).current_playing_index,
{
    let (_, len) = track_offset_and_len(target, state, data);
    let row = move_index(selected_track_row(target, state), len, delta);
    select_track(target, row, state, data);
}

/// The collection tables of the library.
#[derive(Clone, Copy, Debug, PartialEq, Eq, Structural)]
pub enum CollectionTarget {
    Playlist,
    Album,
    Following,
}

/// Where the collection table of a library section is: the first column of
/// the table area, beside its tracks.
pub fn library_collection_region(area: Rect, selected_subtab: usize, search_popup_visible: bool) -> (r: Option<(CollectionTarget, Rect)>)
    ensures
        r == collection_region_of(area, selected_subtab, search_popup_visible),
{
    let cs = if search_popup_visible {
        vec![LayoutConstraint::Length(3), LayoutConstraint::Length(3), LayoutConstraint::Min(0)]
    } else {
        vec![LayoutConstraint::Length(3), LayoutConstraint::Min(0)]
    };
    assert(cs@ =~= library_rows(search_popup_visible));
    let rows = crate::layout::split_constraints(area, true, &cs);
    let table_area = if search_popup_visible { rows[2] } else { rows[1] };
    if selected_subtab == 1 {
        let c = vec![LayoutConstraint::Percentage(33), LayoutConstraint::Percentage(67)];
        assert(c@ =~= two_thirds());
        let cols = crate::layout::split_constraints(table_area, false, &c);
        Some((CollectionTarget::Playlist, cols[0]))
    } else if selected_subtab == 2 {
        let c = vec![LayoutConstraint::Percentage(65), LayoutConstraint::Percentage(35)];
        assert(c@ =~= album_columns());
        let cols = crate::layout::split_constraints(table_area, false, &c);
        Some((CollectionTarget::Album, cols[0]))
    } else if selected_subtab == 3 {
        let c = vec![LayoutConstraint::Percentage(20), LayoutConstraint::Percentage(40), LayoutConstraint::Percentage(40)];
        assert(c@ =~= people_columns());
        let cols = crate::layout::split_constraints(table_area, false, &c);
        Some((CollectionTarget::Following, cols[0]))
    } else {
        None
    }
}

/// The collection table of a library section and where it is: the first
/// column of the table area below the sub-tabs (and the find box when it
/// shows); the liked tracks have none.
pub open spec fn collection_region_of(area: Rect, selected_subtab: usize, search_popup_visible: bool) -> Option<(CollectionTarget, Rect)> {
    let rows = layout_split(area, true, library_rows(search_popup_visible));
    let table_area = rows[if search_popup_visible { 2int } else { 1int }];
    if selected_subtab == 1 {
        Some((CollectionTarget::Playlist, layout_split(table_area, false, two_thirds())[0]))
    } else if selected_subtab == 2 {
        Some((CollectionTarget::Album, layout_split(table_area, false, album_columns())[0]))
    } else if selected_subtab == 3 {
        Some((CollectionTarget::Following, layout_split(table_area, false, people_columns())[0]))
    } else {
        None
    }
}

/// The offset and length of a collection table.
pub open spec fn collection_offset_len(target: CollectionTarget, data: AppData) -> (usize, usize) {
    match target {
        CollectionTarget::Playlist => (data.playlists_state.offset, data.playlists@.len() as usize),
        CollectionTarget::Album => (data.albums_state.offset, data.albums@.len() as usize),
        CollectionTarget::Following => (data.following_state.offset, data.following@.len() as usize),
    }
}

fn collection_offset_and_len(target: CollectionTarget, data: &AppData) -> (r: (usize, usize))
    ensures
        r == collection_offset_len(target, *data),
{
    match target {
        CollectionTarget::Playlist => (data.playlists_state.offset, data.playlists.len()),
        CollectionTarget::Album => (data.albums_state.offset, data.albums.len()),
        CollectionTarget::Following => (data.following_state.offset, data.following.len()),
    }
}

/// Selects a row of a collection table.
fn select_collection(target: CollectionTarget, row: usize, state: &mut AppState, data: &mut AppData)
    ensures
        final(state).selected_row == row,
        keeps_lists(*final(data), *old(data)),
        final(state).selected_tab == old(state).selected_tab,
{
    state.selected_row = row;
    match target {
        CollectionTarget::Playlist => {
            state.selected_playlist_row = row;
            data.playlists_state.select(Some(row));
        },
        CollectionTarget::Album => {
            state.selected_album_row = row;
            data.albums_state.select(Some(row));
        },
        CollectionTarget::Following => data.following_state.select(Some(row)),
    }
}

/// Selects a library section, keeping the rows of the playlist and album collections.
fn select_library_subtab(index: usize, state: &mut AppState, data: &mut AppData)
    ensures
        final(state).selected_subtab == index,
        final(state).selected_row == (if index == 1 { final(state).selected_playlist_row } else if index == 2 { final(state).selected_album_row } else { 0 }),
        final(state).selected_tab == old(state).selected_tab,
        keeps_lists(*final(data), *old(data)),
{
    if state.selected_subtab == 1 {
        state.selected_playlist_row = state.selected_row;
    } else if state.selected_subtab == 2 {
        state.selected_album_row = state.selected_row;
    }
    state.selected_subtab = index;
    state.selected_row = if index == 1 { state.selected_playlist_row } else if index == 2 { state.selected_album_row } else { 0 };
    let row = state.selected_row;
    if index == 0 {
        data.likes_state.select(Some(row));
    } else if index == 1 {
        data.playlists_state.select(Some(row));
    } else if index == 2 {
        data.albums_state.select(Some(row));
    } else if index == 3 {
        data.following_state.select(Some(row));
    }
}

/// Selects a search filter; results go to the top and, unless the input has
/// focus, a search is due.
fn select_search_filter(index: usize, state: &mut AppState, data: &mut AppData)
    ensures
        final(state).selected_searchfilter == index,
        final(state).selected_row == 0,
        final(state).search_needs_fetch == !old(state).search_input_focused,
        final(state).selected_tab == old(state).selected_tab,
        keeps_lists(*final(data), *old(data)),
{
    state.selected_searchfilter = index;
    state.selected_row = 0;
    state.search_selected_playlist_track_row = 0;
    state.search_selected_album_track_row = 0;
    state.search_selected_person_track_row = 0;
    state.search_selected_person_like_row = 0;
    state.search_people_tracks_focus = FollowingTracksFocus::Published;
    state.search_needs_fetch = !state.search_input_focused;
    data.search_tracks_state.select(Some(0));
    data.search_albums_state.select(Some(0));
    data.search_playlists_state.select(Some(0));
    data.search_people_state.select(Some(0));
}

/// Whether a left click gets past the tabs, the section and filter tabs,
/// the progress bar and the collection table, to the track tables: it is
/// not blocked by an overlay or a seek and hits none of them.
pub open spec fn clicked_past_controls(event: MouseInput, area: Rect, state: AppState, data: AppData, is_seeking: bool,
    current_track_urn: Seq<char>, current_duration_ms: u64) -> bool {
    let parts = layout_split(area, true, root_constraints());
    let clicked = !(state.visualizer_mode || state.queue_visible || state.help_visible
        || state.quit_confirm_visible || is_seeking) && event.kind == MouseAction::LeftDown;
    let tab = state.selected_tab;
    let on_tab = event.row == sat(parts[0].y + 1, u16::MAX as int)
        && tab_at(parts[0], seq!["Library"@, "Search"@, "Feed"@], event.column) is Some;
    let content = parts[1];
    let sections = Rect { x: content.x, y: content.y, width: content.width, height: 3 };
    let on_section = tab == 0 && event.row == sat(content.y + 1, u16::MAX as int)
        && tab_at(sections, seq!["Likes"@, "Playlists"@, "Albums"@, "Following"@], event.column) is Some;
    let filters = Rect { x: content.x, y: sat_sub(sat(content.y + content.height, u16::MAX as int), 3) as u16,
        width: content.width, height: 3 };
    let on_filter = tab == 1 && event.row == sat(filters.y + 1, u16::MAX as int) && equal_tab(filters, 4, event.column) is Some;
    let progress = progress_area_of(parts[3]);
    let on_progress = event.row == progress.y && current_track_urn.len() > 0
        && seek_position(progress, event.column, current_duration_ms) is Some;
    let region = collection_region_of(content, state.selected_subtab, state.search_popup_visible);
    let on_collection = tab == 0 && region is Some && {
        let (target, table) = region->0;
        let (offset, len) = collection_offset_len(target, data);
        table.x <= event.column && event.column < table.x + table.width && table_row(table, event.row, offset, len) is Some
    };
    clicked && !on_tab && !on_section && !on_filter && !on_progress && !on_collection
}

/// The first of `regions` whose track table a click hits.
pub open spec fn first_hit(regions: Seq<(TrackTarget, Rect)>, column: u16, row: u16, state: AppState, data: AppData, i: int) -> bool {
    &&& 0 <= i < regions.len()
    &&& track_hit(regions[i], column, row, state, data) is Some
    &&& forall|j: int| 0 <= j < i ==> (#[trigger] track_hit(regions[j], column, row, state, data)) is None
}

/// What Enter asks the player for: the track it starts, if any.
pub open spec fn enter_request(target: Option<PlayTarget>) -> Option<PlayerRequest> {
    match target {
        Some(t) => Some(PlayerRequest::Play(t.2[t.1 as int])),
        None => None,
    }
}

/// Two states that select the same row with the same lists give Enter the
/// same track to play.
pub proof fn lemma_enter_depends_on_the_selection(a: AppState, da: AppData, b: AppState, db: AppData)
    requires
        same_selection(a, b),
        same_content(da, db),
    ensures
        enter_target(a, da) == enter_target(b, db),
{
}

/// What a click on the track tables does: in the first table it hits, a
/// second click on the same row within the double-click window is a double
/// click, which plays what Enter plays with the row selected; any other
/// click selects the row, is remembered as a single click and asks nothing.
/// A click that hits no table changes nothing.
pub open spec fn track_click(regions: Seq<(TrackTarget, Rect)>, column: u16, row: u16, now_ms: u64, clicks0: ClickTracker,
    clicks1: ClickTracker, s0: AppState, d0: AppData, s1: AppState, r: Option<PlayerRequest>) -> bool {
    &&& forall|i: int| #[trigger] first_hit(regions, column, row, s0, d0, i) ==> {
        let hit = track_hit(regions[i], column, row, s0, d0)->0;
        let double = clicks0.last matches Some(p) && p.0 == regions[i].0 && p.1 == hit
            && (if now_ms < p.2 { 0 } else { now_ms - p.2 }) <= DOUBLE_CLICK_WINDOW_MS;
        &&& !double ==> r is None && clicks1.last == Some((regions[i].0, hit, now_ms)) && target_row(regions[i].0, s1) == hit
        &&& double ==> clicks1.last is None && forall|s: AppState| #[trigger] track_selected(s0, s, regions[i].0, hit) ==>
            r == enter_request(enter_target(s, d0))
    }
    &&& (forall|i: int| 0 <= i < regions.len() ==> (#[trigger] track_hit(regions[i], column, row, s0, d0)) is None) ==>
        r is None && clicks1 == clicks0 && s1 == s0
}

/// Selects the row that a click hits in the first track table it hits; a
/// double click on the row plays what Enter would play there.
fn click_track_row(regions: &Vec<(TrackTarget, Rect)>, column: u16, row: u16, now_ms: u64, clicks: &mut ClickTracker,
    state: &mut AppState, data: &mut AppData) -> (r: Option<PlayerRequest>)
    ensures
        track_click(regions@, column, row, now_ms, *old(clicks), *final(clicks), *old(state), *old(data), *final(state), r),
        r matches Some(p) ==> p is Play,
        final(state).selected_tab == old(state).selected_tab,
{
    let mut i: usize = 0;
    while i < regions.len()
        invariant
            i <= regions@.len(),
            *state == *old(state),
            *data == *old(data),
            *clicks == *old(clicks),
            forall|j: int| 0 <= j < i ==> (#[trigger] track_hit(regions@[j], column, row, *state, *data)) is None,
        decreases regions.len() - i,
    {
        let (target, track_area) = regions[i];
        let right = track_area.x as u32 + track_area.width as u32;
        if column >= track_area.x && (column as u32) < right {
            let (offset, len) = track_offset_and_len(target, state, data);
            if let Some(hit) = table_row_at(track_area, row, offset, len) {
                proof {
                    assert(first_hit(regions@, column, row, *old(state), *old(data), i as int));
                    assert forall|k: int| #[trigger] first_hit(regions@, column, row, *old(state), *old(data), k) implies k == i by {
                        if k < i {
                        } else if k > i {
                            assert(track_hit(regions@[i as int], column, row, *old(state), *old(data)) is None);
                        }
                    }
                }
                select_track(target, hit, state, data);
                if clicks.register(target, hit, now_ms) == ClickKind::Double {
                    let ghost selected = *state;
                    let ghost listed = *data;
                    let r = match handle_enter(state, data) {
                        Some(PlayerRequest::Play(t)) => Some(PlayerRequest::Play(t)),
                        _ => None,
                    };
                    proof {
                        assert(r == enter_request(enter_target(selected, listed)));
                        assert forall|s: AppState| #[trigger] track_selected(*old(state), s, target, hit) implies
                            r == enter_request(enter_target(s, *old(data))) by {
                            lemma_enter_depends_on_the_selection(s, *old(data), selected, listed);
                        }
                    }
                    return r;
                }
                return None;
            }
        }
        i += 1;
    }
    None
}

/// A mouse event: what happened, where, and whether Shift was held.
#[derive(Clone, Copy, Debug, PartialEq, Eq, Structural)]
pub struct MouseInput {
    pub kind: MouseAction,
    pub column: u16,
    pub row: u16,
    pub shift: bool,
}

/// The mouse actions the interface reacts to.
#[derive(Clone, Copy, Debug, PartialEq, Eq, Structural)]
pub enum MouseAction {
    ScrollUp,
    ScrollDown,
    LeftDown,
    Other,
}

/// Handles a mouse event over the screen `area` at `now_ms`: the wheel moves
/// the active track selection; clicks select tabs, sections, filters,
/// collection rows and track rows, seek on the progress bar, and a double
/// click on a track row plays it. Nothing happens while an overlay shows or
/// the player seeks.
#[verifier::loop_isolation(false)]
pub fn handle_mouse_event(
    event: MouseInput,
    area: Rect,
    now_ms: u64,
    clicks: &mut ClickTracker,
    state: &mut AppState,
    data: &mut AppData,
    is_seeking: bool,
    current_track_urn: &str,
    current_duration_ms: u64,
) -> (r: Option<PlayerRequest>)
    ensures
        old(state).visualizer_mode || old(state).queue_visible || old(state).help_visible || old(state).quit_confirm_visible || is_seeking ==>
            r is None && *final(clicks) == *old(clicks) && final(state).selected_tab == old(state).selected_tab,
        (event.kind == MouseAction::ScrollUp || event.kind == MouseAction::ScrollDown) ==> r is None && *final(clicks) == *old(clicks),
        event.kind == MouseAction::Other ==> r is None && *final(clicks) == *old(clicks) && *final(state) == *old(state),
        ({
            let content = layout_split(area, true, root_constraints())[1];
            &&& (event.kind == MouseAction::ScrollUp || event.kind == MouseAction::ScrollDown)
                && !(content.y <= event.row && event.row < content.y + content.height) ==> *final(state) == *old(state)
        }),
        r matches Some(p) ==> (p is Seek || p is Play),
        ({
            let parts = layout_split(area, true, root_constraints());
            let clicked = !(old(state).visualizer_mode || old(state).queue_visible || old(state).help_visible
                || old(state).quit_confirm_visible || is_seeking) && event.kind == MouseAction::LeftDown;
            let tab_row = sat(parts[0].y + 1, u16::MAX as int);
            let tab = tab_at(parts[0], seq!["Library"@, "Search"@, "Feed"@], event.column);
            &&& clicked && event.row == tab_row && tab is Some ==> r is None
                && final(state).selected_tab == tab->0 && final(state).selected_row == 0
                && final(state).search_input_focused == (tab->0 == 1)
        }),
        ({
            let parts = layout_split(area, true, root_constraints());
            let clicked = !(old(state).visualizer_mode || old(state).queue_visible || old(state).help_visible
                || old(state).quit_confirm_visible || is_seeking) && event.kind == MouseAction::LeftDown;
            let content = parts[1];
            let filter_row = sat(sat_sub(sat(content.y + content.height, u16::MAX as int), 3) + 1, u16::MAX as int);
            let progress = progress_area_of(parts[3]);
            let position = seek_position(progress, event.column, current_duration_ms);
            &&& clicked && event.row == progress.y && current_track_urn@.len() > 0 && position is Some
                && event.row != sat(parts[0].y + 1, u16::MAX as int)
                && !(old(state).selected_tab == 0 && event.row == sat(content.y + 1, u16::MAX as int))
                && !(old(state).selected_tab == 1 && event.row == filter_row)
                ==> r == Some(PlayerRequest::Seek(position->0))
        }),
        ({
            let content = layout_split(area, true, root_constraints())[1];
            let open = !(old(state).visualizer_mode || old(state).queue_visible || old(state).help_visible
                || old(state).quit_confirm_visible || is_seeking);
            let delta: int = if event.kind == MouseAction::ScrollUp { if event.shift { -5 } else { -1 } } else { if event.shift { 5 } else { 1 } };
            &&& open && (event.kind == MouseAction::ScrollUp || event.kind == MouseAction::ScrollDown)
                && content.y <= event.row && event.row < content.y + content.height
                && active_target(*old(state)) is Some ==> {
                    let t = active_target(*old(state))->0;
                    target_row(t, *final(state)) == moved_index(target_row(t, *old(state)) as int,
                        track_len(t, *old(state), *old(data)) as int, delta)
                }
        }),
        ({
            let parts = layout_split(area, true, root_constraints());
            let clicked = !(old(state).visualizer_mode || old(state).queue_visible || old(state).help_visible
                || old(state).quit_confirm_visible || is_seeking) && event.kind == MouseAction::LeftDown;
            let on_tab = event.row == sat(parts[0].y + 1, u16::MAX as int)
                && tab_at(parts[0], seq!["Library"@, "Search"@, "Feed"@], event.column) is Some;
            let content = parts[1];
            let sections = Rect { x: content.x, y: content.y, width: content.width, height: 3 };
            let section = tab_at(sections, seq!["Likes"@, "Playlists"@, "Albums"@, "Following"@], event.column);
            &&& clicked && !on_tab && old(state).selected_tab == 0 && event.row == sat(content.y + 1, u16::MAX as int)
                && section is Some ==> r is None && final(state).selected_subtab == section->0
                && final(state).selected_tab == 0
        }),
        ({
            let parts = layout_split(area, true, root_constraints());
            let clicked = !(old(state).visualizer_mode || old(state).queue_visible || old(state).help_visible
                || old(state).quit_confirm_visible || is_seeking) && event.kind == MouseAction::LeftDown;
            let on_tab = event.row == sat(parts[0].y + 1, u16::MAX as int)
                && tab_at(parts[0], seq!["Library"@, "Search"@, "Feed"@], event.column) is Some;
            let content = parts[1];
            let filters = Rect { x: content.x, y: sat_sub(sat(content.y + content.height, u16::MAX as int), 3) as u16,
                width: content.width, height: 3 };
            let filter = equal_tab(filters, 4, event.column);
            &&& clicked && !on_tab && old(state).selected_tab == 1 && event.row == sat(filters.y + 1, u16::MAX as int)
                && filter is Some ==> r is None && final(state).selected_searchfilter == filter->0
                && final(state).selected_row == 0 && final(state).selected_tab == 1
                && final(state).search_needs_fetch == !old(state).search_input_focused
        }),
        ({
            let parts = layout_split(area, true, root_constraints());
            let clicked = !(old(state).visualizer_mode || old(state).queue_visible || old(state).help_visible
                || old(state).quit_confirm_visible || is_seeking) && event.kind == MouseAction::LeftDown;
            let on_tab = event.row == sat(parts[0].y + 1, u16::MAX as int)
                && tab_at(parts[0], seq!["Library"@, "Search"@, "Feed"@], event.column) is Some;
            let content = parts[1];
            let sections = Rect { x: content.x, y: content.y, width: content.width, height: 3 };
            let on_section = event.row == sat(content.y + 1, u16::MAX as int)
                && tab_at(sections, seq!["Likes"@, "Playlists"@, "Albums"@, "Following"@], event.column) is Some;
            let progress = progress_area_of(parts[3]);
            let on_progress = event.row == progress.y && current_track_urn@.len() > 0
                && seek_position(progress, event.column, current_duration_ms) is Some;
            let region = collection_region_of(content, old(state).selected_subtab, old(state).search_popup_visible);
            &&& clicked && !on_tab && !on_section && !on_progress && old(state).selected_tab == 0 && region is Some ==> {
                let (target, table) = region->0;
                let (offset, len) = collection_offset_len(target, *old(data));
                let row = table_row(table, event.row, offset, len);
                table.x <= event.column && event.column < table.x + table.width && row is Some ==>
                    r is None && final(state).selected_row == row->0 && final(state).selected_tab == 0
            }
        }),
        clicked_past_controls(event, area, *old(state), *old(data), is_seeking, current_track_urn@, current_duration_ms)
            && old(state).selected_tab < 2 ==>
            track_click(track_regions_of(area, *old(state)), event.column, event.row, now_ms, *old(clicks), *final(clicks),
                *old(state), *old(data), *final(state), r),
{
    if state.visualizer_mode || state.queue_visible || state.help_visible || state.quit_confirm_visible || is_seeking {
        return None;
    }
    let root = root_regions(area);
    let kind = match event.kind {
        MouseAction::ScrollUp => MouseKind::ScrollUp,
        MouseAction::ScrollDown => MouseKind::ScrollDown,
        _ => MouseKind::Other,
    };
    if let Some(delta) = scroll_step(kind, event.shift) {
        let bottom = root.content.y as u32 + root.content.height as u32;
        if event.row >= root.content.y && (event.row as u32) < bottom {
            if let Some(target) = active_track_target(state) {
                move_track_selection(target, delta, state, data);
            }
        }
        return None;
    }
    if event.kind != MouseAction::LeftDown {
        return None;
    }
    let titles: [&str; 3] = ["Library", "Search", "Feed"];
    assert(crate::layout::title_views(titles@) =~= seq!["Library"@, "Search"@, "Feed"@]);
    if event.row == root.tabs.y.saturating_add(1) {
        if let Some(tab) = tab_at_x(root.tabs, &titles, event.column) {
            state.selected_tab = tab;
            state.selected_row = 0;
            state.search_input_focused = tab == 1;
            return None;
        }
    }
    if state.selected_tab == 0 && event.row == root.content.y.saturating_add(1) {
        let subtab_area = Rect { x: root.content.x, y: root.content.y, width: root.content.width, height: 3 };
        let titles: [&str; 4] = ["Likes", "Playlists", "Albums", "Following"];
        assert(crate::layout::title_views(titles@) =~= seq!["Likes"@, "Playlists"@, "Albums"@, "Following"@]);
        if let Some(tab) = tab_at_x(subtab_area, &titles, event.column) {
            select_library_subtab(tab, state, data);
            return None;
        }
    }
    if state.selected_tab == 1 {
        let bottom = root.content.y.saturating_add(root.content.height);
        let filter_area = Rect { x: root.content.x, y: bottom.saturating_sub(3), width: root.content.width, height: 3 };
        if event.row == filter_area.y.saturating_add(1) {
            if let Some(tab) = equal_tab_at_x(filter_area, 4, event.column) {
                select_search_filter(tab, state, data);
                return None;
            }
        }
    }
    let progress_area = now_playing_progress_area(root.now_playing);
    if event.row == progress_area.y && !current_track_urn.is_empty() {
        if let Some(position) = seek_position_ms(progress_area, event.column, current_duration_ms) {
            return Some(PlayerRequest::Seek(position));
        }
    }
    if state.selected_tab == 0 {
        if let Some((target, collection_area)) = library_collection_region(root.content, state.selected_subtab, state.search_popup_visible) {
            let right = collection_area.x as u32 + collection_area.width as u32;
            if event.column >= collection_area.x && (event.column as u32) < right {
                let (offset, len) = collection_offset_and_len(target, data);
                if let Some(row) = table_row_at(collection_area, event.row, offset, len) {
                    select_collection(target, row, state, data);
                    return None;
                }
            }
        }
    }
    let regions = if state.selected_tab == 0 {
        library_track_regions(root.content, state.selected_subtab, state.search_popup_visible)
    } else if state.selected_tab == 1 {
        search_track_regions(root.content, state.selected_searchfilter)
    } else {
        Vec::new()
    };
    click_track_row(&regions, event.column, event.row, now_ms, clicks, state, data)
}


/// Enter, clicks and the wheel act on the same track pane: whatever Enter
/// plays is the selected row of the active track table (the pane that
/// clicks and the wheel move), taken through the find matches for the liked
/// and playlist tracks of the library.
pub proof fn lemma_enter_plays_the_active_row(state: AppState, data: AppData)
    requires
        enter_target(state, data) is Some,
    ensures
        active_target(state) is Some,
        ({
            let t = active_target(state)->0;
            let row = target_row(t, state);
            let played = enter_target(state, data)->0;
            let index = played.1;
            &&& (t == TrackTarget::Likes || t == TrackTarget::Playlist) ==> item_at_row(state, row) == Some(index)
            &&& !(t == TrackTarget::Likes || t == TrackTarget::Playlist) ==> index == row
        }),
{
}

} // verus!
