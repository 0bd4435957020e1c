use std::collections::VecDeque;

use sctui::commands::{handle_key_event, handle_shift_char, KeyCode, KeyInput};
use sctui::control::{
    handle_playback_outcome, on_tick, optional_artwork, preload_threshold, queued_from_current, PlaybackErrorNotice,
    PlayerRequest, PlayerStatus,
};
use sctui::engagement::{apply_engagement_done, enqueue_like_follow_selected};
use sctui::fetch::{plan_fetches, FetchRequest, Pane};
use sctui::filtering::filtered_views;
use sctui::input::{
    character_destination, handle_enter, handle_next_track, handle_prev_track, handle_search_char, handle_search_submit,
    move_index, scroll_step, CharacterDestination, ClickKind, ClickTracker, MouseKind,
};
use sctui::layout::{
    equal_tab_at_x, library_track_regions, root_regions, search_cursor_position, seek_position_ms, tab_at_x, table_row_at,
    Rect, TrackTarget,
};
use sctui::models::{Playlist, Track};
use sctui::player::PlaybackOutcome;
use sctui::pointer::{active_track_page_rows, handle_mouse_event, handle_page_key, MouseAction, MouseInput};
use sctui::queue::{build_queue, take_next_recovery_candidate, RecoveryCandidate};
use sctui::search::build_search_matches;
use sctui::session::{AppData, AppState, EngagementAction, EngagementDone};
use sctui::state::{info_table_rows_count, PlaybackSource, QueuedTrack, VisualizerMode};
use sctui::status::shortcut_window;
use sctui::title::{osc_title_sequence, PlaybackTitleState};

fn track(id: u64) -> Track {
    Track {
        title: format!("Track {id}"),
        artists: "Fixture".into(),
        duration: "03:00".into(),
        duration_ms: 180_000,
        playback_count: "1".into(),
        artwork_url: String::new(),
        stream_url: format!("https://resolver/{id}"),
        access: "playable".into(),
        playback_restriction: None,
        track_urn: format!("soundcloud:tracks:{id}"),
    }
}

fn queued(id: u64) -> QueuedTrack {
    QueuedTrack {
        source: PlaybackSource::Likes,
        index: id as usize,
        track: track(id),
        tracks_snapshot: None,
        playlist_uri: None,
        album_uri: None,
        following_user_urn: None,
        user_added: true,
    }
}

fn library(n: u64) -> AppData {
    AppData::from_library((0..n).map(track).collect(), Vec::new(), Vec::new(), Vec::new(), 0)
}

#[test]
fn root_layout_reserves_status_between_content_and_player() {
    let regions = root_regions(Rect::new(0, 0, 120, 40));

    assert_eq!(regions.tabs, Rect::new(0, 0, 120, 3));
    assert_eq!(regions.content, Rect::new(0, 3, 120, 29));
    assert_eq!(regions.status, Rect::new(0, 32, 120, 1));
    assert_eq!(regions.now_playing, Rect::new(0, 33, 120, 7));
}

#[test]
fn playlist_track_hit_region_matches_the_rendered_right_pane() {
    let regions = library_track_regions(Rect::new(0, 3, 120, 29), 1, false);

    assert_eq!(regions, vec![(TrackTarget::Playlist, Rect::new(40, 6, 80, 26))]);
}

#[test]
fn table_rows_exclude_border_and_header_and_include_scroll_offset() {
    let area = Rect::new(10, 6, 50, 8);

    assert_eq!(table_row_at(area, 7, 20, 100), None);
    assert_eq!(table_row_at(area, 8, 20, 100), Some(20));
    assert_eq!(table_row_at(area, 12, 20, 100), Some(24));
    assert_eq!(table_row_at(area, 13, 20, 100), None);
}

#[test]
fn progress_clicks_map_left_middle_and_right_without_overflow() {
    let area = Rect::new(10, 30, 101, 1);

    assert_eq!(seek_position_ms(area, 10, 240_000), Some(0));
    assert_eq!(seek_position_ms(area, 60, 240_000), Some(120_000));
    assert_eq!(seek_position_ms(area, 110, 240_000), Some(240_000));
    assert_eq!(seek_position_ms(area, 111, 240_000), None);
    assert_eq!(seek_position_ms(area, 10, 0), Some(0));
    assert_eq!(seek_position_ms(area, 110, u64::MAX), Some(u64::MAX / 100));
}

#[test]
fn tab_hits_follow_rendered_padding_titles_and_dividers() {
    let area = Rect::new(0, 0, 120, 3);

    assert_eq!(tab_at_x(area, &["Library", "Search", "Feed"], 1), Some(0));
    assert_eq!(tab_at_x(area, &["Library", "Search", "Feed"], 9), Some(0));
    assert_eq!(tab_at_x(area, &["Library", "Search", "Feed"], 10), None);
    assert_eq!(tab_at_x(area, &["Library", "Search", "Feed"], 11), Some(1));
    assert_eq!(tab_at_x(area, &["Library", "Search", "Feed"], 20), Some(2));
}

#[test]
fn equal_width_filter_tabs_include_both_outer_quarters() {
    let area = Rect::new(0, 10, 102, 3);

    assert_eq!(equal_tab_at_x(area, 4, 1), Some(0));
    assert_eq!(equal_tab_at_x(area, 4, 25), Some(0));
    assert_eq!(equal_tab_at_x(area, 4, 26), Some(1));
    assert_eq!(equal_tab_at_x(area, 4, 100), Some(3));
}

#[test]
fn search_cursor_tracks_the_end_of_centered_input_and_stays_inside_its_border() {
    let area = Rect::new(10, 5, 20, 3);
    let cases = [("", (20, 6)), ("rust", (22, 6)), ("音", (21, 6)), ("123456789012345678", (28, 6))];

    let observed = cases.iter().map(|(query, _)| search_cursor_position(area, query)).collect::<Vec<_>>();
    let expected = cases.iter().map(|(_, expected)| Some(*expected)).collect::<Vec<_>>();

    assert_eq!(observed, expected);
    assert_eq!(search_cursor_position(Rect::new(0, 0, 2, 3), "x"), None);
    assert_eq!(search_cursor_position(Rect::new(0, 0, 20, 2), "x"), None);
}

#[test]
fn shifted_characters_still_belong_to_search_input() {
    assert_eq!(character_destination(1, true), CharacterDestination::SearchInput);
    assert_eq!(character_destination(0, true), CharacterDestination::ShiftCommand);
    assert_eq!(character_destination(0, false), CharacterDestination::LibraryCommand);
    assert_eq!(character_destination(2, false), CharacterDestination::Ignore);
}

#[test]
fn search_editing_waits_for_enter_then_submits_once() {
    let mut state = AppState::new();
    state.selected_tab = 1;
    state.search_input_focused = true;

    handle_search_char('x', &mut state);
    assert_eq!(state.query, "x");
    assert!(!state.search_needs_fetch);
    assert!(state.search_input_focused);
    assert_eq!(state.search_results_request_id, 1);
    assert_eq!(state.search_playlist_tracks_request_id, 1);
    assert_eq!(state.search_album_tracks_request_id, 1);
    assert_eq!(state.search_people_tracks_request_id, 1);
    assert_eq!(state.search_people_likes_request_id, 1);

    assert!(handle_search_submit(&mut state));
    assert!(state.search_needs_fetch);
    assert!(!state.search_input_focused);

    assert!(!handle_search_submit(&mut state));
}

#[test]
fn double_click_requires_same_track_within_the_injected_deadline() {
    let mut clicks = ClickTracker::new();

    assert_eq!(clicks.register(TrackTarget::Likes, 3, 1_000), ClickKind::Single);
    assert_eq!(clicks.register(TrackTarget::Likes, 4, 1_100), ClickKind::Single);
    assert_eq!(clicks.register(TrackTarget::Likes, 4, 1_499), ClickKind::Double);
    assert_eq!(clicks.register(TrackTarget::Likes, 4, 1_900), ClickKind::Single);
}

#[test]
fn wheel_steps_classify_direction_and_shift_modifier() {
    let cases = [
        (MouseKind::ScrollUp, false, -1),
        (MouseKind::ScrollDown, false, 1),
        (MouseKind::ScrollUp, true, -5),
        (MouseKind::ScrollDown, true, 5),
    ];

    let observed = cases.iter().map(|(kind, shift, _)| scroll_step(*kind, *shift)).collect::<Vec<_>>();
    let expected = cases.iter().map(|(_, _, expected)| Some(*expected)).collect::<Vec<_>>();

    assert_eq!(observed, expected);
    assert_eq!(scroll_step(MouseKind::Other, true), None);
}

#[test]
fn selection_movement_clamps_over_complete_boundary_set() {
    let cases = [(0, 0, 1, 0), (0, 10, -1, 0), (0, 10, 1, 1), (4, 10, 5, 9), (9, 10, 5, 9), (4, 10, -5, 0)];

    let observed = cases.iter().map(|(current, len, delta, _)| move_index(*current, *len, *delta)).collect::<Vec<_>>();
    let expected = cases.iter().map(|(_, _, _, expected)| *expected).collect::<Vec<_>>();

    assert_eq!(observed, expected);
}

#[test]
fn page_size_comes_from_the_active_rendered_track_pane() {
    let area = Rect::new(0, 0, 120, 40);
    let mut state = AppState::new();

    assert_eq!(active_track_page_rows(area, &state), 23);
    state.selected_subtab = 1;
    assert_eq!(active_track_page_rows(area, &state), 23);
    state.selected_tab = 1;
    state.selected_searchfilter = 0;
    assert_eq!(active_track_page_rows(area, &state), 20);
    assert_eq!(active_track_page_rows(Rect::new(0, 0, 120, 10), &state), 0);
}

#[test]
fn optional_artwork_errors_are_visible_and_success_clears_them() {
    let mut notice = None;
    assert_eq!(optional_artwork::<u8>(Err("decoder failed".to_string()), &mut notice), None);
    assert_eq!(notice.as_deref(), Some("Cover art unavailable: decoder failed"));
    assert_eq!(optional_artwork(Ok(7u8), &mut notice), Some(7));
    assert_eq!(notice, None);
}

#[test]
fn playback_recovery_consumes_manual_then_automatic_candidates_once() {
    let tracks = vec![track(0), track(1), track(2)];
    let mut manual = VecDeque::from([queued(9)]);
    let mut automatic = VecDeque::from([2]);

    assert!(matches!(
        take_next_recovery_candidate(&mut manual, &mut automatic, &tracks),
        Some(RecoveryCandidate::Manual(candidate)) if candidate.track.track_urn == "soundcloud:tracks:9"
    ));
    assert!(matches!(
        take_next_recovery_candidate(&mut manual, &mut automatic, &tracks),
        Some(RecoveryCandidate::Automatic { index: 2, track }) if track.track_urn == "soundcloud:tracks:2"
    ));
    assert!(take_next_recovery_candidate(&mut manual, &mut automatic, &tracks).is_none());
}

#[test]
fn playback_recovery_discards_stale_automatic_indices() {
    let tracks = vec![track(0)];
    let mut manual = VecDeque::new();
    let mut automatic = VecDeque::from([12]);

    assert!(take_next_recovery_candidate(&mut manual, &mut automatic, &tracks).is_none());
    assert!(automatic.is_empty());
}

#[test]
fn approved_status_views_are_stable_at_common_widths() {
    assert_eq!(
        shortcut_window(120, 0),
        "Ctrl-Q Quit │ Esc Quit menu │ Tab Main tab │ ←/→ Section │ ↑/↓ Select │ Enter Play │ Space Pause │ ⇧←/→ Previous/next │ "
    );
    assert_eq!(
        shortcut_window(80, 0),
        "Ctrl-Q Quit │ Esc Quit menu │ Tab Main tab │ ←/→ Section │ ↑/↓ Select │ Enter Pl"
    );
    assert_eq!(
        shortcut_window(120, 120),
        "Alt←/→ Seek ±10s │ Alt↑/↓ Move ±10 │ ⇧↑/↓ Secondary │ ⇧J/K Tertiary │ ⇧U/D Volume │ ⇧S Shuffle │ ⇧R Repeat │ ⇧A Add queu"
    );
    assert_eq!(shortcut_window(0, 7), "");
    assert_eq!(shortcut_window(2000, 7).chars().count(), sctui::status::SHORTCUTS.chars().count());
}

#[test]
fn title_sequence_matches_the_cross_terminal_osc_two_form() {
    assert_eq!(osc_title_sequence("🔊 sctui"), "\u{1b}]2;🔊 sctui\u{7}");
}

#[test]
fn title_updates_only_on_playback_transitions_and_removes_the_speaker_on_stop() {
    let mut state = PlaybackTitleState::new();
    let observed = [false, false, true, true, false].into_iter().map(|playing| state.next_title(playing)).collect::<Vec<_>>();

    assert_eq!(observed, vec![Some("sctui"), None, Some("🔊 sctui"), None, Some("sctui")]);
}

#[test]
fn visualizer_views_alternate_and_info_has_two_rows() {
    assert_eq!(VisualizerMode::Oscilloscope.next(), VisualizerMode::SpectrumBars);
    assert_eq!(VisualizerMode::SpectrumBars.next(), VisualizerMode::Oscilloscope);
    assert_eq!(VisualizerMode::SpectrumBars.label(), "Cava");
    assert_eq!(VisualizerMode::Oscilloscope.label(), "Oscilloscope");
    assert_eq!(info_table_rows_count(), 2);
}

#[test]
fn queues_skip_the_current_and_unplayable_tracks() {
    let mut tracks = vec![track(0), track(1), track(2), track(3)];
    tracks[2].access = "blocked".into();
    assert_eq!(Vec::from(build_queue(0, &tracks, false)), vec![1, 3]);
    assert_eq!(Vec::from(build_queue(3, &tracks, false)), Vec::<usize>::new());
    let mut shuffled = Vec::from(build_queue(1, &tracks, true));
    shuffled.sort();
    assert_eq!(shuffled, vec![0, 3]);
}

#[test]
fn find_ranks_matches_best_first() {
    let mut tracks = vec![track(0), track(1), track(2)];
    tracks[0].title = "Another Song".into();
    tracks[1].title = "Song".into();
    tracks[2].title = "Nothing".into();
    let matches = build_search_matches(0, "  SONG ", &tracks, &Vec::new(), &Vec::new(), &Vec::new(), &Vec::new());
    assert_eq!(matches, vec![1, 0]);
    assert!(build_search_matches(0, "   ", &tracks, &Vec::new(), &Vec::new(), &Vec::new(), &Vec::new()).is_empty());
    assert!(build_search_matches(4, "song", &tracks, &Vec::new(), &Vec::new(), &Vec::new(), &Vec::new()).is_empty());
    assert!(build_search_matches(0, "zzz", &tracks, &Vec::new(), &Vec::new(), &Vec::new(), &Vec::new()).is_empty());
}

#[test]
fn enter_plays_the_selected_like_and_builds_the_queue() {
    let mut state = AppState::new();
    let mut data = library(4);
    state.selected_row = 1;
    match handle_enter(&mut state, &mut data) {
        Some(PlayerRequest::Play(t)) => assert_eq!(t.track_urn, "soundcloud:tracks:1"),
        other => panic!("unexpected {other:?}"),
    }
    assert_eq!(state.current_playing_index, Some(1));
    assert_eq!(Vec::from(state.auto_queue.clone()), vec![2, 3]);
    assert_eq!(data.likes_state.selected, Some(1));
}

#[test]
fn next_then_previous_returns_to_the_same_track() {
    let mut state = AppState::new();
    let mut data = library(4);
    state.selected_row = 0;
    handle_enter(&mut state, &mut data);
    state.manual_queue.push_back(queued(3));
    match handle_next_track(&mut state, &mut data) {
        Some(PlayerRequest::Play(t)) => assert_eq!(t.track_urn, "soundcloud:tracks:3"),
        other => panic!("unexpected {other:?}"),
    }
    assert_eq!(state.playback_history.len(), 1);
    match handle_prev_track(&mut state, &mut data) {
        Some(PlayerRequest::Play(t)) => assert_eq!(t.track_urn, "soundcloud:tracks:0"),
        other => panic!("unexpected {other:?}"),
    }
    assert!(state.playback_history.is_empty());
    assert_eq!(state.manual_queue.len(), 1);
    assert!(!state.manual_queue[0].user_added);
}

#[test]
fn failures_of_the_newest_request_advance_and_show_a_notice() {
    let mut state = AppState::new();
    let mut data = library(3);
    handle_enter(&mut state, &mut data);
    let mut notice = None;
    let failure = PlaybackOutcome::Failed { attempt_id: 5, track_urn: "soundcloud:tracks:0".into(), message: "403".into() };
    match handle_playback_outcome(&mut state, &mut data, &mut notice, &failure, 5, 1000) {
        Some(PlayerRequest::Play(t)) => assert_eq!(t.track_urn, "soundcloud:tracks:1"),
        other => panic!("unexpected {other:?}"),
    }
    let n: &PlaybackErrorNotice = notice.as_ref().unwrap();
    assert_eq!(n.message_at(6999), Some("403"));
    assert_eq!(n.message_at(7000), None);
    assert!(handle_playback_outcome(&mut state, &mut data, &mut notice, &failure, 6, 2000).is_none());
}

#[test]
fn the_end_of_a_track_advances_once() {
    let mut state = AppState::new();
    let mut data = library(3);
    handle_enter(&mut state, &mut data);
    let status = PlayerStatus { is_playing: true, is_seeking: false, current_track: track(0), progress_ms: 179_990 };
    let first = on_tick(&mut state, &mut data, &status);
    assert!(first.iter().any(|r| matches!(r, PlayerRequest::Play(t) if t.track_urn == "soundcloud:tracks:1")));
    let second = on_tick(&mut state, &mut data, &status);
    assert!(second.iter().all(|r| !matches!(r, PlayerRequest::Play(_) | PlayerRequest::Pause)));
    assert_eq!(preload_threshold(180_000), 144_000);
    assert_eq!(preload_threshold(7), 5);
}

#[test]
fn the_end_of_a_track_plays_the_manual_queue_first_then_repeats_or_pauses() {
    let mut state = AppState::new();
    let mut data = library(3);
    handle_enter(&mut state, &mut data);
    state.manual_queue.push_back(queued(2));
    let status = PlayerStatus { is_playing: true, is_seeking: false, current_track: track(0), progress_ms: 179_990 };
    let requests = on_tick(&mut state, &mut data, &status);
    assert_eq!(requests.len(), 1);
    assert!(matches!(&requests[0], PlayerRequest::Play(t) if t.track_urn == "soundcloud:tracks:2"));
    assert!(state.manual_queue.is_empty());

    let mut state = AppState::new();
    let mut data = library(3);
    handle_enter(&mut state, &mut data);
    state.repeat_enabled = true;
    let requests = on_tick(&mut state, &mut data, &status);
    assert!(matches!(&requests[..], [PlayerRequest::Play(t)] if t.track_urn == "soundcloud:tracks:0"));

    let mut state = AppState::new();
    let mut data = library(1);
    handle_enter(&mut state, &mut data);
    let requests = on_tick(&mut state, &mut data, &status);
    assert!(matches!(&requests[..], [PlayerRequest::Pause]));
    assert_eq!(state.current_playing_index, None);
}

#[test]
fn the_queue_of_the_playing_entry_is_what_goes_to_history() {
    let mut state = AppState::new();
    let mut data = library(2);
    assert!(queued_from_current(&state, &data).is_none());
    handle_enter(&mut state, &mut data);
    let current = queued_from_current(&state, &data).unwrap();
    assert_eq!(current.index, 0);
    assert!(!current.user_added);
}

#[test]
fn like_toggles_are_queued_and_marked_at_once() {
    let mut state = AppState::new();
    let mut data = library(2);
    enqueue_like_follow_selected(&mut state, &mut data);
    assert!(matches!(state.engagement_queue.back(), Some(EngagementAction::UnlikeTrack { track_id: 0, .. })));
    assert!(!data.liked_track_urns.contains("soundcloud:tracks:0"));

    apply_engagement_done(&mut state, &mut data, EngagementDone::UnlikedTrack { track_urn: "soundcloud:tracks:0".into() });
    assert_eq!(data.likes.len(), 1);
    assert_eq!(data.likes[0].track_urn, "soundcloud:tracks:1");

    let playlist = Playlist {
        title: "Mix".into(),
        track_count: "3".into(),
        duration: "9:00".into(),
        created_at: 0,
        tracks_uri: "https://api.soundcloud.com/playlists/77/tracks".into(),
        is_owned: true,
    };
    data.add_playlists(vec![playlist]);
    state.selected_subtab = 1;
    state.selected_row = 0;
    enqueue_like_follow_selected(&mut state, &mut data);
    match state.engagement_queue.back() {
        Some(EngagementAction::LikePlaylist { playlist, playlist_id }) => {
            assert_eq!(*playlist_id, 77);
            assert!(!playlist.is_owned);
        }
        other => panic!("unexpected {other:?}"),
    }
    assert!(data.liked_playlist_uris.contains("https://api.soundcloud.com/playlists/77/tracks"));
}

#[test]
fn keys_dispatch_to_their_handlers() {
    let mut state = AppState::new();
    let mut data = library(3);
    let status = PlayerStatus { is_playing: true, is_seeking: false, current_track: track(0), progress_ms: 0 };
    let key = |code| KeyInput { code, shift: false, alt: false };
    let (_, req) = handle_key_event(key(KeyCode::Char(' ')), &status, &mut state, &mut data);
    assert!(matches!(req, Some(PlayerRequest::Pause)));
    handle_key_event(key(KeyCode::Down), &status, &mut state, &mut data);
    assert_eq!(state.selected_row, 1);
    handle_key_event(key(KeyCode::Right), &status, &mut state, &mut data);
    assert_eq!(state.selected_subtab, 1);
    handle_key_event(key(KeyCode::Esc), &status, &mut state, &mut data);
    assert!(state.quit_confirm_visible);
    assert!(matches!(handle_shift_char('U', &mut state, &mut data), Some(PlayerRequest::VolumeUp)));
    handle_shift_char('s', &mut state, &mut data);
    assert!(state.shuffle_enabled);
}

#[test]
fn page_keys_move_the_track_selection_by_one_visible_page() {
    let mut state = AppState::new();
    let mut data = library(100);
    let area = Rect::new(0, 0, 120, 40);
    let page = active_track_page_rows(area, &state);
    assert!(page > 0);
    handle_page_key(true, area, false, &mut state, &mut data);
    assert_eq!(state.selected_row, page);
    handle_page_key(true, area, true, &mut state, &mut data);
    assert_eq!(state.selected_row, page);
    handle_page_key(false, area, false, &mut state, &mut data);
    assert_eq!(state.selected_row, 0);
    for _ in 0..10 {
        handle_page_key(true, area, false, &mut state, &mut data);
    }
    assert_eq!(state.selected_row, 99);
}

#[test]
fn the_next_track_is_fetched_ahead_once_per_track() {
    let mut state = AppState::new();
    let mut data = library(3);
    handle_enter(&mut state, &mut data);
    state.manual_queue.push_back(queued(2));
    let early = PlayerStatus { is_playing: true, is_seeking: false, current_track: track(0), progress_ms: 100_000 };
    assert!(on_tick(&mut state, &mut data, &early).is_empty());
    let late = PlayerStatus { is_playing: true, is_seeking: false, current_track: track(0), progress_ms: 150_000 };
    let first = on_tick(&mut state, &mut data, &late);
    assert_eq!(first.len(), 1);
    assert!(matches!(&first[0], PlayerRequest::PreloadNext(t) if t.track_urn == "soundcloud:tracks:2"));
    let second = on_tick(&mut state, &mut data, &late);
    assert!(second.is_empty());
    assert_eq!(state.manual_queue.len(), 1);

    let mut state = AppState::new();
    let mut data = library(3);
    handle_enter(&mut state, &mut data);
    let ahead = on_tick(&mut state, &mut data, &late);
    assert!(matches!(&ahead[..], [PlayerRequest::PreloadNext(t)] if t.track_urn == "soundcloud:tracks:1"));

    let mut state = AppState::new();
    let mut data = library(3);
    handle_enter(&mut state, &mut data);
    state.repeat_enabled = true;
    assert!(on_tick(&mut state, &mut data, &late).is_empty());
}

#[test]
fn the_wheel_and_clicks_on_sections_and_filters_change_the_selection() {
    let area = Rect::new(0, 0, 120, 40);
    let root = root_regions(area);
    let mut clicks = ClickTracker::new();
    let mut state = AppState::new();
    let mut data = library(10);
    let at = |kind, column, row, shift| MouseInput { kind, column, row, shift };

    let wheel = at(MouseAction::ScrollDown, 10, root.content.y + 5, false);
    assert!(handle_mouse_event(wheel, area, 0, &mut clicks, &mut state, &mut data, false, "", 0).is_none());
    assert_eq!(state.selected_row, 1);
    let wheel = at(MouseAction::ScrollDown, 10, root.content.y + 5, true);
    handle_mouse_event(wheel, area, 0, &mut clicks, &mut state, &mut data, false, "", 0);
    assert_eq!(state.selected_row, 6);
    let wheel = at(MouseAction::ScrollUp, 10, root.content.y + 5, true);
    handle_mouse_event(wheel, area, 0, &mut clicks, &mut state, &mut data, false, "", 0);
    assert_eq!(state.selected_row, 1);

    let sections = Rect::new(root.content.x, root.content.y, root.content.width, 3);
    let titles = ["Likes", "Playlists", "Albums", "Following"];
    let column = (0..120).find(|&x| tab_at_x(sections, &titles, x) == Some(2)).unwrap();
    let click = at(MouseAction::LeftDown, column, root.content.y + 1, false);
    assert!(handle_mouse_event(click, area, 0, &mut clicks, &mut state, &mut data, false, "", 0).is_none());
    assert_eq!(state.selected_subtab, 2);
    assert_eq!(state.selected_tab, 0);

    state.selected_tab = 1;
    state.search_input_focused = false;
    let bottom = root.content.y + root.content.height;
    let filters = Rect::new(root.content.x, bottom - 3, root.content.width, 3);
    let column = (0..120).find(|&x| equal_tab_at_x(filters, 4, x) == Some(3)).unwrap();
    let click = at(MouseAction::LeftDown, column, filters.y + 1, false);
    assert!(handle_mouse_event(click, area, 0, &mut clicks, &mut state, &mut data, false, "", 0).is_none());
    assert_eq!(state.selected_searchfilter, 3);
    assert!(state.search_needs_fetch);

    state.help_visible = true;
    let click = at(MouseAction::LeftDown, column, filters.y + 1, false);
    state.selected_searchfilter = 0;
    handle_mouse_event(click, area, 0, &mut clicks, &mut state, &mut data, false, "", 0);
    assert_eq!(state.selected_searchfilter, 0);
}

#[test]
fn a_click_selects_a_track_row_and_a_double_click_plays_it() {
    let area = Rect::new(0, 0, 120, 40);
    let root = root_regions(area);
    let regions = library_track_regions(root.content, 0, false);
    let (target, table) = regions[0];
    assert_eq!(target, TrackTarget::Likes);
    let mut clicks = ClickTracker::new();
    let mut state = AppState::new();
    let mut data = library(10);
    let click = MouseInput { kind: MouseAction::LeftDown, column: table.x + 3, row: table.y + 2 + 3, shift: false };
    assert!(handle_mouse_event(click, area, 1_000, &mut clicks, &mut state, &mut data, false, "", 0).is_none());
    assert_eq!(state.selected_row, 3);
    assert_eq!(state.current_playing_index, None);
    let played = handle_mouse_event(click, area, 1_300, &mut clicks, &mut state, &mut data, false, "", 0);
    assert!(matches!(played, Some(PlayerRequest::Play(t)) if t.track_urn == "soundcloud:tracks:3"));
    assert_eq!(state.current_playing_index, Some(3));

    let later = MouseInput { row: table.y + 2 + 5, ..click };
    handle_mouse_event(later, area, 2_000, &mut clicks, &mut state, &mut data, false, "", 0);
    assert!(handle_mouse_event(later, area, 2_500, &mut clicks, &mut state, &mut data, false, "", 0).is_none());
    assert_eq!(state.selected_row, 5);
    assert_eq!(state.current_playing_index, Some(3));
}

#[test]
fn enter_plays_the_row_that_the_wheel_selected() {
    let area = Rect::new(0, 0, 120, 40);
    let root = root_regions(area);
    let mut clicks = ClickTracker::new();
    let mut state = AppState::new();
    let mut data = library(10);
    let wheel = MouseInput { kind: MouseAction::ScrollDown, column: 10, row: root.content.y + 5, shift: false };
    for _ in 0..3 {
        handle_mouse_event(wheel, area, 0, &mut clicks, &mut state, &mut data, false, "", 0);
    }
    let played = handle_enter(&mut state, &mut data);
    assert!(matches!(played, Some(PlayerRequest::Play(t)) if t.track_urn == "soundcloud:tracks:3"));
}

#[test]
fn the_selection_asks_for_the_lists_it_shows_once() {
    let playlist = |id: u64| Playlist {
        title: format!("Mix {id}"),
        track_count: "3".into(),
        duration: "9:00".into(),
        created_at: 0,
        tracks_uri: format!("https://api.soundcloud.com/playlists/{id}/tracks"),
        is_owned: true,
    };
    let mut state = AppState::new();
    let mut data = AppData::from_library(Vec::new(), vec![playlist(7), playlist(8)], Vec::new(), Vec::new(), 0);
    state.selected_subtab = 1;
    state.selected_row = 1;
    let filtered = filtered_views(&mut state, &mut data);
    let requests = plan_fetches(&mut state, &mut data, &filtered);
    assert_eq!(requests.len(), 1);
    match &requests[0] {
        FetchRequest::PlaylistTracks { pane, request_id, tracks_uri } => {
            assert_eq!(*pane, Pane::Library);
            assert_eq!(*request_id, 1);
            assert_eq!(tracks_uri, "https://api.soundcloud.com/playlists/8/tracks");
        }
        other => panic!("unexpected {other:?}"),
    }
    let filtered = filtered_views(&mut state, &mut data);
    assert!(plan_fetches(&mut state, &mut data, &filtered).is_empty());

    state.selected_tab = 1;
    state.query = "night drive".into();
    state.search_needs_fetch = true;
    let filtered = filtered_views(&mut state, &mut data);
    let requests = plan_fetches(&mut state, &mut data, &filtered);
    assert!(matches!(&requests[..], [FetchRequest::Search { request_id: 1, filter: 0, query }] if query == "night drive"));
    let filtered = filtered_views(&mut state, &mut data);
    assert!(plan_fetches(&mut state, &mut data, &filtered).is_empty());
}

#[test]
fn skipping_forward_walks_the_automatic_queue() {
    let mut state = AppState::new();
    let mut data = library(3);
    handle_enter(&mut state, &mut data);
    let first = handle_next_track(&mut state, &mut data);
    assert!(matches!(first, Some(PlayerRequest::Play(t)) if t.track_urn == "soundcloud:tracks:1"));
    assert_eq!(state.current_playing_index, Some(1));
    let second = handle_next_track(&mut state, &mut data);
    assert!(matches!(second, Some(PlayerRequest::Play(t)) if t.track_urn == "soundcloud:tracks:2"));
    assert_eq!(state.current_playing_index, Some(2));
    assert!(state.auto_queue.is_empty());
}

#[test]
fn the_end_of_a_track_records_the_finished_track_and_consumes_the_queue_head() {
    let mut state = AppState::new();
    let mut data = library(3);
    handle_enter(&mut state, &mut data);
    state.manual_queue.push_back(queued(2));
    state.manual_queue.push_back(queued(1));
    let status = PlayerStatus { is_playing: true, is_seeking: false, current_track: track(0), progress_ms: 179_990 };
    on_tick(&mut state, &mut data, &status);
    assert_eq!(state.manual_queue.len(), 1);
    assert_eq!(state.manual_queue[0].track.track_urn, "soundcloud:tracks:1");
    assert_eq!(state.playback_history.len(), 1);
    assert_eq!(state.playback_history[0].track.track_urn, "soundcloud:tracks:0");

    let mut state = AppState::new();
    let mut data = library(3);
    handle_enter(&mut state, &mut data);
    on_tick(&mut state, &mut data, &status);
    assert_eq!(Vec::from(state.auto_queue.clone()), vec![2]);
    assert_eq!(state.playback_history.len(), 1);
    assert_eq!(state.playback_history[0].track.track_urn, "soundcloud:tracks:0");
}

#[test]
fn shifted_keys_change_the_state_they_name() {
    let mut state = AppState::new();
    let mut data = library(5);
    state.selected_row = 1;
    handle_enter(&mut state, &mut data);
    let status = PlayerStatus { is_playing: true, is_seeking: false, current_track: track(1), progress_ms: 0 };
    let shifted = |c| KeyInput { code: KeyCode::Char(c), shift: true, alt: false };

    handle_key_event(shifted('S'), &status, &mut state, &mut data);
    assert!(state.shuffle_enabled);
    let mut shuffled: Vec<usize> = state.auto_queue.iter().copied().collect();
    shuffled.sort();
    assert_eq!(shuffled, vec![0, 2, 3, 4]);
    handle_key_event(shifted('S'), &status, &mut state, &mut data);
    assert!(!state.shuffle_enabled);
    assert_eq!(Vec::from(state.auto_queue.clone()), vec![2, 3, 4]);

    handle_key_event(shifted('R'), &status, &mut state, &mut data);
    assert!(state.repeat_enabled);
    handle_key_event(shifted('A'), &status, &mut state, &mut data);
    assert_eq!(state.manual_queue.len(), 1);
    assert_eq!(state.manual_queue[0].track.track_urn, "soundcloud:tracks:1");
    handle_key_event(shifted('H'), &status, &mut state, &mut data);
    assert!(state.help_visible);

    state.auto_queue.clear();
    handle_key_event(shifted('Q'), &status, &mut state, &mut data);
    assert!(state.queue_visible);
    assert_eq!(Vec::from(state.auto_queue.clone()), vec![2, 3, 4]);

    let before_row = state.selected_row;
    let (_, req) = handle_key_event(shifted('X'), &status, &mut state, &mut data);
    assert!(req.is_none());
    assert_eq!(state.selected_row, before_row);
    assert!(state.queue_visible && state.help_visible && state.repeat_enabled);
    assert_eq!(state.current_playing_index, Some(1));
}

#[test]
fn a_failed_start_moves_on_through_the_queues() {
    let mut state = AppState::new();
    let mut data = library(4);
    handle_enter(&mut state, &mut data);
    state.manual_queue.push_back(queued(3));
    let mut notice = None;
    let failure = PlaybackOutcome::Failed { attempt_id: 2, track_urn: "soundcloud:tracks:0".into(), message: "gone".into() };
    match handle_playback_outcome(&mut state, &mut data, &mut notice, &failure, 2, 10) {
        Some(PlayerRequest::Play(t)) => assert_eq!(t.track_urn, "soundcloud:tracks:3"),
        other => panic!("unexpected {other:?}"),
    }
    assert!(state.manual_queue.is_empty());
    assert_eq!(Vec::from(state.auto_queue.clone()), vec![1, 2, 3]);

    match handle_playback_outcome(&mut state, &mut data, &mut notice, &failure, 2, 20) {
        Some(PlayerRequest::Play(t)) => assert_eq!(t.track_urn, "soundcloud:tracks:1"),
        other => panic!("unexpected {other:?}"),
    }
    assert_eq!(state.current_playing_index, Some(1));
    assert_eq!(Vec::from(state.auto_queue.clone()), vec![2, 3]);

    state.auto_queue.clear();
    assert!(matches!(handle_playback_outcome(&mut state, &mut data, &mut notice, &failure, 2, 30), Some(PlayerRequest::Pause)));
    assert!(handle_playback_outcome(&mut state, &mut data, &mut notice, &failure, 3, 40).is_none());
    assert_eq!(notice.as_ref().unwrap().shown_at_ms, 30);
}
