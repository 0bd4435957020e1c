use sctui::layout::Rect;
use sctui::models::Track;
use sctui::player::{current_or_placeholder, elapsed_ms, preload_needed, stream_source, StreamSource};
use sctui::layout::LayoutConstraint;
use sctui::view::{
    clip_rect, collection_row_tone, column_widths, help_rows, liked_marker, progress_label, toggle_indicator, track_row_tone,
    truncate_with_ellipsis, RowTone,
};
use sctui::wave::{bar_cell_symbol, log_bin_bounds_from, oscilloscope_window, spectrum_bar_widths, split_channels};

fn track() -> Track {
    Track {
        title: "Fixture".into(),
        artists: "Artist".into(),
        duration: "03:00".into(),
        duration_ms: 180_000,
        playback_count: "1".into(),
        artwork_url: String::new(),
        stream_url: String::new(),
        access: "playable".into(),
        playback_restriction: None,
        track_urn: "soundcloud:tracks:1".into(),
    }
}

#[test]
fn nothing_played_yet_shows_the_invitation() {
    let placeholder = current_or_placeholder(None);
    assert_eq!(placeholder.title, "No Track Playing - Press <ENTER> on Something to Play!");
    assert_eq!(placeholder.artists, "N/A");
    assert_eq!(placeholder.duration_ms, 1);
    assert_eq!(current_or_placeholder(Some(track())).title, "Fixture");
}

#[test]
fn elapsed_time_counts_the_running_stretch_only_while_playing() {
    assert_eq!(elapsed_ms(5_000, true, Some(1_500)), 6_500);
    assert_eq!(elapsed_ms(5_000, false, Some(1_500)), 5_000);
    assert_eq!(elapsed_ms(5_000, true, None), 5_000);
}

#[test]
fn streams_prepared_in_advance_are_used_for_their_own_track() {
    assert_eq!(stream_source(Some("soundcloud:tracks:1"), true, "soundcloud:tracks:1"), StreamSource::Preloaded);
    assert_eq!(stream_source(Some("soundcloud:tracks:2"), true, "soundcloud:tracks:1"), StreamSource::Cached);
    assert_eq!(stream_source(None, false, "soundcloud:tracks:1"), StreamSource::Fetch);
    assert!(!preload_needed(Some("soundcloud:tracks:1"), "soundcloud:tracks:1"));
    assert!(preload_needed(Some("soundcloud:tracks:2"), "soundcloud:tracks:1"));
    assert!(preload_needed(None, "soundcloud:tracks:1"));
}

#[test]
fn interleaved_samples_split_into_channels() {
    assert_eq!(split_channels(&vec![1, 2, 3, 4, 5]), (vec![1, 3, 5], vec![2, 4]));
    assert_eq!(split_channels(&vec![7]), (vec![7], vec![7]));
    assert_eq!(split_channels::<i32>(&vec![]), (vec![], vec![]));
}

#[test]
fn oscilloscope_shows_the_newest_whole_frames() {
    assert_eq!(oscilloscope_window(5), (0, 4));
    assert_eq!(oscilloscope_window(1), (0, 0));
    assert_eq!(oscilloscope_window(3001), (1976, 3000));
}

#[test]
fn row_tones_follow_selection_focus_and_playability() {
    assert_eq!(track_row_tone(true, false, true), RowTone::Plain);
    assert_eq!(track_row_tone(false, false, true), RowTone::Unplayable);
    assert_eq!(track_row_tone(true, true, true), RowTone::Selected);
    assert_eq!(track_row_tone(true, true, false), RowTone::SelectedUnfocused);
    assert_eq!(track_row_tone(false, true, true), RowTone::SelectedUnplayable);
    assert_eq!(collection_row_tone(true), RowTone::SelectedCollection);
    assert_eq!(collection_row_tone(false), RowTone::Plain);
    assert_eq!(liked_marker(true), "♥");
    assert_eq!(liked_marker(false), "");
}

#[test]
fn now_playing_texts() {
    assert_eq!(progress_label(61_000, "03:00"), "01:01 / 03:00");
    assert_eq!(progress_label(3_725_000, "02:00:00"), "01:02:05 / 02:00:00");
    assert_eq!(toggle_indicator(true), "✔︎");
    assert_eq!(toggle_indicator(false), "×");
}

#[test]
fn cover_art_is_clipped_to_the_frame() {
    assert_eq!(clip_rect(Rect::new(0, 0, 20, 10), Rect::new(2, 1, 10, 5)), Rect::new(2, 1, 10, 5));
    assert_eq!(clip_rect(Rect::new(5, 2, 3, 2), Rect::new(2, 1, 10, 5)), Rect::new(5, 2, 3, 2));
    assert_eq!(clip_rect(Rect::new(20, 0, 5, 5), Rect::new(2, 1, 10, 5)), Rect::new(20, 1, 0, 4));
    assert_eq!(clip_rect(Rect::new(65_530, 0, 20, 1), Rect::new(0, 0, 65_535, 1)), Rect::new(65_530, 0, 5, 1));
}

#[test]
fn help_rows_fit_the_popup() {
    let all = help_rows(100);
    assert_eq!(all.len(), 28);
    assert_eq!(all[0], ("Ctrl-Q", "Quit immediately"));
    assert_eq!(all[27], ("Shift + H", "Toggle help popup"));
    assert_eq!(help_rows(10).len(), 7);
    assert!(help_rows(2).is_empty());
}

#[test]
fn cells_are_cut_with_an_ellipsis() {
    assert_eq!(truncate_with_ellipsis("Hello", 10), "Hello");
    assert_eq!(truncate_with_ellipsis("Hello", 5), "Hello");
    assert_eq!(truncate_with_ellipsis("Hello world", 6), "Hello…");
    assert_eq!(truncate_with_ellipsis("Hello", 1), "…");
    assert_eq!(truncate_with_ellipsis("Hello", 0), "");
}

#[test]
fn column_widths_follow_lengths_and_shares() {
    let columns = vec![LayoutConstraint::Length(1), LayoutConstraint::Percentage(53), LayoutConstraint::Percentage(26), LayoutConstraint::Min(4)];
    assert_eq!(column_widths(&columns, 100), vec![1, 53, 26, 4]);
    assert_eq!(column_widths(&columns, 37), vec![1, 19, 9, 4]);
}

#[test]
fn spectrum_bars_share_the_pane_width() {
    assert_eq!(spectrum_bar_widths(8), vec![2, 2, 2]);
    assert_eq!(spectrum_bar_widths(9), vec![2, 2, 3]);
    assert_eq!(spectrum_bar_widths(10), vec![2, 3, 3]);
    assert_eq!(spectrum_bar_widths(4), vec![4]);
    assert_eq!(spectrum_bar_widths(1), vec![1]);
    assert_eq!(spectrum_bar_widths(0), vec![1]);
    let wide = spectrum_bar_widths(80);
    assert_eq!(wide.len(), 27);
    assert_eq!(wide.iter().sum::<usize>() + wide.len() - 1, 80);
}

#[test]
fn bar_cells_fill_in_eighths() {
    assert_eq!(bar_cell_symbol(0, 0), " ");
    assert_eq!(bar_cell_symbol(3, 0), "▃");
    assert_eq!(bar_cell_symbol(12, 0), "█");
    assert_eq!(bar_cell_symbol(12, 1), "▄");
    assert_eq!(bar_cell_symbol(12, 2), " ");
}

#[test]
fn spectrum_bin_bounds_stay_ordered_and_leave_room_for_every_bar() {
    assert_eq!(log_bin_bounds_from(&vec![4, 9, 20], 4, 2, 40), vec![2, 4, 9, 20, 40]);
    assert_eq!(log_bin_bounds_from(&vec![2, 2, 2], 4, 2, 40), vec![2, 3, 4, 5, 40]);
    assert_eq!(log_bin_bounds_from(&vec![50, 50, 50], 4, 2, 10), vec![2, 7, 8, 9, 10]);
    assert_eq!(log_bin_bounds_from(&vec![], 0, 0, 0), vec![1, 2]);
    assert_eq!(log_bin_bounds_from(&vec![3, 3], 3, 1, 3), vec![1, 2, 2, 3]);
}
