use sctui::commands::{KeyCode, KeyInput};
use sctui::control::{
    artwork_step, note_terminal_fallback, resolve_image_picker, ArtworkStep, status_error, GraphicsProtocol, PickerSettings, PlaybackErrorNotice,
    PLAYBACK_ERROR_NOTICE_MS,
};
use sctui::hls::resolver_status_message;
use sctui::dialogs::{handle_find_input, handle_quit_confirm, quits_immediately};
use sctui::input::InputOutcome;
use sctui::models::Track;
use sctui::session::{AppData, AppState};

fn track(title: &str) -> Track {
    Track {
        title: title.into(),
        artists: "Fixture".into(),
        duration: "03:00".into(),
        duration_ms: 180_000,
        playback_count: "1".into(),
        artwork_url: String::new(),
        stream_url: String::new(),
        access: "playable".into(),
        playback_restriction: None,
        track_urn: format!("soundcloud:tracks:{title}"),
    }
}

fn key(code: KeyCode) -> KeyInput {
    KeyInput { code, shift: false, alt: false }
}

#[test]
fn quit_dialog_confirms_or_closes() {
    let mut state = AppState::new();
    state.quit_confirm_visible = true;
    state.quit_confirm_selected = 1;
    assert_eq!(handle_quit_confirm(KeyCode::Enter, &mut state), InputOutcome::Continue);
    assert!(!state.quit_confirm_visible);

    state.quit_confirm_visible = true;
    state.quit_confirm_selected = 1;
    assert_eq!(handle_quit_confirm(KeyCode::Left, &mut state), InputOutcome::Continue);
    assert_eq!(state.quit_confirm_selected, 0);
    assert_eq!(handle_quit_confirm(KeyCode::Enter, &mut state), InputOutcome::Quit);
    assert_eq!(handle_quit_confirm(KeyCode::Char('y'), &mut state), InputOutcome::Quit);
    assert_eq!(handle_quit_confirm(KeyCode::Esc, &mut state), InputOutcome::Continue);
    assert!(!state.quit_confirm_visible);
    assert!(quits_immediately(KeyCode::Char('q'), true));
    assert!(!quits_immediately(KeyCode::Char('q'), false));
}

#[test]
fn find_box_edits_its_query_and_matches() {
    let mut state = AppState::new();
    let data = AppData::from_library(vec![track("Alpha"), track("Beta"), track("Alphabet")], Vec::new(), Vec::new(), Vec::new(), 0);
    state.search_popup_visible = true;
    for c in "alp".chars() {
        assert_eq!(handle_find_input(key(KeyCode::Char(c)), &mut state, &data), Some(InputOutcome::Continue));
    }
    assert_eq!(state.search_query, "alp");
    assert!(!state.search_matches.is_empty());
    assert!(state.search_matches.iter().all(|&i| data.likes[i].title.starts_with("Alp")));

    assert_eq!(handle_find_input(key(KeyCode::Backspace), &mut state, &data), Some(InputOutcome::Continue));
    assert_eq!(state.search_query, "al");
    assert_eq!(handle_find_input(key(KeyCode::Down), &mut state, &data), None);
    assert_eq!(handle_find_input(key(KeyCode::Esc), &mut state, &data), Some(InputOutcome::Continue));
    assert!(!state.search_popup_visible);
    assert!(state.search_query.is_empty());
    assert!(state.search_matches.is_empty());
}

#[test]
fn status_line_error_prefers_a_fresh_playback_failure() {
    let notice = Some(PlaybackErrorNotice::new("resolver returned 403", 1_000));
    let terminal = Some(PlaybackErrorNotice::new("Text artwork fallback: Could not detect font size", 0));
    assert_eq!(status_error(&notice, 1_000, Some("player".into()), None, &None), Some("resolver returned 403".to_string()));
    assert_eq!(
        status_error(&notice, 1_000 + PLAYBACK_ERROR_NOTICE_MS, Some("player".into()), Some("art".into()), &None),
        Some("player".to_string())
    );
    assert_eq!(status_error(&None, 0, None, Some("art".into()), &terminal), Some("art".to_string()));
    assert_eq!(
        status_error(&None, 10, None, None, &terminal),
        Some("Text artwork fallback: Could not detect font size".to_string())
    );
    assert_eq!(status_error(&None, PLAYBACK_ERROR_NOTICE_MS, None, None, &terminal), None);
    assert_eq!(status_error(&None, 0, None, None, &None), None);
}

#[test]
fn the_terminal_fallback_is_explained_once_per_session() {
    let mut notice = None;
    note_terminal_fallback(&mut notice, "Text artwork fallback: Could not detect font size", 100);
    note_terminal_fallback(&mut notice, "Text artwork fallback: again after a resize", 5_000);
    let shown = notice.as_ref().unwrap();
    assert_eq!(shown.message, "Text artwork fallback: Could not detect font size");
    assert_eq!(shown.shown_at_ms, 100);
    assert_eq!(status_error(&None, 100 + PLAYBACK_ERROR_NOTICE_MS, None, None, &notice), None);
}

#[test]
fn an_unexplained_resolver_404_names_the_possible_reasons() {
    let message = resolver_status_message(404);
    for reason in ["DRM/Go+", "regional restrictions", "removed media", "expired stream URL"] {
        assert!(message.contains(reason));
    }
    assert_eq!(resolver_status_message(500), "SoundCloud transcoding resolver returned HTTP 500");
}

#[test]
fn missing_font_size_uses_text_halfblocks() {
    let mut notice = None;
    let picker = resolve_image_picker(Err("Could not detect font size".to_string()), &mut notice, 0);
    assert_eq!(picker.protocol, GraphicsProtocol::Halfblocks);
    assert_eq!(picker.font_size(), (10, 20));
    assert_eq!(notice.as_ref().map(|n| n.message.as_str()), Some("Text artwork fallback: Could not detect font size"));
}

#[test]
fn detected_pixel_protocol_and_font_size_are_preserved() {
    let detected = PickerSettings { protocol: GraphicsProtocol::Kitty, font_width: 9, font_height: 18 };
    let mut notice = None;
    let picker = resolve_image_picker(Ok(detected), &mut notice, 0);
    assert_eq!(picker.protocol, GraphicsProtocol::Kitty);
    assert_eq!(picker.font_size(), (9, 18));
    assert!(notice.is_none());
}

#[test]
fn failed_probes_all_fall_back_with_an_explanation() {
    let errors = [
        "Could not detect font size",
        "No graphics capabilities detected",
        "No response from stdin",
        "Tmux error: unsupported",
        "IO error: probe failed",
    ];
    for error in errors {
        let expected = format!("Text artwork fallback: {error}");
        let mut notice = None;
        let picker = resolve_image_picker(Err(error.to_string()), &mut notice, 0);
        assert_eq!(picker.protocol, GraphicsProtocol::Halfblocks);
        assert_eq!(notice.map(|n| n.message), Some(expected));
    }
}

#[test]
fn each_artwork_url_is_attempted_once_per_change() {
    let mut last = None;
    let mut notice = Some("Cover art unavailable: decoder failed".to_string());
    assert_eq!(artwork_step(&mut last, "https://img/a.jpg", &mut notice), ArtworkStep::Fetch);
    assert_eq!(last.as_deref(), Some("https://img/a.jpg"));
    assert!(notice.is_none());
    notice = Some("Cover art unavailable: decoder failed".to_string());
    assert_eq!(artwork_step(&mut last, "https://img/a.jpg", &mut notice), ArtworkStep::Keep);
    assert!(notice.is_some());
    assert_eq!(artwork_step(&mut last, "", &mut notice), ArtworkStep::Clear);
    assert!(notice.is_none());
    assert_eq!(artwork_step(&mut last, "https://img/b.jpg", &mut notice), ArtworkStep::Fetch);
}
