use sctui::search::fuzzy_score_subsequence;
use sctui::ids::soundcloud_playlist_id_from_tracks_uri;
use sctui::json::Json;
use sctui::models::Track;
use sctui::requests::{
    begin_following_page, cursor_page, engagement_done, engagement_request, following_first_page, likes_exhausted,
    likes_first_page, search_path, tracks_request_url, user_id_from_me, user_tracks_route, user_tracks_url, v2_request_url, ApiError,
    UserTrackList, UserTracksRoute,
    HttpMethod, LibraryPager, LIBRARY_FIRST_PAGE,
};
use sctui::parse::take_response_items;
use sctui::requests::collection_of;
use sctui::session::{accept_list, EngagementAction, EngagementDone};
use sctui::state::TableSel;
use sctui::status::{shortcut_window, status_line, StatusTone, TextColor};

fn to_json(v: &serde_json::Value) -> Json {
    match v {
        serde_json::Value::Null => Json::Null,
        serde_json::Value::Bool(b) => Json::Bool(*b),
        serde_json::Value::Number(n) => Json::Number(n.as_u64()),
        serde_json::Value::String(s) => Json::Str(s.clone()),
        serde_json::Value::Array(a) => Json::Array(a.iter().map(to_json).collect()),
        serde_json::Value::Object(o) => Json::Object(o.iter().map(|(k, v)| (k.clone(), to_json(v))).collect()),
    }
}

fn json(text: &str) -> Json {
    to_json(&serde_json::from_str::<serde_json::Value>(text).unwrap())
}

fn track() -> Track {
    Track {
        title: "Liked fixture".into(),
        artists: "fixture artist".into(),
        duration: "03:04".into(),
        duration_ms: 184_000,
        playback_count: "1".into(),
        artwork_url: String::new(),
        stream_url: "https://resolver.example/hls".into(),
        access: "playable".into(),
        playback_restriction: None,
        track_urn: "soundcloud:tracks:404".into(),
    }
}

#[test]
fn v2_pagination_rejects_cross_origin_urls_before_sending_credentials() {
    let error = v2_request_url("https://api-v2.soundcloud.com", "https://example.invalid/track_likes?cursor=next").unwrap_err();

    assert!(error.message().contains("outside"));
}

#[test]
fn v2_paths_and_same_origin_cursors_resolve_against_the_base() {
    assert_eq!(v2_request_url("https://api-v2.soundcloud.com", "/me"), Ok("https://api-v2.soundcloud.com/me".to_string()));
    assert_eq!(
        v2_request_url("https://api-v2.soundcloud.com", "https://api-v2.soundcloud.com:443/users/1/track_likes?cursor=2"),
        Ok("https://api-v2.soundcloud.com/users/1/track_likes?cursor=2".to_string())
    );
    assert_eq!(v2_request_url("http://127.0.0.1:8080", "/me/library/all?limit=200"), Ok("http://127.0.0.1:8080/me/library/all?limit=200".to_string()));
}

#[test]
fn v2_cursors_on_another_scheme_or_port_are_refused() {
    assert_eq!(v2_request_url("http://127.0.0.1:8080", "http://127.0.0.1:9090/me"), Err(ApiError::OutsideOrigin));
    assert_eq!(v2_request_url("https://api-v2.soundcloud.com", "http://api-v2.soundcloud.com/me"), Err(ApiError::OutsideOrigin));
    assert_eq!(v2_request_url("not a url", "/me"), Err(ApiError::InvalidUrl));
}

#[test]
fn signed_in_user_needs_a_numeric_id() {
    assert_eq!(user_id_from_me(&json(r#"{"id":9867108}"#)), Ok(9_867_108));
    assert_eq!(user_id_from_me(&json(r#"{"id":0}"#)), Err(ApiError::MissingUserId));
    assert_eq!(user_id_from_me(&json(r#"{"username":"x"}"#)), Err(ApiError::MissingUserId));
    assert_eq!(ApiError::MissingUserId.message(), "signed-in SoundCloud user response had no ID");
}

#[test]
fn user_scoped_first_pages_use_the_numeric_id() {
    assert_eq!(likes_first_page(9_867_108), "/users/9867108/track_likes?limit=40&linked_partitioning=true");
    assert_eq!(following_first_page(123), "/users/123/followings?limit=40&linked_partitioning=true");
}

#[test]
fn cursor_pagination_stops_after_the_last_page() {
    assert!(!likes_exhausted(&None, false));
    assert!(!likes_exhausted(&Some("/next".into()), true));
    assert!(likes_exhausted(&None, true));
    assert_eq!(cursor_page(&Some("/next".into()), likes_first_page(1)), "/next");
    assert_eq!(cursor_page(&None, likes_first_page(1)), "/users/1/track_likes?limit=40&linked_partitioning=true");

    let mut first = false;
    assert!(begin_following_page(&None, &mut first));
    assert!(first);
    assert!(begin_following_page(&Some("/next".into()), &mut first));
    assert!(!begin_following_page(&None, &mut first));
}

#[test]
fn library_pages_are_gathered_until_the_last_and_never_requested_twice() {
    let mut pager = LibraryPager::new();
    assert_eq!(pager.next_request(), Ok(Some(LIBRARY_FIRST_PAGE.to_string())));
    pager.accept(json(r#"{"collection":[{"type":"playlist"},{"type":"album"}],"next_href":"/me/library/all?cursor=2"}"#));
    assert_eq!(pager.next_request(), Ok(Some("/me/library/all?cursor=2".to_string())));
    pager.accept(json(r#"{"collection":[{"type":"playlist-like"}]}"#));
    assert_eq!(pager.next_request(), Ok(None));
    assert_eq!(pager.items.len(), 3);

    let mut looping = LibraryPager::new();
    assert!(looping.next_request().is_ok());
    looping.accept(json(&format!(r#"{{"collection":[],"next_href":"{LIBRARY_FIRST_PAGE}"}}"#)));
    assert_eq!(looping.next_request(), Err(ApiError::RepeatedPage));
    assert_eq!(ApiError::RepeatedPage.message(), "api-v2 library pagination repeated a page");
}

#[test]
fn user_track_lists_escape_the_urn() {
    assert_eq!(
        user_tracks_url("soundcloud:users:42", "likes/tracks"),
        "https://api.soundcloud.com/users/soundcloud%3Ausers%3A42/likes/tracks?linked_partitioning=true&limit=200&access=playable,preview,blocked"
    );
}

#[test]
fn track_list_urls_add_only_missing_parameters() {
    assert_eq!(
        tracks_request_url("/playlists/2/tracks", true),
        "https://api.soundcloud.com/playlists/2/tracks?linked_partitioning=true&limit=200&access=playable,preview,blocked"
    );
    assert_eq!(
        tracks_request_url("https://api.soundcloud.com/playlists/2/tracks?limit=50", true),
        "https://api.soundcloud.com/playlists/2/tracks?limit=50&linked_partitioning=true&access=playable,preview,blocked"
    );
    assert_eq!(tracks_request_url("/playlists/2/tracks", false), "https://api.soundcloud.com/playlists/2/tracks?linked_partitioning=true&limit=200");
}

#[test]
fn search_paths_name_the_resource_and_encode_the_query() {
    assert_eq!(
        search_path("tracks", "SoundCloud", true),
        "/search/tracks?q=SoundCloud&linked_partitioning=true&limit=50&access=playable%2Cpreview%2Cblocked"
    );
    assert_eq!(search_path("albums", "SoundCloud", false), "/search/albums?q=SoundCloud&linked_partitioning=true&limit=50");
    assert_eq!(search_path("users", "daft punk", false), "/search/users?q=daft+punk&linked_partitioning=true&limit=50");
}

#[test]
fn engagements_map_to_public_api_requests_and_results() {
    let like = EngagementAction::LikeTrack { track: track(), track_id: 404 };
    assert_eq!(engagement_request(&like), (HttpMethod::Post, "https://api.soundcloud.com/likes/tracks/404".to_string()));
    match engagement_done(like) {
        EngagementDone::LikedTrack(t) => assert_eq!(t.track_urn, "soundcloud:tracks:404"),
        other => panic!("unexpected {other:?}"),
    }

    let unlike_album = EngagementAction::UnlikeAlbum { tracks_uri: "/playlists/7/tracks".into(), playlist_id: 7 };
    assert_eq!(engagement_request(&unlike_album), (HttpMethod::Delete, "https://api.soundcloud.com/likes/playlists/7".to_string()));
    let follow = EngagementAction::UnfollowUser { urn: "soundcloud:users:5".into(), user_id: 5 };
    assert_eq!(engagement_request(&follow), (HttpMethod::Delete, "https://api.soundcloud.com/me/followings/5".to_string()));
    match engagement_done(follow) {
        EngagementDone::UnfollowedUser { urn } => assert_eq!(urn, "soundcloud:users:5"),
        other => panic!("unexpected {other:?}"),
    }
}

#[test]
fn status_line_shows_errors_in_place_of_shortcuts() {
    let shortcuts = status_line(80, None, 0);
    assert_eq!(shortcuts.tone, StatusTone::Shortcuts);
    assert_eq!(shortcuts.text, shortcut_window(80, 0));

    let error = status_line(80, Some("resolver returned 403"), 0);
    assert_eq!(error.text, "Playback error: resolver returned 403");
    assert_eq!(error.tone, StatusTone::Error);
}

#[test]
fn shortcut_style_is_subdued_italic_and_errors_are_red() {
    let shortcuts = status_line(80, None, 0);
    assert_eq!(shortcuts.style.fg, TextColor::DarkGray);
    assert!(shortcuts.style.italic);

    let error = status_line(80, Some("resolver returned 403"), 0);
    assert_eq!(error.text, "Playback error: resolver returned 403");
    assert_eq!(error.style.fg, TextColor::Red);
    assert!(error.style.bold);
}

#[test]
fn response_items_move_out_of_collections_and_arrays() {
    assert_eq!(take_response_items(json(r#"{"collection":[1,2,3]}"#)).len(), 3);
    assert_eq!(take_response_items(json(r#"[1,2]"#)).len(), 2);
    assert_eq!(take_response_items(json(r#"{"items":[1]}"#)).len(), 0);
    assert_eq!(collection_of(json(r#"{"collection":[1,2],"next_href":"/x"}"#)).len(), 2);
    assert_eq!(collection_of(json(r#"[1,2]"#)).len(), 0);
}

#[test]
fn only_the_newest_answer_replaces_a_list() {
    let mut list = vec!["old"];
    let mut sel = TableSel { selected: Some(3), offset: 2 };
    assert!(!accept_list(&mut list, &mut sel, 4, 5, vec!["stale"]));
    assert_eq!(list, vec!["old"]);
    assert_eq!(sel.selected, Some(3));
    assert!(accept_list(&mut list, &mut sel, 5, 5, vec!["new", "newer"]));
    assert_eq!(list, vec!["new", "newer"]);
    assert_eq!(sel.selected, Some(0));
}

#[test]
fn browser_sessions_ask_api_v2_for_followed_users_tracks() {
    let browser = sctui::token::Token::from_firefox("browser-token".into(), "a.default".into());
    assert_eq!(
        user_tracks_route("soundcloud:users:42", UserTrackList::Published, &browser),
        Ok(UserTracksRoute::V2("/users/42/tracks?limit=200&linked_partitioning=true".into()))
    );
    assert_eq!(
        user_tracks_route("soundcloud:users:42", UserTrackList::Liked, &browser),
        Ok(UserTracksRoute::V2("/users/42/track_likes?limit=200&linked_partitioning=true".into()))
    );
    assert_eq!(user_tracks_route("soundcloud:users:x", UserTrackList::Liked, &browser), Err(ApiError::InvalidUserUrn));
    let application = sctui::token::Token::from_saved("app-token".into(), "refresh".into(), 0);
    assert_eq!(
        user_tracks_route("soundcloud:users:42", UserTrackList::Liked, &application),
        Ok(UserTracksRoute::Public(user_tracks_url("soundcloud:users:42", "likes/tracks")))
    );
}

#[test]
fn playlist_ids_come_from_the_path_and_never_from_the_query() {
    assert_eq!(soundcloud_playlist_id_from_tracks_uri("https://api.soundcloud.com/playlists/123/tracks?secret_token=456"), Some(123));
    assert_eq!(soundcloud_playlist_id_from_tracks_uri("  /playlists/007/tracks  "), Some(7));
    assert_eq!(soundcloud_playlist_id_from_tracks_uri("https://api.soundcloud.com/tracks?playlist=999"), None);
    assert_eq!(soundcloud_playlist_id_from_tracks_uri("https://soundcloud.com/someone/sets/42"), Some(42));
    assert_eq!(soundcloud_playlist_id_from_tracks_uri("/users/5/likes/12345"), Some(12345));
    assert_eq!(soundcloud_playlist_id_from_tracks_uri("/playlists/99999999999999999999999/tracks"), None);
    assert_eq!(soundcloud_playlist_id_from_tracks_uri("   "), None);
}

#[test]
fn a_score_exists_exactly_for_an_ordered_subsequence() {
    let v = |s: &str| s.chars().collect::<Vec<char>>();
    assert!(fuzzy_score_subsequence(&v("ac"), &v("abc")).is_some());
    assert!(fuzzy_score_subsequence(&v("ca"), &v("abc")).is_none());
    assert!(fuzzy_score_subsequence(&v("A"), &v("abc")).is_none());
    assert!(fuzzy_score_subsequence(&v(""), &v("abc")).is_none());
    assert!(fuzzy_score_subsequence(&v("a"), &v("")).is_none());
}
