use sctui::json::Json;
use sctui::models::PlaybackRestriction;
use sctui::parse::{is_album, parse_track, select_hls_transcoding_url};

fn to_json(v: &serde_json::Value) -> Json {
    match v {
        serde_json::Value::Null => Json::Null,
        serde_json::Value::Bool(b) => Json::Bool(*b),
        serde_json::Value::Number(n) => Json::Number(n.as_u64()),
        serde_json::Value::String(s) => Json::Str(s.clone()),
        serde_json::Value::Array(a) => Json::Array(a.iter().map(to_json).collect()),
        serde_json::Value::Object(o) => Json::Object(o.iter().map(|(k, v)| (k.clone(), to_json(v))).collect()),
    }
}

fn json(text: &str) -> Json {
    to_json(&serde_json::from_str::<serde_json::Value>(text).unwrap())
}

fn count(n: u64) -> String {
    n.to_string()
}

#[test]
fn album_classifier_covers_legacy_and_api_v2_discriminator_sets() {
    let candidates = [
        json(r#"{"playlist_type":"album"}"#),
        json(r#"{"set_type":"ALBUM"}"#),
        json(r#"{"is_album":true}"#),
        json(r#"{"playlist_type":"playlist"}"#),
        json(r#"{"set_type":"playlist","is_album":false}"#),
        json(r#"{}"#),
    ];

    assert_eq!(candidates.iter().map(is_album).collect::<Vec<_>>(), vec![true, true, true, false, false, false]);
}

#[test]
fn hls_selection_classifies_the_complete_candidate_set() {
    let transcodings = json(
        r#"[
            {"url":"https://resolver/malformed"},
            {"url":"https://resolver/progressive","format":{"protocol":"progressive","mime_type":"audio/mpeg"}},
            {"url":"https://resolver/drm","format":{"protocol":"cbc-hls","mime_type":"audio/mpeg"}},
            {"url":"https://resolver/ogg","format":{"protocol":"hls","mime_type":"audio/ogg; codecs=\"opus\""}},
            {"url":"https://resolver/mp3","format":{"protocol":"hls","mime_type":"audio/mpeg"}}
        ]"#,
    );
    let items = match &transcodings {
        Json::Array(a) => a,
        _ => panic!("array expected"),
    };

    assert_eq!(select_hls_transcoding_url(items), Some("https://resolver/mp3".to_string()));
}

#[test]
fn track_parser_uses_selected_transcoding_as_its_stream_url() {
    let track = parse_track(
        &json(
            r#"{
            "title":"Playable fixture",
            "duration":123000,
            "urn":"soundcloud:tracks:404",
            "stream_url":"https://legacy/stream",
            "media":{"transcodings":[
                {"url":"https://resolver/hls","format":{"protocol":"hls","mime_type":"audio/mpeg"}}
            ]}
        }"#,
        ),
        count,
    );

    assert_eq!(track.stream_url, "https://resolver/hls");
    assert_eq!(track.title, "Playable fixture");
    assert_eq!(track.duration_ms, 123000);
    assert_eq!(track.track_urn, "soundcloud:tracks:404");
}

#[test]
fn playback_restrictions_classify_complete_track_sets() {
    let cases = [
        (
            json(
                r#"{
                "access": null,
                "policy": "MONETIZE",
                "monetization_model": "SUB_HIGH_TIER",
                "media": {"transcodings": [
                    {"url":"https://resolver/encrypted","format":{"protocol":"cbc-encrypted-hls","mime_type":"audio/mp4"}},
                    {"url":"https://resolver/dead-legacy","format":{"protocol":"hls","mime_type":"audio/mpeg"}}
                ]}
            }"#,
            ),
            Some(PlaybackRestriction::SoundCloudGoPlus),
        ),
        (json(r#"{"access":"blocked"}"#), Some(PlaybackRestriction::Blocked)),
        (json(r#"{"access":"preview"}"#), Some(PlaybackRestriction::PreviewOnly)),
        (
            json(
                r#"{
                "access":"playable",
                "media":{"transcodings":[
                    {"url":"https://resolver/encrypted","format":{"protocol":"ctr-encrypted-hls","mime_type":"audio/mp4"}}
                ]}
            }"#,
            ),
            Some(PlaybackRestriction::EncryptedStream),
        ),
        (
            json(
                r#"{
                "access":"playable",
                "media":{"transcodings":[
                    {"url":"https://resolver/hls","format":{"protocol":"hls","mime_type":"audio/mpeg"}}
                ]}
            }"#,
            ),
            None,
        ),
        (json(r#"{"access":"playable"}"#), Some(PlaybackRestriction::Unavailable)),
    ];

    let observed = cases.iter().map(|(value, _)| parse_track(value, count).playback_restriction).collect::<Vec<_>>();
    let expected = cases.iter().map(|(_, expected)| *expected).collect::<Vec<_>>();

    assert_eq!(observed, expected);
}

#[test]
fn encrypted_only_metadata_overrides_a_legacy_stream_url() {
    let observed = [
        vec!["cbc-encrypted-hls"],
        vec!["ctr-encrypted-hls"],
        vec!["hls"],
        vec!["cbc-encrypted-hls", "hls"],
        vec!["progressive"],
    ]
    .map(|protocols| {
        let transcodings = protocols
            .iter()
            .map(|protocol| {
                format!(r#"{{"url":"https://resolver/audio","format":{{"protocol":"{protocol}","mime_type":"audio/mpeg"}}}}"#)
            })
            .collect::<Vec<_>>()
            .join(",");
        parse_track(
            &json(&format!(r#"{{"stream_url":"https://legacy/stream","media":{{"transcodings":[{transcodings}]}}}}"#)),
            count,
        )
        .playback_restriction
    });
    assert_eq!(
        observed,
        [
            Some(PlaybackRestriction::EncryptedStream),
            Some(PlaybackRestriction::EncryptedStream),
            None,
            None,
            None,
        ]
    );
}

#[test]
fn go_plus_tracks_are_not_playable() {
    let track = parse_track(
        &json(
            r#"{"access": null, "policy": "MONETIZE", "monetization_model": "SUB_HIGH_TIER", "media": {"transcodings": [
                {"url":"https://resolver/encrypted","format":{"protocol":"cbc-encrypted-hls","mime_type":"audio/mp4"}},
                {"url":"https://resolver/dead-legacy","format":{"protocol":"hls","mime_type":"audio/mpeg"}}]}}"#,
        ),
        count,
    );
    assert_eq!(track.playback_restriction, Some(PlaybackRestriction::SoundCloudGoPlus));
    assert!(!track.is_playable());
}
