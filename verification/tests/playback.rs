use sctui::hls::{best_variant_index, build_manifest, fetch_manifest, select_stream_url, HlsError, MediaSegment, ParsedPlaylist, Variant};
use sctui::models::{PlaybackRestriction, Track};
use sctui::player::{
    combine_init_and_segment, is_current_playback_failure, outcome_of, plan_command, playback_restriction_message,
    record_playback_result, stream_cache_fresh, PlaybackOutcome, PlayerCommand, PlayerControl, WorkerAction, WorkerSnapshot,
    STREAM_CACHE_TTL_MS,
};
use sctui::segments::{SegmentCache, SEGMENT_CACHE_CAP};

fn track(id: u64, duration_ms: u64) -> Track {
    Track {
        title: format!("Track {id}"),
        artists: "Fixture".into(),
        duration: "03:00".into(),
        duration_ms,
        playback_count: "1".into(),
        artwork_url: String::new(),
        stream_url: format!("https://resolver/{id}"),
        access: "playable".into(),
        playback_restriction: None,
        track_urn: format!("soundcloud:tracks:{id}"),
    }
}

#[test]
fn playback_request_reports_service_policy_before_starting_the_worker() {
    let track = Track {
        title: "Restricted fixture".into(),
        artists: "Fixture".into(),
        duration: "03:00".into(),
        duration_ms: 180_000,
        playback_count: "1".into(),
        artwork_url: String::new(),
        stream_url: "https://resolver/dead-legacy".into(),
        access: String::new(),
        playback_restriction: Some(PlaybackRestriction::SoundCloudGoPlus),
        track_urn: "soundcloud:tracks:1".into(),
    };

    assert_eq!(
        playback_restriction_message(&track).as_deref(),
        Some("SoundCloud Go+ track requires encrypted high-tier playback, which sctui does not support")
    );

    let mut control = PlayerControl::new();
    assert!(control.play(track).is_none());
    assert_eq!(control.requested_attempt_id(), 1);
    assert!(control.playback_error().is_some());
    match control.take_playback_outcome() {
        Some(PlaybackOutcome::Failed { attempt_id, track_urn, .. }) => {
            assert_eq!(attempt_id, 1);
            assert_eq!(track_urn, "soundcloud:tracks:1");
        }
        other => panic!("unexpected outcome {other:?}"),
    }
    assert!(control.take_playback_outcome().is_none());
}

#[test]
fn playable_tracks_go_to_the_worker_under_a_new_attempt() {
    let mut control = PlayerControl::new();
    match control.play(track(7, 1000)) {
        Some(PlayerCommand::Play(t, id)) => {
            assert_eq!(t.track_urn, "soundcloud:tracks:7");
            assert_eq!(id, 1);
        }
        other => panic!("unexpected command {other:?}"),
    }
    match control.seek(Some(track(7, 1000)), 5000) {
        Some(PlayerCommand::PlayFromPosition(_, position, id)) => {
            assert_eq!(position, 1000);
            assert_eq!(id, 2);
        }
        other => panic!("unexpected command {other:?}"),
    }
    assert!(control.seek(None, 10).is_none());
    assert_eq!(control.requested_attempt_id(), 2);
}

#[test]
fn playback_results_are_visible_and_a_success_clears_the_prior_error() {
    let mut error = None;

    record_playback_result(&mut error, Err("resolver returned 403".to_string()));
    assert_eq!(error.as_deref(), Some("resolver returned 403"));

    record_playback_result(&mut error, Ok(()));
    assert_eq!(error, None);
}

#[test]
fn only_the_newest_failed_attempt_triggers_queue_recovery() {
    let stale_failure = PlaybackOutcome::Failed {
        attempt_id: 41,
        track_urn: "soundcloud:tracks:7".into(),
        message: "stale failure".into(),
    };
    let current_failure = PlaybackOutcome::Failed {
        attempt_id: 42,
        track_urn: "soundcloud:tracks:7".into(),
        message: "current failure".into(),
    };
    let current_success = PlaybackOutcome::Started { attempt_id: 42, track_urn: "soundcloud:tracks:7".into() };

    assert!(!is_current_playback_failure(&stale_failure, 42));
    assert!(is_current_playback_failure(&current_failure, 42));
    assert!(!is_current_playback_failure(&current_success, 42));
}

#[test]
fn worker_outcomes_carry_the_attempt() {
    match outcome_of(3, "urn".into(), &Err("boom".into())) {
        PlaybackOutcome::Failed { attempt_id, message, .. } => {
            assert_eq!(attempt_id, 3);
            assert_eq!(message, "boom");
        }
        other => panic!("unexpected {other:?}"),
    }
    assert!(matches!(outcome_of(4, "urn".into(), &Ok(())), PlaybackOutcome::Started { attempt_id: 4, .. }));
}

#[test]
fn fast_forward_stops_at_the_end_and_rewind_at_the_start() {
    let playing = WorkerSnapshot { seeking: false, current_track: Some(track(1, 60_000)), elapsed_ms: 55_000 };
    assert!(matches!(plan_command(PlayerCommand::FastForward, &playing), WorkerAction::StopAtEnd { duration_ms: 60_000 }));
    let early = WorkerSnapshot { seeking: false, current_track: Some(track(1, 60_000)), elapsed_ms: 5_000 };
    assert!(matches!(plan_command(PlayerCommand::FastForward, &early), WorkerAction::Start { position_ms: 15_000, seek: true, .. }));
    assert!(matches!(plan_command(PlayerCommand::Rewind, &early), WorkerAction::Start { position_ms: 0, .. }));
    assert!(matches!(plan_command(PlayerCommand::Rewind, &playing), WorkerAction::Start { position_ms: 45_000, .. }));
    let seeking = WorkerSnapshot { seeking: true, current_track: Some(track(1, 60_000)), elapsed_ms: 5_000 };
    assert!(matches!(plan_command(PlayerCommand::Rewind, &seeking), WorkerAction::Ignore));
    assert!(matches!(plan_command(PlayerCommand::PlayFromPosition(track(1, 10), 5, 9), &seeking), WorkerAction::Ignore));
    let idle = WorkerSnapshot { seeking: false, current_track: None, elapsed_ms: 0 };
    assert!(matches!(plan_command(PlayerCommand::FastForward, &idle), WorkerAction::Ignore));
    assert!(matches!(plan_command(PlayerCommand::Play(track(2, 10), 8), &idle), WorkerAction::Start { position_ms: 0, attempt_id: Some(8), seek: false, .. }));
}

#[test]
fn init_section_precedes_the_segment() {
    assert_eq!(combine_init_and_segment(&vec![1, 2], &vec![3]), vec![1, 2, 3]);
    assert_eq!(combine_init_and_segment(&vec![], &vec![9]), vec![9]);
}

fn segment(uri: &str, duration_ms: u64, map: Option<&str>) -> MediaSegment {
    MediaSegment { uri: uri.into(), map_uri: map.map(str::to_string), duration_ms }
}

#[test]
fn manifest_resolves_urls_and_locates_positions() {
    let base = "https://cdn.example/audio/playlist.m3u8";
    let segs = vec![segment("s0.m4s", 2000, Some("init.mp4")), segment("s1.m4s", 0, None), segment("s2.m4s", 3000, None)];
    let m = build_manifest(base, &segs).unwrap();
    assert_eq!(m.init_url.as_deref(), Some("https://cdn.example/audio/init.mp4"));
    assert_eq!(m.segments[1].url, "https://cdn.example/audio/s1.m4s");
    assert_eq!(m.segment_start_ms, vec![0, 2000, 2001]);
    assert_eq!(m.segments[1].duration_ms, 1);
    assert_eq!(m.total_duration_ms, 5001);
    assert_eq!(m.locate_position(0), (0, 0));
    assert_eq!(m.locate_position(1999), (0, 1999));
    assert_eq!(m.locate_position(2000), (1, 0));
    assert_eq!(m.locate_position(2500), (2, 499));
    assert_eq!(m.locate_position(99_999), (2, 2999));
    assert!(matches!(build_manifest(base, &vec![]), Err(HlsError::NoSegments)));
}

#[test]
fn master_playlists_lead_to_the_highest_bandwidth_variant() {
    let variants = vec![
        Variant { uri: "low.m3u8".into(), bandwidth: 64 },
        Variant { uri: "high.m3u8".into(), bandwidth: 160 },
        Variant { uri: "high2.m3u8".into(), bandwidth: 160 },
    ];
    assert_eq!(best_variant_index(&variants), Some(2));
    assert_eq!(best_variant_index(&vec![]), None);

    let manifest = fetch_manifest("https://cdn.example/master.m3u8".into(), |url| {
        if url.ends_with("master.m3u8") {
            Ok(ParsedPlaylist::Master(vec![
                Variant { uri: "low.m3u8".into(), bandwidth: 64 },
                Variant { uri: "media/high.m3u8".into(), bandwidth: 160 },
            ]))
        } else {
            assert_eq!(url, "https://cdn.example/media/high.m3u8");
            Ok(ParsedPlaylist::Media(vec![MediaSegment { uri: "a.ts".into(), map_uri: None, duration_ms: 1000 }]))
        }
    })
    .unwrap();
    assert_eq!(manifest.segments[0].url, "https://cdn.example/media/a.ts");

    let looping = fetch_manifest("https://cdn.example/master.m3u8".into(), |_| {
        Ok(ParsedPlaylist::Master(vec![Variant { uri: "master.m3u8".into(), bandwidth: 1 }]))
    });
    assert!(matches!(looping, Err(HlsError::TooManyIndirections)));
}

#[test]
fn stream_urls_prefer_aac_160_then_96_then_mp3() {
    assert_eq!(
        select_stream_url(None, Some("https://a/96".into()), Some("https://a/mp3".into())).unwrap(),
        "https://a/96"
    );
    assert!(matches!(select_stream_url(None, None, None), Err(HlsError::NoStreamUrl)));
    assert_eq!(select_stream_url(Some("https://a/160".into()), None, None).unwrap(), "https://a/160");
    assert_eq!(HlsError::NoStreamUrl.message(), "No HLS stream URL available (tried AAC 160, AAC 96, MP3 128)");
}

#[test]
fn the_segment_cache_keeps_the_newest_segments_and_reads_back_writes() {
    let mut cache: SegmentCache<Vec<u8>> = SegmentCache::new();
    assert!(cache.get(0).is_none());
    cache.insert(0, vec![1]);
    assert_eq!(cache.get(0), Some(&vec![1]));
    cache.insert(0, vec![2]);
    assert_eq!(cache.get(0), Some(&vec![2]));
    for i in 1..SEGMENT_CACHE_CAP {
        cache.insert(i, vec![i as u8]);
    }
    assert_eq!(cache.get(0), Some(&vec![2]));
    cache.insert(SEGMENT_CACHE_CAP, vec![99]);
    assert!(cache.get(0).is_none());
    assert_eq!(cache.get(1), Some(&vec![1]));
    assert_eq!(cache.get(SEGMENT_CACHE_CAP), Some(&vec![99]));
}

#[test]
fn a_held_stream_serves_only_its_own_track_while_fresh() {
    assert!(stream_cache_fresh("soundcloud:tracks:1", 0, "soundcloud:tracks:1"));
    assert!(stream_cache_fresh("soundcloud:tracks:1", STREAM_CACHE_TTL_MS - 1, "soundcloud:tracks:1"));
    assert!(!stream_cache_fresh("soundcloud:tracks:1", STREAM_CACHE_TTL_MS, "soundcloud:tracks:1"));
    assert!(!stream_cache_fresh("soundcloud:tracks:1", 0, "soundcloud:tracks:2"));
}
