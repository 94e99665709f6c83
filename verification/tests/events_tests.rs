use scrobble_scrubber::events::{
    client_event_stale, detect_rate_limit_ended_from_event, detect_rate_limit_from_event, elapsed_label, extract_rate_limit_message,
    format_event_message, format_event_message_at, get_anchor_timestamp, get_event_category,
    is_rate_limit_event, rate_limit_countdown, ScrubberEvent, ScrubberEventType,
};
use scrobble_scrubber::lastfm::{ClientEvent, ClientEventKind, RateLimitType, RequestInfo};
use scrobble_scrubber::track::Track;

fn track(name: &str, artist: &str) -> Track {
    Track {
        name: name.to_string(),
        artist: artist.to_string(),
        playcount: 0,
        timestamp: Some(100),
        album: None,
        album_artist: None,
    }
}

fn ev(t: ScrubberEventType) -> ScrubberEvent {
    ScrubberEvent { timestamp: 1000, event_type: t }
}

fn client(kind: ClientEventKind, text: &str) -> ScrubberEvent {
    ev(ScrubberEventType::ClientEvent(ClientEvent { kind, debug_text: text.to_string() }))
}

fn request(params: Vec<(&str, &str)>) -> RequestInfo {
    RequestInfo {
        method: "GET".to_string(),
        uri: "https://www.last.fm/user/x/library".to_string(),
        query_params: params.into_iter().map(|(k, v)| (k.to_string(), v.to_string())).collect(),
        path: "/user/x/library".to_string(),
    }
}

#[test]
fn rate_limit_markers_are_found_case_insensitively() {
    assert!(is_rate_limit_event("HTTP 429 returned"));
    assert!(is_rate_limit_event("RATE LIMIT hit"));
    assert!(is_rate_limit_event("ratelimited by server"));
    assert!(is_rate_limit_event("too many requests"));
    assert!(is_rate_limit_event("Quota Exceeded for today"));
    assert!(is_rate_limit_event("100 requests per minute"));
    assert!(!is_rate_limit_event("EditCompleted"));
    assert!(!is_rate_limit_event(""));
}

#[test]
fn rate_limit_message_by_marker() {
    assert_eq!(
        extract_rate_limit_message("status 429"),
        "HTTP 429 - Too Many Requests received from Last.fm API"
    );
    assert_eq!(
        extract_rate_limit_message("RETRY-AFTER: 30"),
        "Rate limited by Last.fm API - retry after some time"
    );
    assert_eq!(extract_rate_limit_message("Quota reached"), "API quota exceeded");
    assert_eq!(extract_rate_limit_message("rate limit"), "Rate limited by Last.fm API");
}

#[test]
fn event_messages_for_each_kind() {
    let t = track("Song", "Band");
    let cases: Vec<(ScrubberEventType, &str)> = vec![
        (ScrubberEventType::Started("Scrubber started".to_string()), "Scrubber started"),
        (ScrubberEventType::Stopped("bye".to_string()), "bye"),
        (
            ScrubberEventType::TrackProcessed { track: t.clone(), result: "ok".to_string() },
            "'Song' by 'Band' - ok",
        ),
        (
            ScrubberEventType::RuleApplied { track: t.clone(), description: "Remaster".to_string() },
            "Applied rule 'Remaster' to 'Song' by 'Band'",
        ),
        (ScrubberEventType::Error("boom".to_string()), "boom"),
        (ScrubberEventType::Info("fyi".to_string()), "fyi"),
        (
            ScrubberEventType::CycleCompleted { processed_count: 12, applied_count: 3 },
            "Processing cycle completed: 12 tracks processed, 3 rules applied",
        ),
        (ScrubberEventType::CycleStarted("go".to_string()), "go"),
        (
            ScrubberEventType::AnchorUpdated { anchor_timestamp: 5, track: t.clone() },
            "Processing anchor updated to 'Song' by 'Band'",
        ),
        (
            ScrubberEventType::TracksFound { count: 7, anchor_timestamp: 5 },
            "Found 7 tracks to process",
        ),
        (ScrubberEventType::TrackEdited { track: t.clone() }, "Edited track 'Band' by 'Song'"),
        (
            ScrubberEventType::TrackEditFailed { track: t.clone(), error: "nope".to_string() },
            "Failed to edit 'Band' by 'Song': nope",
        ),
        (
            ScrubberEventType::TrackSkipped { track: t.clone(), reason: "dup".to_string() },
            "Skipped 'Band' by 'Song': dup",
        ),
        (
            ScrubberEventType::PendingEditCreated { pending_edit_id: "e1".to_string(), track: t.clone() },
            "Created pending edit (ID: e1) for 'Song' by 'Band'",
        ),
        (
            ScrubberEventType::ProcessingBatchStarted {
                tracks: vec![t.clone(), t.clone()],
                processing_type: "artist scan".to_string(),
            },
            "Started artist scan: 2 tracks to process",
        ),
        (
            ScrubberEventType::TrackProcessingStarted { track: t.clone(), track_index: 0, total_tracks: 4 },
            "Processing [1/4]: 'Song' by 'Band'",
        ),
        (
            ScrubberEventType::TrackProcessingCompleted {
                track: t.clone(),
                track_index: 3,
                total_tracks: 4,
                success: true,
                result_summary: "done".to_string(),
            },
            "Completed [4/4] ✓: 'Song' by 'Band' - done",
        ),
        (
            ScrubberEventType::TrackProcessingCompleted {
                track: t.clone(),
                track_index: 1,
                total_tracks: 4,
                success: false,
                result_summary: "failed".to_string(),
            },
            "Completed [2/4] ✗: 'Song' by 'Band' - failed",
        ),
    ];
    for (kind, expected) in cases {
        let e = ev(kind);
        assert_eq!(format_event_message_at(&e, 0), expected);
        assert_eq!(format_event_message(&e), expected);
    }
}

#[test]
fn sleeping_message_counts_down_then_states_the_interval() {
    let e = ev(ScrubberEventType::Sleeping { until_next_cycle_seconds: 300, sleep_until_timestamp: 1300 });
    assert_eq!(format_event_message_at(&e, 1_000_000), "💤 Sleeping (300s remaining)");
    assert_eq!(format_event_message_at(&e, 1_000_500), "💤 Sleeping (299s remaining)");
    assert_eq!(format_event_message_at(&e, 1_299_000), "💤 Sleeping (1s remaining)");
    assert_eq!(
        format_event_message_at(&e, 1_299_300),
        "Sleeping for 300 seconds until next processing cycle"
    );
    assert_eq!(
        format_event_message_at(&e, 1_300_000),
        "Sleeping for 300 seconds until next processing cycle"
    );
    assert_eq!(
        format_event_message_at(&e, 5_000_000),
        "Sleeping for 300 seconds until next processing cycle"
    );
}

#[test]
fn client_event_messages() {
    let limited = client(ClientEventKind::Other, "Got 429 Too Many Requests");
    assert_eq!(
        format_event_message_at(&limited, 0),
        "⚠️ Rate Limited: HTTP 429 - Too Many Requests received from Last.fm API"
    );
    let plain = client(ClientEventKind::Other, "EditStarting");
    assert_eq!(format_event_message_at(&plain, 0), "Client: EditStarting");
}

#[test]
fn anchor_timestamp_only_from_anchor_events() {
    let t = track("S", "B");
    assert_eq!(
        get_anchor_timestamp(&ev(ScrubberEventType::AnchorUpdated { anchor_timestamp: 42, track: t })),
        Some(42)
    );
    assert_eq!(
        get_anchor_timestamp(&ev(ScrubberEventType::TracksFound { count: 1, anchor_timestamp: 7 })),
        Some(7)
    );
    assert_eq!(get_anchor_timestamp(&ev(ScrubberEventType::Info("x".to_string()))), None);
}

#[test]
fn event_categories() {
    let t = track("S", "B");
    assert_eq!(get_event_category(&ev(ScrubberEventType::Started("x".to_string()))), "started");
    assert_eq!(
        get_event_category(&ev(ScrubberEventType::Sleeping {
            until_next_cycle_seconds: 1,
            sleep_until_timestamp: 1
        })),
        "sleeping"
    );
    assert_eq!(get_event_category(&ev(ScrubberEventType::TrackEdited { track: t.clone() })), "track_edited");
    assert_eq!(get_event_category(&client(ClientEventKind::Other, "x")), "client_event");
    assert_eq!(
        get_event_category(&ev(ScrubberEventType::TrackProcessingCompleted {
            track: t,
            track_index: 0,
            total_tracks: 1,
            success: true,
            result_summary: String::new(),
        })),
        "track_processing_completed"
    );
}

#[test]
fn structured_rate_limit_is_detected_with_request() {
    let e = client(
        ClientEventKind::RateLimited {
            delay_seconds: 60,
            request: Some(request(vec![("page", "2")])),
            rate_limit_type: RateLimitType::Http429,
            rate_limit_timestamp: 1000,
        },
        "RateLimited { .. }",
    );
    let st = detect_rate_limit_from_event(&e).unwrap();
    assert!(st.is_rate_limited);
    assert_eq!(st.detected_at, 1000);
    assert_eq!(st.retry_after, Some(1060));
    assert_eq!(st.delay_seconds, 60);
    assert_eq!(st.rate_limit_type, Some("Http429".to_string()));
    assert_eq!(
        st.message,
        "Rate limited by Last.fm API (Http429) - waiting 60 seconds (request: GET /user/x/library?page=2)"
    );
}

#[test]
fn request_description_shortens_many_parameters() {
    let mk = |params: Vec<(&str, &str)>| {
        client(
            ClientEventKind::RateLimited {
                delay_seconds: 5,
                request: Some(request(params)),
                rate_limit_type: RateLimitType::Http503,
                rate_limit_timestamp: 0,
            },
            "",
        )
    };
    let none = detect_rate_limit_from_event(&mk(vec![])).unwrap();
    assert_eq!(
        none.message,
        "Rate limited by Last.fm API (Http503) - waiting 5 seconds (request: GET /user/x/library)"
    );
    let two = detect_rate_limit_from_event(&mk(vec![("a", "1"), ("b", "2")])).unwrap();
    assert_eq!(
        two.message,
        "Rate limited by Last.fm API (Http503) - waiting 5 seconds (request: GET /user/x/library?a=1&b=2)"
    );
    let three = detect_rate_limit_from_event(&mk(vec![("a", "1"), ("b", "2"), ("c", "3")])).unwrap();
    assert_eq!(
        three.message,
        "Rate limited by Last.fm API (Http503) - waiting 5 seconds (request: GET /user/x/library?a=1...)"
    );
}

#[test]
fn structured_rate_limit_without_request() {
    let e = client(
        ClientEventKind::RateLimited {
            delay_seconds: 0,
            request: None,
            rate_limit_type: RateLimitType::ResponsePattern,
            rate_limit_timestamp: 0,
        },
        "",
    );
    let st = detect_rate_limit_from_event(&e).unwrap();
    assert_eq!(st.message, "Rate limited by Last.fm API (ResponsePattern) - waiting 0 seconds");
    assert_eq!(st.retry_after, Some(1000));
}

#[test]
fn textual_rate_limit_and_none() {
    let st = detect_rate_limit_from_event(&client(ClientEventKind::Other, "quota exceeded")).unwrap();
    assert_eq!(st.message, "API quota exceeded");
    assert_eq!(st.retry_after, None);
    assert_eq!(st.delay_seconds, 0);
    assert_eq!(st.rate_limit_type, None);
    assert!(detect_rate_limit_from_event(&client(ClientEventKind::Other, "fine")).is_none());
    assert!(detect_rate_limit_from_event(&ev(ScrubberEventType::Info("429".to_string()))).is_none());
}

#[test]
fn rate_limit_end_is_detected() {
    let ended = client(
        ClientEventKind::RateLimitEnded {
            request: request(vec![]),
            rate_limit_type: RateLimitType::Http403,
            total_rate_limit_duration_seconds: 30,
        },
        "",
    );
    assert!(detect_rate_limit_ended_from_event(&ended));
    assert!(!detect_rate_limit_ended_from_event(&client(ClientEventKind::Other, "RateLimitEnded")));
    assert!(!detect_rate_limit_ended_from_event(&ev(ScrubberEventType::Info(String::new()))));
}

#[test]
fn countdown_texts() {
    let (rem, cd) = rate_limit_countdown(Some(1045), 1_000_000);
    assert_eq!(rem, Some("45s".to_string()));
    assert_eq!(cd, " (45s)");
    let (rem, cd) = rate_limit_countdown(Some(1125), 1_000_000);
    assert_eq!(rem, Some("2m 5s".to_string()));
    assert_eq!(cd, " (2m 5s)");
    let (rem, cd) = rate_limit_countdown(Some(900), 1_000_000);
    assert_eq!(rem, Some("Should end soon".to_string()));
    assert_eq!(cd, " (should end soon)");
    let (rem, cd) = rate_limit_countdown(None, 1_000_000);
    assert_eq!(rem, None);
    assert_eq!(cd, "");
}

#[test]
fn client_event_age() {
    assert_eq!(elapsed_label(5), "5s ago");
    assert_eq!(elapsed_label(59), "59s ago");
    assert_eq!(elapsed_label(60), "1m ago");
    assert_eq!(elapsed_label(125), "2m ago");
    assert_eq!(elapsed_label(-3), "-3s ago");
    assert_eq!(elapsed_label(i64::MIN), format!("{}s ago", i64::MIN));
    assert!(client_event_stale(100_000, 69));
    assert!(!client_event_stale(100_000, 70));
    assert!(!client_event_stale(100_999, 70));
    assert!(client_event_stale(101_000, 70));
    assert!(!client_event_stale(i64::MIN, i64::MAX));
    let (rem, _) = rate_limit_countdown(Some(1045), 1_044_200);
    assert_eq!(rem, Some("Should end soon".to_string()));
}
