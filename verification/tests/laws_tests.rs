use scrobble_scrubber::events::{
    detect_rate_limit_from_event, format_event_message_at, get_event_category, ScrubberEvent, ScrubberEventType,
};
use scrobble_scrubber::track::Track;
use scrobble_scrubber::lastfm::{ClientEvent, ClientEventKind};
use scrobble_scrubber::workshop::{test_rules_on_tracks, RewriteRule, TestRulesRequest, TrackInfo};

fn info(name: &str) -> TrackInfo {
    TrackInfo { name: name.to_string(), artist: "A".to_string(), album: None, playcount: 0, timestamp: None }
}

#[test]
fn switched_off_rules_change_nothing() {
    let rules = vec![
        RewriteRule {
            id: "1".to_string(),
            name: "strip".to_string(),
            pattern: ".*".to_string(),
            replacement: "gone".to_string(),
            enabled: false,
        },
        RewriteRule {
            id: "2".to_string(),
            name: "upper".to_string(),
            pattern: "song".to_string(),
            replacement: "SONG".to_string(),
            enabled: false,
        },
    ];
    let res = test_rules_on_tracks(&TestRulesRequest { rules, tracks: vec![info("song"), info("")] });
    for r in &res.track_results {
        assert!(!r.would_change);
        assert_eq!(r.new_track_name, None);
        assert!(r.rules_applied.is_empty());
    }
}

#[test]
fn unmatched_rule_changes_nothing() {
    let rules = vec![RewriteRule {
        id: "1".to_string(),
        name: "live".to_string(),
        pattern: "\\(Live\\)$".to_string(),
        replacement: "".to_string(),
        enabled: true,
    }];
    let res = test_rules_on_tracks(&TestRulesRequest { rules, tracks: vec![info("Studio Take")] });
    assert!(!res.track_results[0].would_change);
    assert_eq!(res.track_results[0].new_track_name, None);
}

#[test]
fn rate_limit_warning_agrees_with_detection() {
    for text in ["HTTP 429", "Retry-After: 10", "quota exceeded", "requests per hour", "all good"] {
        let e = ScrubberEvent {
            timestamp: 5,
            event_type: ScrubberEventType::ClientEvent(ClientEvent {
                kind: ClientEventKind::Other,
                debug_text: text.to_string(),
            }),
        };
        let message = format_event_message_at(&e, 0);
        match detect_rate_limit_from_event(&e) {
            Some(st) => assert_eq!(message, format!("⚠️ Rate Limited: {}", st.message)),
            None => assert_eq!(message, format!("Client: {text}")),
        }
    }
}

#[test]
fn each_kind_has_its_own_category() {
    let t = Track {
        name: "S".to_string(),
        artist: "A".to_string(),
        playcount: 0,
        timestamp: None,
        album: None,
        album_artist: None,
    };
    let kinds = vec![
        ScrubberEventType::Started(String::new()),
        ScrubberEventType::Stopped(String::new()),
        ScrubberEventType::Sleeping { until_next_cycle_seconds: 0, sleep_until_timestamp: 0 },
        ScrubberEventType::TrackProcessed { track: t.clone(), result: String::new() },
        ScrubberEventType::RuleApplied { track: t.clone(), description: String::new() },
        ScrubberEventType::Error(String::new()),
        ScrubberEventType::Info(String::new()),
        ScrubberEventType::CycleCompleted { processed_count: 0, applied_count: 0 },
        ScrubberEventType::CycleStarted(String::new()),
        ScrubberEventType::AnchorUpdated { anchor_timestamp: 0, track: t.clone() },
        ScrubberEventType::TracksFound { count: 0, anchor_timestamp: 0 },
        ScrubberEventType::TrackEdited { track: t.clone() },
        ScrubberEventType::TrackEditFailed { track: t.clone(), error: String::new() },
        ScrubberEventType::TrackSkipped { track: t.clone(), reason: String::new() },
        ScrubberEventType::ClientEvent(ClientEvent { kind: ClientEventKind::Other, debug_text: String::new() }),
        ScrubberEventType::PendingEditCreated { pending_edit_id: String::new(), track: t.clone() },
        ScrubberEventType::ProcessingBatchStarted { tracks: vec![], processing_type: String::new() },
        ScrubberEventType::TrackProcessingStarted { track: t.clone(), track_index: 0, total_tracks: 0 },
        ScrubberEventType::TrackProcessingCompleted {
            track: t,
            track_index: 0,
            total_tracks: 0,
            success: true,
            result_summary: String::new(),
        },
    ];
    let cats: Vec<&str> =
        kinds.into_iter().map(|k| get_event_category(&ScrubberEvent { timestamp: 0, event_type: k })).collect();
    for i in 0..cats.len() {
        for j in 0..cats.len() {
            assert_eq!(cats[i] == cats[j], i == j);
        }
    }
}
