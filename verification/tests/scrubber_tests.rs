use scrobble_scrubber::events::{RateLimitState, ScrubberEvent, ScrubberEventType};
use scrobble_scrubber::progress::{TrackProgressState, TrackStatus};
use scrobble_scrubber::scrubber::{
    cycle_interval, finish_cycle, handle_scrubber_event, is_active, record_cycle_event, ScrubberState,
    ScrubberStatus,
};
use scrobble_scrubber::track::Track;

fn track(name: &str) -> Track {
    Track {
        name: name.to_string(),
        artist: "Band".to_string(),
        playcount: 0,
        timestamp: None,
        album: None,
        album_artist: None,
    }
}

fn ev(t: ScrubberEventType) -> ScrubberEvent {
    ScrubberEvent { timestamp: 10, event_type: t }
}

fn batch(n: usize) -> ScrubberEvent {
    ev(ScrubberEventType::ProcessingBatchStarted {
        tracks: (0..n).map(|i| track(&format!("t{i}"))).collect(),
        processing_type: "scan".to_string(),
    })
}

fn started(i: usize, n: usize) -> ScrubberEvent {
    ev(ScrubberEventType::TrackProcessingStarted { track: track("x"), track_index: i, total_tracks: n })
}

fn completed(i: usize, n: usize, ok: bool) -> ScrubberEvent {
    ev(ScrubberEventType::TrackProcessingCompleted {
        track: track("x"),
        track_index: i,
        total_tracks: n,
        success: ok,
        result_summary: "s".to_string(),
    })
}

#[test]
fn default_progress_is_hidden_and_empty() {
    let p = TrackProgressState::default();
    assert!(p.tracks.is_empty());
    assert!(p.track_statuses.is_empty());
    assert_eq!(p.current_processing_index, None);
    assert!(!p.is_visible);
    assert!(p.auto_scroll);
}

#[test]
fn batch_start_marks_all_pending() {
    let mut p = TrackProgressState::default();
    p.start_batch(vec![track("a"), track("b"), track("c")], "artist".to_string());
    assert_eq!(p.tracks.len(), 3);
    assert_eq!(p.track_statuses.len(), 3);
    for i in 0..3 {
        assert_eq!(p.track_statuses.get(&i), Some(&TrackStatus::Pending));
    }
    assert!(p.is_visible);
    assert_eq!(p.processing_type, "artist");
    assert_eq!(p.current_processing_index, None);
}

#[test]
fn completing_current_track_moves_to_next_waiting() {
    let mut p = TrackProgressState::default();
    p.start_batch(vec![track("a"), track("b"), track("c"), track("d")], "x".to_string());
    p.start_track_processing(2);
    p.complete_track_processing(2, true, "ok".to_string());
    assert_eq!(p.current_processing_index, Some(3));
    p.start_track_processing(3);
    p.complete_track_processing(3, false, "bad".to_string());
    assert_eq!(p.current_processing_index, None);
    assert_eq!(
        p.track_statuses.get(&3),
        Some(&TrackStatus::Completed { success: false, summary: "bad".to_string() })
    );
}

#[test]
fn completing_other_track_keeps_current() {
    let mut p = TrackProgressState::default();
    p.start_batch(vec![track("a"), track("b")], "x".to_string());
    p.start_track_processing(0);
    p.complete_track_processing(1, true, "ok".to_string());
    assert_eq!(p.current_processing_index, Some(0));
    assert_eq!(p.track_statuses.get(&0), Some(&TrackStatus::Processing));
}

#[test]
fn batch_events_run_in_order() {
    let mut events = Vec::new();
    let mut p = TrackProgressState::default();
    handle_scrubber_event(&mut events, &mut p, batch(3));
    for i in 0..3 {
        handle_scrubber_event(&mut events, &mut p, started(i, 3));
        assert_eq!(p.current_processing_index, Some(i));
        handle_scrubber_event(&mut events, &mut p, completed(i, 3, true));
    }
    assert_eq!(events.len(), 7);
    assert_eq!(p.current_processing_index, None);
    for i in 0..3 {
        assert!(matches!(p.track_statuses.get(&i), Some(TrackStatus::Completed { success: true, .. })));
    }
}

#[test]
fn other_events_only_join_the_log() {
    let mut events = Vec::new();
    let mut p = TrackProgressState::default();
    handle_scrubber_event(&mut events, &mut p, ev(ScrubberEventType::Info("hi".to_string())));
    assert_eq!(events.len(), 1);
    assert!(!p.is_visible);
}

#[test]
fn cycle_events_are_logged_and_counted() {
    let mut s = ScrubberState::new();
    let mut p = TrackProgressState::default();
    let t = track("a");
    assert!(!record_cycle_event(
        &mut s,
        &mut p,
        ev(ScrubberEventType::TrackProcessed { track: t.clone(), result: "r".to_string() })
    ));
    assert!(!record_cycle_event(
        &mut s,
        &mut p,
        ev(ScrubberEventType::RuleApplied { track: t.clone(), description: "d".to_string() })
    ));
    assert!(!record_cycle_event(
        &mut s,
        &mut p,
        ev(ScrubberEventType::AnchorUpdated { anchor_timestamp: 99, track: t.clone() })
    ));
    assert!(record_cycle_event(
        &mut s,
        &mut p,
        ev(ScrubberEventType::CycleCompleted { processed_count: 1, applied_count: 1 })
    ));
    assert_eq!(s.events.len(), 4);
    assert_eq!(s.processed_count, 1);
    assert_eq!(s.rules_applied_count, 1);
    assert_eq!(s.current_anchor_timestamp, Some(99));
}

#[test]
fn activity_and_interval() {
    assert!(is_active(&ScrubberStatus::Running));
    assert!(is_active(&ScrubberStatus::Sleeping { until_timestamp: 5 }));
    assert!(!is_active(&ScrubberStatus::Stopped));
    assert!(!is_active(&ScrubberStatus::Stopping));
    assert!(!is_active(&ScrubberStatus::Error("e".to_string())));
    assert_eq!(cycle_interval(Some(300)), 300);
    assert_eq!(cycle_interval(None), 30);
}

#[test]
fn finishing_a_cycle_sleeps_or_stops() {
    let mut s = ScrubberState::new();
    finish_cycle(&mut s, Ok(()), 1000, 300);
    assert_eq!(s.status, ScrubberStatus::Sleeping { until_timestamp: 1300 });
    assert_eq!(s.next_cycle_timestamp, Some(1300));
    finish_cycle(&mut s, Err("network".to_string()), 2000, 300);
    assert_eq!(s.status, ScrubberStatus::Error("network".to_string()));
    assert_eq!(s.next_cycle_timestamp, Some(1300));
}

#[test]
fn scrubber_states_compare_by_what_the_ui_shows() {
    let mut a = ScrubberState::new();
    let mut b = ScrubberState::new();
    assert!(a == b);
    a.events.push(ev(ScrubberEventType::Info("one".to_string())));
    b.events.push(ev(ScrubberEventType::Info("two".to_string())));
    assert!(a == b);
    b.events.push(ev(ScrubberEventType::Info("three".to_string())));
    assert!(a != b);
    let mut c = ScrubberState::new();
    c.status = ScrubberStatus::Error("x".to_string());
    let mut d = ScrubberState::new();
    d.status = ScrubberStatus::Error("y".to_string());
    assert!(c != d);
    let rl = RateLimitState {
        is_rate_limited: true,
        detected_at: 1,
        retry_after: None,
        message: "m".to_string(),
        delay_seconds: 0,
        rate_limit_type: None,
    };
    let mut e = ScrubberState::new();
    e.rate_limit_state = Some(rl.clone());
    let mut f = ScrubberState::new();
    f.rate_limit_state = Some(rl);
    assert!(e == f);
    assert!(e != ScrubberState::new());
}
