use scrobble_scrubber::workshop::{
    demo_fetch_tracks, demo_scan_update, fetch_limit, fetch_result, get_rewrite_rules, login_result, scan_result, test_rule,
    test_rules_on_tracks, worker_login_reply, worker_scan_reply, RewriteRule, TestRuleRequest, TestRulesRequest, TrackInfo, WorkerReply,
    DEMO_SCAN_TRACKS, worker_step, WorkerRequest, WorkerResponse,
};

fn info(name: &str) -> TrackInfo {
    TrackInfo { name: name.to_string(), artist: "A".to_string(), album: None, playcount: 1, timestamp: None }
}

fn rule(name: &str, pattern: &str, replacement: &str, enabled: bool) -> RewriteRule {
    RewriteRule {
        id: name.to_string(),
        name: name.to_string(),
        pattern: pattern.to_string(),
        replacement: replacement.to_string(),
        enabled,
    }
}

#[test]
fn trying_one_pattern() {
    let ok = test_rule(&TestRuleRequest {
        pattern: "^(.*) - \\d{4} Remaster$".to_string(),
        replacement: "$1".to_string(),
        test_input: "Song - 2009 Remaster".to_string(),
    });
    assert!(ok.success);
    assert_eq!(ok.result, "Song");
    assert_eq!(ok.error, None);

    let unchanged = test_rule(&TestRuleRequest {
        pattern: "xyz".to_string(),
        replacement: "q".to_string(),
        test_input: "Song".to_string(),
    });
    assert!(unchanged.success);
    assert_eq!(unchanged.result, "Song");

    let bad = test_rule(&TestRuleRequest {
        pattern: "(".to_string(),
        replacement: String::new(),
        test_input: "Song".to_string(),
    });
    assert!(!bad.success);
    assert_eq!(bad.result, "Song");
    assert!(bad.error.unwrap().starts_with("Invalid regex pattern: "));
}

#[test]
fn rules_apply_in_order_and_are_named() {
    let rules = vec![
        rule("remaster", " - Remastered$", "", true),
        rule("disabled", "Song", "XX", false),
        rule("broken", "(", "", true),
        rule("feat", " \\(feat\\. (.*)\\)", " feat. $1", true),
        rule("noop", "Song", "Song", true),
    ];
    let res = test_rules_on_tracks(&TestRulesRequest {
        rules,
        tracks: vec![info("Song (feat. B) - Remastered"), info("Plain")],
    });
    assert_eq!(res.track_results.len(), 2);
    let first = &res.track_results[0];
    assert!(first.would_change);
    assert_eq!(first.new_track_name.as_deref(), Some("Song feat. B"));
    assert_eq!(first.rules_applied, vec!["remaster".to_string(), "feat".to_string()]);
    assert_eq!(first.new_artist_name, None);
    assert_eq!(first.original_track, info("Song (feat. B) - Remastered"));
    let second = &res.track_results[1];
    assert!(!second.would_change);
    assert_eq!(second.new_track_name, None);
    assert!(second.rules_applied.is_empty());
}

#[test]
fn demonstration_tracks() {
    assert_eq!(fetch_limit(None), 100);
    assert_eq!(fetch_limit(Some(3)), 3);
    let recent = demo_fetch_tracks(None, 100);
    assert_eq!(recent.len(), 5);
    assert_eq!(recent[0].name, "Recent Song 1 - Remastered");
    assert_eq!(recent[1].timestamp, Some(1_642_003_600));
    let artist = demo_fetch_tracks(Some("Queen"), 2);
    assert_eq!(artist.len(), 2);
    assert_eq!(artist[1].name, "Track Two (Live Version)");
    assert_eq!(artist[1].artist, "Queen");
    assert_eq!(artist[1].album.as_deref(), Some("Live Album"));
    assert_eq!(artist[1].timestamp, Some(1_642_086_400));
    assert!(demo_fetch_tracks(None, 0).is_empty());
}

#[test]
fn demonstration_scan() {
    assert_eq!(DEMO_SCAN_TRACKS, 5);
    let u = demo_scan_update("Queen", 0, false);
    assert_eq!(u.track_name, "Song One");
    assert_eq!(u.original_track, "Song One (feat. Someone)");
    assert_eq!(u.artist_name, "Queen");
    assert_eq!(u.status, "processing");
    assert_eq!(u.rules_applied, vec!["Remove feat. from track names".to_string()]);
    assert_eq!(demo_scan_update("Queen", 4, true).status, "completed");
}

#[test]
fn default_workshop_rules() {
    let rules = get_rewrite_rules();
    assert_eq!(rules.len(), 3);
    assert_eq!(rules[0].name, "Remove remaster suffixes");
    assert!(!rules[2].enabled);
    let res = test_rules_on_tracks(&TestRulesRequest {
        rules,
        tracks: vec![info("Song - 2009 Remaster"), info("Song (feat. B)")],
    });
    assert_eq!(res.track_results[0].new_track_name.as_deref(), Some("Song"));
    assert_eq!(res.track_results[1].new_track_name.as_deref(), Some("Song  feat. B"));
}

#[test]
fn worker_replies() {
    let ok = login_result("alice", WorkerReply::Done(()));
    assert!(ok.success);
    assert_eq!(ok.message, "Successfully logged in as alice");
    assert_eq!(login_result("a", WorkerReply::Failed("bad password".to_string())).message, "bad password");
    assert_eq!(
        login_result("a", WorkerReply::SendFailed).message,
        "Internal error: could not communicate with worker"
    );
    assert_eq!(login_result("a", WorkerReply::ReceiveFailed).message, "Internal error: worker communication failed");

    let refused = scan_result("Queen", false, WorkerReply::Done(3));
    assert!(!refused.success);
    assert_eq!(refused.message, "Not logged in. Please login first.");
    let done = scan_result("Queen", true, WorkerReply::Done(5));
    assert!(done.success);
    assert_eq!(done.tracks_processed, 5);
    assert_eq!(done.message, "Successfully scanned tracks for artist: Queen");
    let failed = scan_result("Queen", true, WorkerReply::Failed("x".to_string()));
    assert!(!failed.success);
    assert_eq!(failed.tracks_processed, 0);
}

#[test]
fn fetch_replies() {
    assert_eq!(fetch_result(false, WorkerReply::Done(vec![info("a")])), Err("Not logged in. Please login first.".to_string()));
    assert_eq!(fetch_result(true, WorkerReply::Done(vec![info("a")])), Ok(vec![info("a")]));
    assert_eq!(fetch_result(true, WorkerReply::Failed("boom".to_string())), Err("boom".to_string()));
    assert_eq!(
        fetch_result(true, WorkerReply::SendFailed),
        Err("Internal error: could not communicate with worker".to_string())
    );
    assert_eq!(
        fetch_result(true, WorkerReply::ReceiveFailed),
        Err("Internal error: worker communication failed".to_string())
    );
}

#[test]
fn worker_answers() {
    assert_eq!(worker_scan_reply(true), Ok(5));
    assert_eq!(worker_scan_reply(false), Err("Not logged in".to_string()));
    assert_eq!(worker_login_reply(Ok(())), Ok(()));
    assert_eq!(worker_login_reply(Err("bad".to_string())), Err("Login failed: bad".to_string()));
}

#[test]
fn worker_scans_only_after_a_successful_login() {
    let step = worker_step(false, WorkerRequest::ProcessArtist { artist: "Band".to_string() });
    assert!(!step.logged_in);
    assert!(step.updates.is_empty());
    assert_eq!(step.response, WorkerResponse::ProcessArtist(Err("Not logged in".to_string())));

    let step = worker_step(false, WorkerRequest::Login { outcome: Err("bad password".to_string()) });
    assert!(!step.logged_in);
    assert_eq!(step.response, WorkerResponse::Login(Err("Login failed: bad password".to_string())));

    let step = worker_step(false, WorkerRequest::Login { outcome: Ok(()) });
    assert!(step.logged_in);
    assert_eq!(step.response, WorkerResponse::Login(Ok(())));

    let step = worker_step(step.logged_in, WorkerRequest::ProcessArtist { artist: "Band".to_string() });
    assert!(step.logged_in);
    assert_eq!(step.response, WorkerResponse::ProcessArtist(Ok(5)));
    assert_eq!(step.updates.len(), 2 * DEMO_SCAN_TRACKS);
    for (j, u) in step.updates.iter().enumerate() {
        assert_eq!(*u, demo_scan_update("Band", j / 2, j % 2 == 1));
    }
    assert_eq!(step.updates[0].status, "processing");
    assert_eq!(step.updates[1].status, "completed");
    assert_eq!(step.updates[9].track_name, "Final Song");
}

#[test]
fn worker_keeps_its_session_when_a_later_login_fails() {
    let step = worker_step(true, WorkerRequest::Login { outcome: Err("timeout".to_string()) });
    assert!(step.logged_in);
    assert_eq!(step.response, WorkerResponse::Login(Err("Login failed: timeout".to_string())));
}

#[test]
fn worker_fetch_needs_no_session() {
    let step = worker_step(false, WorkerRequest::FetchTracks { artist: Some("Band".to_string()), limit: 2 });
    assert!(!step.logged_in);
    assert!(step.updates.is_empty());
    assert_eq!(step.response, WorkerResponse::FetchTracks(Ok(demo_fetch_tracks(Some("Band"), 2))));
    let step = worker_step(true, WorkerRequest::FetchTracks { artist: None, limit: 100 });
    match step.response {
        WorkerResponse::FetchTracks(Ok(ts)) => {
            assert_eq!(ts.len(), 5);
            assert_eq!(ts[0].name, "Recent Song 1 - Remastered");
        }
        _ => panic!("fetch failed"),
    }
}
