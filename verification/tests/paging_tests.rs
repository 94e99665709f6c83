use scrobble_scrubber::musicbrainz::{
    all_releases_line, canonical_release_lines, provider_result_lines, release_line, releases_heading,
    search_result_head, search_result_tail, track_list_line, MusicBrainzCommands,
};
use scrobble_scrubber::config::last_n_mode_info;
use scrobble_scrubber::paging::{
    anchor_index, anchor_place, next_display_count, AnchorPlace,
    anchor_error_message, anchor_from_parse, anchor_set_lines, cached_recent_page, is_older_than, next_album_page, parse_anchor_timestamp,
    select_anchor, take_limit, timestamp_label, track_line, track_listing_lines, AnchorError, PageFetch,
    MAX_ALBUM_PAGES, PAGE_SIZE,
};
use scrobble_scrubber::track::Track;

fn tracks(n: usize) -> Vec<Track> {
    (0..n)
        .map(|i| Track {
            name: format!("T{i}"),
            artist: "A".to_string(),
            playcount: 0,
            timestamp: Some(1_000_000 - i as u64),
            album: None,
            album_artist: None,
        })
        .collect()
}

fn s(x: &str) -> Option<String> {
    Some(x.to_string())
}

#[test]
fn pages_of_cached_recent_tracks() {
    let cached = tracks(120);
    assert_eq!(PAGE_SIZE, 50);
    let p1 = cached_recent_page(&cached, 1).unwrap();
    assert_eq!(p1.len(), 50);
    assert_eq!(p1[0].name, "T0");
    let p3 = cached_recent_page(&cached, 3).unwrap();
    assert_eq!(p3.len(), 20);
    assert_eq!(p3[0].name, "T100");
    assert!(cached_recent_page(&cached, 4).is_none());
    assert!(cached_recent_page(&Vec::new(), 1).is_none());
}

#[test]
fn limits_and_album_pages() {
    let t = tracks(5);
    assert_eq!(take_limit(&t, 3).len(), 3);
    assert_eq!(take_limit(&t, 9).len(), 5);
    assert_eq!(MAX_ALBUM_PAGES, 10);
    assert_eq!(next_album_page(1, false, true), (true, Some(2)));
    assert_eq!(next_album_page(1, true, true), (false, None));
    assert_eq!(next_album_page(4, false, false), (true, None));
    assert_eq!(next_album_page(10, false, true), (true, None));
}

#[test]
fn whole_pages_are_fetched() {
    let mut f = PageFetch::new(2);
    assert!(!f.done);
    let mut announced = Vec::new();
    while !f.done {
        if let Some(p) = f.on_track() {
            announced.push(p);
        }
    }
    assert_eq!(f.fetched, 100);
    assert_eq!(announced, vec![2]);
    assert!(PageFetch::new(0).done);

    let mut g = PageFetch::new(3);
    for _ in 0..10 {
        g.on_track();
    }
    g.on_end();
    assert!(g.done);
    assert_eq!(g.fetched, 10);
}

#[test]
fn older_tracks_and_anchor_choice() {
    assert!(is_older_than(Some(100), 200));
    assert!(!is_older_than(Some(300), 200));
    assert!(!is_older_than(None, 200));
    assert!(!is_older_than(Some(1_000_000_000_000_000), 200));

    let t = tracks(3);
    assert_eq!(select_anchor(&t, 0), Ok(1_000_000));
    assert_eq!(select_anchor(&t, 2), Ok(999_998));
    assert_eq!(select_anchor(&t, 3), Err(AnchorError::NotEnoughTracks { requested: 3, available: 3 }));
    assert_eq!(select_anchor(&Vec::new(), 0), Err(AnchorError::NoTracks));
    let mut u = tracks(1);
    u[0].timestamp = None;
    assert_eq!(select_anchor(&u, 0), Err(AnchorError::NoTimestamp));
    u[0].timestamp = Some(1_000_000_000_000_000);
    assert_eq!(select_anchor(&u, 0), Err(AnchorError::InvalidTimestamp));
}

#[test]
fn track_lines_and_listing() {
    assert_eq!(timestamp_label(None), "No timestamp");
    assert_eq!(timestamp_label(Some(0)), "1970-01-01 00:00:00 UTC");
    assert_eq!(timestamp_label(Some(1_000_000_000_000_000)), "Invalid timestamp");
    let t = &tracks(1)[0];
    assert_eq!(track_line("  ", 7, t), "  7: 'T0' by 'A' [1970-01-12 13:46:40 UTC]");
    let lines = track_listing_lines(&tracks(4), 2);
    assert_eq!(lines.len(), 4);
    assert_eq!(lines[0], "  Showing 2 tracks:");
    assert!(lines[1].starts_with("    1: 'T0' by 'A' ["));
    assert!(lines[2].starts_with("    2: 'T1' by 'A' ["));
    assert_eq!(lines[3], "    ... and 2 more tracks");
    let all = track_listing_lines(&tracks(2), 10);
    assert_eq!(all.len(), 3);
    assert_eq!(all[0], "  Showing 2 tracks:");
}

#[test]
fn anchor_timestamps_from_text() {
    assert_eq!(parse_anchor_timestamp("2025-07-22T07:08:00Z"), Ok(1_753_168_080));
    assert_eq!(parse_anchor_timestamp("2025-07-22T09:08:00+02:00"), Ok(1_753_168_080));
    let err = parse_anchor_timestamp("yesterday").unwrap_err();
    assert!(err.starts_with("Failed to parse timestamp 'yesterday': "));
    assert!(err.ends_with(". Use ISO 8601 format like '2025-07-22T07:08:00Z'"));
    assert_eq!(
        anchor_from_parse("x", Err("bad".to_string())),
        Err("Failed to parse timestamp 'x': bad. Use ISO 8601 format like '2025-07-22T07:08:00Z'".to_string())
    );
    assert_eq!(anchor_from_parse("x", Ok(5)), Ok(5));
}

#[test]
fn album_search_lines() {
    assert_eq!(release_line(&s("1975"), &s("GB"), &None, true), "   1975 [GB]  ⭐ [CANONICAL]");
    assert_eq!(release_line(&None, &None, &s("deluxe"), false), "   ???? [??] - deluxe ");
    assert_eq!(releases_heading(12, 10), "Found 12 releases (showing 10):\n");
    assert_eq!(releases_heading(3, 10), "Found 3 releases (showing 3):\n");
}

#[test]
fn track_match_lines() {
    assert_eq!(track_list_line(3, "Bohemian Rhapsody", "bohemian RHAPSODY"), "   3. Bohemian Rhapsody ✅ FOUND");
    assert_eq!(track_list_line(4, "Love of My Life", "Bohemian Rhapsody"), "   4. Love of My Life");
    assert_eq!(track_list_line(1, "Été", "été"), "   1. Été");
    assert_eq!(
        all_releases_line(&s("1975-10-31"), "A Night at the Opera", &s("GB"), &None, true),
        "   1975-10-31 - A Night at the Opera (GB) ← CANONICAL"
    );
    assert_eq!(
        all_releases_line(&None, "Opera", &None, &s("remaster"), false),
        "   ???? - Opera (??) [remaster]"
    );
    assert_eq!(
        canonical_release_lines("Opera", &None, &s("GB"), &s("first press"), "mbid-1"),
        vec![
            "🎯 CANONICAL RELEASE SELECTED BY PROVIDER:",
            "   Title: Opera",
            "   Date: unknown",
            "   Country: GB",
            "   Disambiguation: first press",
            "   MusicBrainz ID: mbid-1",
            "",
        ]
    );
    let yes = provider_result_lines("Song", true);
    assert_eq!(yes.len(), 5);
    assert_eq!(yes[0], "=".repeat(80));
    assert_eq!(yes[2], "✅ Track 'Song' EXISTS on the canonical release");
    let no = provider_result_lines("Song", false);
    assert_eq!(no.len(), 6);
    assert_eq!(no[2], "❌ Track 'Song' is NOT on the canonical release");
    assert_eq!(no[4], "   (likely a bonus track from a special edition or regional release)");
}

#[test]
fn track_search_lines() {
    assert_eq!(search_result_head(0, "Song", "Band", &s("Album")), vec!["1. 'Song' by 'Band'", "   Album: Album"]);
    assert_eq!(search_result_head(4, "Song", "Band", &None), vec!["5. 'Song' by 'Band'"]);
    assert_eq!(search_result_tail("m1", &s("r1")), vec!["   MBID: m1", "   Release ID: r1", ""]);
    assert_eq!(search_result_tail("m1", &None), vec!["   MBID: m1", ""]);
    let c = MusicBrainzCommands::TrackSearch { artist: "a".to_string(), title: "t".to_string(), album: None, limit: 5 };
    assert_eq!(c.clone(), c);
}

#[test]
fn anchor_messages() {
    assert_eq!(anchor_error_message(&AnchorError::NoTracks), "❌ No recent tracks in cache. Load some tracks first.");
    assert_eq!(
        anchor_error_message(&AnchorError::NotEnoughTracks { requested: 10, available: 3 }),
        "❌ Requested to go back 10 tracks, but only 3 tracks available"
    );
    assert_eq!(anchor_error_message(&AnchorError::NoTimestamp), "❌ Target track has no timestamp information");
    assert_eq!(anchor_error_message(&AnchorError::InvalidTimestamp), "Invalid timestamp");
    let t = &tracks(1)[0];
    assert_eq!(
        anchor_set_lines(t),
        vec![
            "Setting anchor to track 'T0' by 'A'",
            "Timestamp: 1970-01-12 13:46:40 UTC",
            "✅ Timestamp anchor set successfully",
            "Next scrubber run will process tracks from this point forward",
        ]
    );
}

#[test]
fn last_n_modes() {
    assert_eq!(last_n_mode_info(true, true), " (PATTERN ANALYSIS MODE - rule focus, no existing rules)");
    assert_eq!(last_n_mode_info(true, false), " (rule focus mode)");
    assert_eq!(last_n_mode_info(false, true), " (no existing rules)");
    assert_eq!(last_n_mode_info(false, false), "");
}

#[test]
fn anchor_position_among_cached_tracks() {
    let t = tracks(4);
    assert_eq!(anchor_index(&t, Some(999_998)), Some(2));
    assert_eq!(anchor_index(&t, Some(5)), None);
    assert_eq!(anchor_index(&t, None), None);
    assert_eq!(anchor_place(2, Some(2)), AnchorPlace::Anchor);
    assert_eq!(anchor_place(1, Some(2)), AnchorPlace::Pending);
    assert_eq!(anchor_place(3, Some(2)), AnchorPlace::Processed);
    assert_eq!(anchor_place(0, None), AnchorPlace::Unanchored);
    assert_eq!(next_display_count(50, 120), 100);
    assert_eq!(next_display_count(100, 120), 120);
}

fn stamped(ts: Option<u64>) -> Vec<Track> {
    vec![Track { name: "Song".to_string(), artist: "Band".to_string(), album: None, album_artist: None, playcount: 1, timestamp: ts }]
}

#[test]
fn timestamps_at_the_edges_of_the_representable_range() {
    let last = 8_210_266_876_799u64;
    let first = (-8_334_601_228_800i64) as u64;
    assert_eq!(timestamp_label(Some(last)), "+262142-12-31 23:59:59 UTC");
    assert_eq!(timestamp_label(Some(last + 1)), "Invalid timestamp");
    assert_eq!(timestamp_label(Some(first)), "-262143-01-01 00:00:00 UTC");
    assert_eq!(timestamp_label(Some(first - 1)), "Invalid timestamp");
    assert_eq!(timestamp_label(Some(u64::MAX)), "1969-12-31 23:59:59 UTC");
    assert_eq!(select_anchor(&stamped(Some(last)), 0), Ok(last));
    assert_eq!(select_anchor(&stamped(Some(last + 1)), 0), Err(AnchorError::InvalidTimestamp));
    assert_eq!(select_anchor(&stamped(Some(first)), 0), Ok(first));
    assert_eq!(select_anchor(&stamped(Some(first - 1)), 0), Err(AnchorError::InvalidTimestamp));
    assert!(is_older_than(Some(first), 0));
    assert!(!is_older_than(Some(first - 1), 0));
    assert!(!is_older_than(Some(last), 0));
}

#[test]
fn accepted_anchor_is_announced_with_its_time() {
    let t = stamped(Some(1_431_648_000));
    let at = select_anchor(&t, 0).unwrap();
    assert_eq!(at, 1_431_648_000);
    let lines = anchor_set_lines(&t[0]);
    assert_eq!(lines[1], "Timestamp: 2015-05-15 00:00:00 UTC");
    assert!(lines.iter().all(|l| !l.contains("Invalid timestamp")));
}
