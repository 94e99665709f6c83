use scrobble_scrubber::paging::show_cache_state;
use scrobble_scrubber::cache::{CacheMetadata, CacheStats, TrackCache};
use scrobble_scrubber::track::{copy_opt_string, copy_tracks, Track};

fn track(name: &str, artist: &str, ts: u64) -> Track {
    Track {
        name: name.to_string(),
        artist: artist.to_string(),
        playcount: 1,
        timestamp: Some(ts),
        album: Some("Album".to_string()),
        album_artist: None,
    }
}

fn empty_cache() -> TrackCache {
    TrackCache {
        recent_tracks: Vec::new(),
        artist_tracks: Vec::new(),
        metadata: CacheMetadata { last_updated: 0, version: 1 },
    }
}

#[test]
fn default_cache_is_empty_version_one() {
    let c = TrackCache::default();
    assert!(c.recent_tracks.is_empty());
    assert!(c.artist_tracks.is_empty());
    assert_eq!(c.metadata.version, 1);
    assert!(c.metadata.last_updated > 0);
}

#[test]
fn cached_page_reads_back() {
    let mut c = empty_cache();
    assert!(c.get_recent_tracks(1).is_none());
    c.cache_recent_tracks(1, vec![track("A", "X", 10), track("B", "Y", 9)]);
    let got = c.get_recent_tracks(1).unwrap();
    assert_eq!(got.len(), 2);
    assert_eq!(got[0].name, "A");
    assert!(c.get_recent_tracks(2).is_none());
    assert!(c.metadata.last_updated > 0);
}

#[test]
fn caching_a_page_again_replaces_it() {
    let mut c = empty_cache();
    c.cache_recent_tracks(3, vec![track("A", "X", 10)]);
    c.cache_recent_tracks(3, vec![track("C", "Z", 11), track("D", "Z", 12)]);
    assert_eq!(c.recent_tracks.len(), 1);
    let got = c.get_recent_tracks(3).unwrap();
    assert_eq!(got.len(), 2);
    assert_eq!(got[0].name, "C");
}

#[test]
fn cached_artist_reads_back_and_replaces() {
    let mut c = empty_cache();
    c.cache_artist_tracks("Queen".to_string(), vec![track("Bohemian", "Queen", 1)]);
    c.cache_artist_tracks("ABBA".to_string(), vec![track("SOS", "ABBA", 2)]);
    assert_eq!(c.get_artist_tracks("Queen").unwrap()[0].name, "Bohemian");
    c.cache_artist_tracks("Queen".to_string(), vec![]);
    assert_eq!(c.get_artist_tracks("Queen").unwrap().len(), 0);
    assert_eq!(c.artist_tracks.len(), 2);
    assert!(c.get_artist_tracks("queen").is_none());
}

#[test]
fn clear_artist_leaves_the_others() {
    let mut c = empty_cache();
    c.cache_recent_tracks(1, vec![track("A", "X", 10)]);
    c.cache_artist_tracks("Queen".to_string(), vec![track("Q", "Queen", 1)]);
    c.cache_artist_tracks("ABBA".to_string(), vec![track("S", "ABBA", 2)]);
    c.clear_artist("Queen");
    assert!(c.get_artist_tracks("Queen").is_none());
    assert_eq!(c.get_artist_tracks("ABBA").unwrap().len(), 1);
    assert_eq!(c.get_recent_tracks(1).unwrap().len(), 1);
    c.clear_artist("Nobody");
    assert_eq!(c.artist_tracks.len(), 1);
}

#[test]
fn clear_empties_everything() {
    let mut c = empty_cache();
    c.cache_recent_tracks(1, vec![track("A", "X", 10)]);
    c.cache_artist_tracks("Queen".to_string(), vec![track("Q", "Queen", 1)]);
    c.clear();
    assert!(c.get_recent_tracks(1).is_none());
    assert!(c.get_artist_tracks("Queen").is_none());
    let s = c.stats();
    assert_eq!(s.total_tracks, 0);
    assert_eq!(c.metadata.version, 1);
}

#[test]
fn stats_counts_pages_artists_and_tracks() {
    let mut c = empty_cache();
    c.cache_recent_tracks(1, vec![track("A", "X", 10), track("B", "X", 9)]);
    c.cache_recent_tracks(2, vec![track("C", "X", 8)]);
    c.cache_artist_tracks("Queen".to_string(), vec![track("Q", "Queen", 1)]);
    let s = c.stats();
    assert_eq!(s.recent_pages, 2);
    assert_eq!(s.recent_track_count, 3);
    assert_eq!(s.artist_count, 1);
    assert_eq!(s.artist_track_count, 1);
    assert_eq!(s.total_tracks, 4);
    assert_eq!(s.last_updated, c.metadata.last_updated);
}

#[test]
fn stats_display_string() {
    let s = CacheStats {
        recent_pages: 2,
        recent_track_count: 100,
        artist_count: 3,
        artist_track_count: 45,
        total_tracks: 145,
        last_updated: 0,
    };
    assert_eq!(
        s.to_display_string(),
        "Cache: 2 recent pages (100 tracks), 3 artists (45 tracks), total: 145 tracks"
    );
}

#[test]
fn update_timestamp_only_stamps() {
    let mut c = empty_cache();
    c.cache_recent_tracks(1, vec![track("A", "X", 10)]);
    c.metadata.last_updated = 0;
    let stamped = c.update_timestamp();
    assert!(stamped > 0);
    assert_eq!(c.metadata.last_updated, stamped);
    assert_eq!(c.recent_tracks.len(), 1);
    c.stamp(42);
    assert_eq!(c.metadata.last_updated, 42);
    assert_eq!(c.recent_tracks.len(), 1);
}

#[test]
fn mutators_stamp_the_given_moment() {
    let mut c = TrackCache::empty_at(7);
    assert_eq!(c.metadata.last_updated, 7);
    assert_eq!(c.metadata.version, 1);
    c.cache_recent_tracks_at(1, vec![track("A", "X", 10)], 11);
    assert_eq!(c.metadata.last_updated, 11);
    c.cache_artist_tracks_at("Queen".to_string(), vec![track("Q", "Queen", 1)], 12);
    assert_eq!(c.metadata.last_updated, 12);
    c.clear_artist_at("Queen", 13);
    assert_eq!(c.metadata.last_updated, 13);
    assert!(c.get_artist_tracks("Queen").is_none());
    c.clear_at(14);
    assert_eq!(c.metadata.last_updated, 14);
    assert_eq!(c.stats().total_tracks, 0);
}

#[test]
fn track_copies_are_equal() {
    let t = track("A", "X", 5);
    assert_eq!(t.duplicate(), t);
    let v = vec![t.clone(), track("B", "Y", 6)];
    assert_eq!(copy_tracks(&v), v);
    assert_eq!(copy_opt_string(&Some("x".to_string())), Some("x".to_string()));
    assert_eq!(copy_opt_string(&None), None);
}

#[test]
fn recent_tracks_page_after_page() {
    let mut c = empty_cache();
    c.cache_recent_tracks(1, vec![track("A", "X", 10), track("B", "X", 9)]);
    c.cache_recent_tracks(2, vec![track("C", "X", 8)]);
    let names: Vec<String> = c.all_recent_tracks().into_iter().map(|t| t.name).collect();
    assert_eq!(names, vec!["A", "B", "C"]);
    assert!(empty_cache().all_recent_tracks().is_empty());
}

#[test]
fn cache_state_listing() {
    let empty = show_cache_state(&empty_cache(), 50, false);
    assert_eq!(
        empty,
        vec![
            "📂 Track Cache State",
            "==================",
            "Recent Tracks:",
            "  0 tracks cached",
            "  No recent tracks cached",
            "\nArtist Tracks:",
            "  0 artists cached, 0 total tracks",
            "  No artist tracks cached",
        ]
    );
    let mut c = empty_cache();
    c.cache_recent_tracks(1, vec![track("A", "X", 0), track("B", "Y", 0), track("C", "Z", 0)]);
    c.cache_artist_tracks("Queen".to_string(), vec![track("Q", "Queen", 0), track("R", "Queen", 0)]);
    let lines = show_cache_state(&c, 2, false);
    assert_eq!(lines[3], "  3 tracks cached");
    assert_eq!(lines[4], "  Showing 2 tracks:");
    assert_eq!(lines[5], "    1: 'A' by 'X' [1970-01-01 00:00:00 UTC]");
    assert_eq!(lines[7], "\nArtist Tracks:");
    assert_eq!(lines[8], "  1 artists cached, 2 total tracks");
    assert_eq!(lines[9], "    'Queen': 2 tracks");
    let all = show_cache_state(&c, 2, true);
    assert_eq!(all[7], "    ... and 1 more tracks");
}
