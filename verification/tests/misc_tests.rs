use scrobble_scrubber::lastfm::RateLimitType;
use scrobble_scrubber::mock_client::LastFmClient;
use scrobble_scrubber::session::{missing_requirement, needs_recreation, validate_credentials, CredentialsError};
use scrobble_scrubber::sources::{get_current_tracks, PreviewType, TrackSourceState};
use scrobble_scrubber::text::{
    chars_of, eq_ignore_ascii_case, repeat_char, same_text, str_contains, string_of, u64_to_decimal,
};
use scrobble_scrubber::track::Track;

fn track(name: &str, artist: &str) -> Track {
    Track {
        name: name.to_string(),
        artist: artist.to_string(),
        playcount: 0,
        timestamp: None,
        album: None,
        album_artist: None,
    }
}

#[test]
fn credentials_and_scrubber_requirements() {
    assert_eq!(validate_credentials("a", "b"), Ok(()));
    assert_eq!(validate_credentials("", "b"), Err(CredentialsError::Missing));
    assert_eq!(validate_credentials("a", ""), Err(CredentialsError::Missing));
    assert!(!needs_recreation(true, true, true, true));
    assert!(needs_recreation(false, true, true, true));
    assert!(needs_recreation(true, true, true, false));
    assert_eq!(missing_requirement(false, false, false), Some("No session available"));
    assert_eq!(missing_requirement(true, false, false), Some("No storage available"));
    assert_eq!(missing_requirement(true, true, false), Some("No config available"));
    assert_eq!(missing_requirement(true, true, true), None);
}

#[test]
fn browser_client_samples() {
    let mut c = LastFmClient::new();
    let r = c.test_auth();
    assert!(!r.success);
    assert_eq!(r.message, "Username and password are required");
    c.set_credentials("u".to_string(), "p".to_string());
    let r = c.test_auth();
    assert!(r.success);
    assert_eq!(r.session_key.as_deref(), Some("mock_session_key"));
    let recent = c.get_mock_recent_tracks(3);
    assert_eq!(recent.len(), 3);
    assert_eq!(recent[0].name, "Bohemian Rhapsody (2011 Remaster)");
    assert_eq!(recent[2].artist, "Eagles");
    assert_eq!(c.get_mock_recent_tracks(50).len(), 5);
    let artist = c.get_mock_artist_tracks("Queen", 10);
    assert_eq!(artist.len(), 5);
    assert_eq!(artist[4].artist, "Queen");
    assert_eq!(artist[4].playcount, 30);
    assert_eq!(artist[1].timestamp, Some(1_640_991_600));
    assert!(c.get_mock_artist_tracks("Queen", 0).is_empty());
}

#[test]
fn preview_tracks_from_enabled_sources() {
    let recent = vec![track("r1", "X")];
    let artists = vec![
        ("Queen".to_string(), vec![track("q1", "Queen"), track("q2", "Queen")]),
        ("ABBA".to_string(), vec![track("a1", "ABBA")]),
        ("Nobody".to_string(), vec![track("n1", "Nobody")]),
    ];
    let sources = vec![
        ("ABBA".to_string(), TrackSourceState { enabled: true }),
        ("Queen".to_string(), TrackSourceState { enabled: false }),
        ("ABBA".to_string(), TrackSourceState { enabled: false }),
    ];
    let all = get_current_tracks(&recent, &TrackSourceState { enabled: true }, &artists, &sources);
    let names: Vec<&str> = all.iter().map(|t| t.name.as_str()).collect();
    assert_eq!(names, vec!["r1", "a1"]);
    let none = get_current_tracks(&recent, &TrackSourceState { enabled: false }, &artists, &Vec::new());
    assert!(none.is_empty());
    assert_ne!(PreviewType::CurrentRule, PreviewType::AllSavedRules);
}

#[test]
fn text_helpers() {
    assert_eq!(u64_to_decimal(0), "0");
    assert_eq!(u64_to_decimal(18_446_744_073_709_551_615), "18446744073709551615");
    assert_eq!(chars_of("héllo"), vec!['h', 'é', 'l', 'l', 'o']);
    assert!(str_contains("hello world", "o w"));
    assert!(str_contains("abc", ""));
    assert!(!str_contains("abc", "abcd"));
    assert!(same_text("x", "x"));
    assert!(!same_text("x", "X"));
    assert_eq!(string_of("q"), "q");
    assert_eq!(repeat_char('-', 3), "---");
    assert_eq!(repeat_char('x', 0), "");
    assert!(eq_ignore_ascii_case("Hello", "hELLO"));
    assert!(!eq_ignore_ascii_case("Hello", "Hell"));
    assert!(!eq_ignore_ascii_case("É", "é"));
    assert!(eq_ignore_ascii_case("", ""));
}

#[test]
fn rate_limit_kind_names() {
    assert_eq!(RateLimitType::Http429.debug_name(), "Http429");
    assert_eq!(RateLimitType::Http403.debug_name(), "Http403");
    assert_eq!(RateLimitType::Http503.debug_name(), "Http503");
    assert_eq!(RateLimitType::ResponsePattern.debug_name(), "ResponsePattern");
    assert_eq!(format!("{:?}", RateLimitType::Http503), "Http503");
}
