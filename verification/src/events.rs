use vstd::prelude::*;
use crate::lastfm::{
    ClientEvent, ClientEventKind, RateLimitType, RequestInfo, params_view, rate_limit_type_name,
    request_short_description, short_description,
};
use crate::text::{
    decimal, has_substring, lowercase, push_decimal, push_str, str_contains, string_of, to_lowercase,
};
use crate::track::Track;

verus! {

/// What the scrubber reports while it runs.
#[derive(Debug, Clone, PartialEq)]
pub enum ScrubberEventType {
    Started(String),
    Stopped(String),
    Sleeping { until_next_cycle_seconds: u64, sleep_until_timestamp: i64 },
    TrackProcessed { track: Track, result: String },
    RuleApplied { track: Track, description: String },
    Error(String),
    Info(String),
    CycleCompleted { processed_count: usize, applied_count: usize },
    CycleStarted(String),
    AnchorUpdated { anchor_timestamp: u64, track: Track },
    TracksFound { count: usize, anchor_timestamp: u64 },
    TrackEdited { track: Track },
    TrackEditFailed { track: Track, error: String },
    TrackSkipped { track: Track, reason: String },
    ClientEvent(ClientEvent),
    PendingEditCreated { pending_edit_id: String, track: Track },
    ProcessingBatchStarted { tracks: Vec<Track>, processing_type: String },
    TrackProcessingStarted { track: Track, track_index: usize, total_tracks: usize },
    TrackProcessingCompleted {
        track: Track,
        track_index: usize,
        total_tracks: usize,
        success: bool,
        result_summary: String,
    },
}

/// An event with the moment it happened, in seconds since the Unix epoch.
#[derive(Debug, Clone, PartialEq)]
pub struct ScrubberEvent {
    pub timestamp: i64,
    pub event_type: ScrubberEventType,
}

/// The rate-limit situation the UI shows.
#[derive(Debug, Clone, PartialEq)]
pub struct RateLimitState {
    pub is_rate_limited: bool,
    pub detected_at: i64,
    pub retry_after: Option<i64>,
    pub message: String,
    pub delay_seconds: u64,
    pub rate_limit_type: Option<String>,
}

/// `'name' by 'artist'`
pub open spec fn quoted_pair(first: Seq<char>, second: Seq<char>) -> Seq<char> {
    "'"@ + first + "' by '"@ + second + "'"@
}

/// The lowercase markers of rate limiting in a client event's text, before lowercasing.
pub open spec fn rate_limit_indicators() -> Seq<Seq<char>> {
    seq![
        "RateLimit"@,
        "rate limit"@,
        "429"@,
        "Too Many Requests"@,
        "Retry-After"@,
        "quota exceeded"@,
        "requests per"@,
        "rate exceeded"@,
    ]
}

/// A client event's text shows rate limiting when, lowercased, it holds one of the markers,
/// lowercased.
pub open spec fn looks_rate_limited(text: Seq<char>) -> bool {
    exists|k: int|
        0 <= k < 8 && #[trigger] has_substring(lowercase(text), lowercase(rate_limit_indicators()[k]))
}

/// The user-facing explanation of a rate limit seen in a client event's text.
pub open spec fn rate_limit_message(text: Seq<char>) -> Seq<char> {
    if has_substring(text, "429"@) {
        "HTTP 429 - Too Many Requests received from Last.fm API"@
    } else if has_substring(lowercase(text), "retry-after"@) {
        "Rate limited by Last.fm API - retry after some time"@
    } else if has_substring(lowercase(text), "quota"@) {
        "API quota exceeded"@
    } else {
        "Rate limited by Last.fm API"@
    }
}

/// The whole seconds in a span of milliseconds, rounded toward zero.
pub open spec fn whole_seconds(ms: int) -> int {
    if ms >= 0 {
        ms / 1000
    } else {
        -((-ms) / 1000)
    }
}

/// The whole seconds left from `now_ms` (milliseconds since the Unix epoch) until `until`
/// (seconds since the Unix epoch), never below zero.
pub open spec fn remaining_seconds(until: int, now_ms: int) -> int {
    if whole_seconds(until * 1000 - now_ms) > 0 {
        whole_seconds(until * 1000 - now_ms)
    } else {
        0
    }
}

/// The one-line message the UI shows for an event, at time `now` (milliseconds since the Unix
/// epoch).
pub open spec fn event_message(e: ScrubberEvent, now: int) -> Seq<char> {
    match e.event_type {
        ScrubberEventType::Started(msg) => msg@,
        ScrubberEventType::Stopped(msg) => msg@,
        ScrubberEventType::Sleeping { until_next_cycle_seconds, sleep_until_timestamp } => {
            let rem = remaining_seconds(sleep_until_timestamp as int, now);
            if rem > 0 {
                "💤 Sleeping ("@ + decimal(rem as nat) + "s remaining)"@
            } else {
                "Sleeping for "@ + decimal(until_next_cycle_seconds as nat)
                    + " seconds until next processing cycle"@
            }
        },
        ScrubberEventType::TrackProcessed { track, result } => quoted_pair(track.name@, track.artist@)
            + " - "@ + result@,
        ScrubberEventType::RuleApplied { track, description } => "Applied rule '"@ + description@
            + "' to "@ + quoted_pair(track.name@, track.artist@),
        ScrubberEventType::Error(msg) => msg@,
        ScrubberEventType::Info(msg) => msg@,
        ScrubberEventType::CycleCompleted { processed_count, applied_count } =>
            "Processing cycle completed: "@ + decimal(processed_count as nat) + " tracks processed, "@
            + decimal(applied_count as nat) + " rules applied"@,
        ScrubberEventType::CycleStarted(msg) => msg@,
        ScrubberEventType::AnchorUpdated { anchor_timestamp, track } => "Processing anchor updated to "@
            + quoted_pair(track.name@, track.artist@),
        ScrubberEventType::TracksFound { count, anchor_timestamp } => "Found "@ + decimal(count as nat)
            + " tracks to process"@,
        ScrubberEventType::TrackEdited { track } => "Edited track "@ + quoted_pair(track.artist@, track.name@),
        ScrubberEventType::TrackEditFailed { track, error } => "Failed to edit "@ + quoted_pair(
            track.artist@,
            track.name@,
        ) + ": "@ + error@,
        ScrubberEventType::TrackSkipped { track, reason } => "Skipped "@ + quoted_pair(track.artist@, track.name@)
            + ": "@ + reason@,
        ScrubberEventType::ClientEvent(ce) => if looks_rate_limited(ce.debug_text@) {
            "⚠️ Rate Limited: "@ + rate_limit_message(ce.debug_text@)
        } else {
            "Client: "@ + ce.debug_text@
        },
        ScrubberEventType::PendingEditCreated { pending_edit_id, track } => "Created pending edit (ID: "@
            + pending_edit_id@ + ") for "@ + quoted_pair(track.name@, track.artist@),
        ScrubberEventType::ProcessingBatchStarted { tracks, processing_type } => "Started "@ + processing_type@
            + ": "@ + decimal(tracks.len() as nat) + " tracks to process"@,
        ScrubberEventType::TrackProcessingStarted { track, track_index, total_tracks } => "Processing ["@
            + decimal((track_index + 1) as nat) + "/"@ + decimal(total_tracks as nat) + "]: "@
            + quoted_pair(track.name@, track.artist@),
        ScrubberEventType::TrackProcessingCompleted {
            track,
            track_index,
            total_tracks,
            success,
            result_summary,
        } => "Completed ["@ + decimal((track_index + 1) as nat) + "/"@ + decimal(total_tracks as nat) + "] "@
            + (if success { "✓"@ } else { "✗"@ }) + ": "@ + quoted_pair(track.name@, track.artist@) + " - "@
            + result_summary@,
    }
}

/// Events whose message shows a 1-based position need that position to fit a `usize`.
pub open spec fn event_displayable(e: ScrubberEvent) -> bool {
    match e.event_type {
        ScrubberEventType::TrackProcessingStarted { track_index, .. } => track_index < usize::MAX,
        ScrubberEventType::TrackProcessingCompleted { track_index, .. } => track_index < usize::MAX,
        _ => true,
    }
}

/// The message does not depend on the time, but for a sleeping event.
pub open spec fn message_uses_time(e: ScrubberEvent) -> bool {
    e.event_type is Sleeping
}

/// The anchor timestamp an event carries, if any.
pub open spec fn event_anchor(e: ScrubberEvent) -> Option<u64> {
    match e.event_type {
        ScrubberEventType::AnchorUpdated { anchor_timestamp, .. } => Some(anchor_timestamp),
        ScrubberEventType::TracksFound { anchor_timestamp, .. } => Some(anchor_timestamp),
        _ => None,
    }
}

/// The category word of an event.
pub open spec fn event_category(e: ScrubberEvent) -> Seq<char> {
    match e.event_type {
        ScrubberEventType::Started(_) => "started"@,
        ScrubberEventType::Stopped(_) => "stopped"@,
        ScrubberEventType::Sleeping { .. } => "sleeping"@,
        ScrubberEventType::TrackProcessed { .. } => "track_processed"@,
        ScrubberEventType::RuleApplied { .. } => "rule_applied"@,
        ScrubberEventType::Error(_) => "error"@,
        ScrubberEventType::Info(_) => "info"@,
        ScrubberEventType::CycleCompleted { .. } => "cycle_completed"@,
        ScrubberEventType::CycleStarted(_) => "cycle_started"@,
        ScrubberEventType::AnchorUpdated { .. } => "anchor_updated"@,
        ScrubberEventType::TracksFound { .. } => "tracks_found"@,
        ScrubberEventType::TrackEdited { .. } => "track_edited"@,
        ScrubberEventType::TrackEditFailed { .. } => "track_edit_failed"@,
        ScrubberEventType::TrackSkipped { .. } => "track_skipped"@,
        ScrubberEventType::ClientEvent(_) => "client_event"@,
        ScrubberEventType::PendingEditCreated { .. } => "pending_edit_created"@,
        ScrubberEventType::ProcessingBatchStarted { .. } => "processing_batch_started"@,
        ScrubberEventType::TrackProcessingStarted { .. } => "track_processing_started"@,
        ScrubberEventType::TrackProcessingCompleted { .. } => "track_processing_completed"@,
    }
}

/// The model of a rate-limit state: its fields, strings by their text.
pub struct RateLimitView {
    pub is_rate_limited: bool,
    pub detected_at: i64,
    pub retry_after: Option<i64>,
    pub message: Seq<char>,
    pub delay_seconds: u64,
    pub rate_limit_type: Option<Seq<char>>,
}

impl View for RateLimitState {
    type V = RateLimitView;

    open spec fn view(&self) -> RateLimitView {
        RateLimitView {
            is_rate_limited: self.is_rate_limited,
            detected_at: self.detected_at,
            retry_after: self.retry_after,
            message: self.message@,
            delay_seconds: self.delay_seconds,
            rate_limit_type: match self.rate_limit_type {
                Some(t) => Some(t@),
                None => None,
            },
        }
    }
}

/// The message shown for a structured rate-limit event.
pub open spec fn rate_limited_message(t: RateLimitType, delay: u64, request: Option<RequestInfo>) -> Seq<char> {
    "Rate limited by Last.fm API ("@ + rate_limit_type_name(t) + ") - waiting "@ + decimal(delay as nat)
        + " seconds"@ + match request {
        Some(r) => " (request: "@ + request_short_description(r.method@, r.path@, params_view(r.query_params@))
            + ")"@,
        None => Seq::<char>::empty(),
    }
}

/// The rate-limit state an event shows, if any.
pub open spec fn detected_rate_limit(e: ScrubberEvent) -> Option<RateLimitView> {
    match e.event_type {
        ScrubberEventType::ClientEvent(ce) => match ce.kind {
            ClientEventKind::RateLimited { delay_seconds, request, rate_limit_type, .. } => Some(
                RateLimitView {
                    is_rate_limited: true,
                    detected_at: e.timestamp,
                    retry_after: Some((e.timestamp + delay_seconds) as i64),
                    message: rate_limited_message(rate_limit_type, delay_seconds, request),
                    delay_seconds: delay_seconds,
                    rate_limit_type: Some(rate_limit_type_name(rate_limit_type)),
                },
            ),
            _ => if looks_rate_limited(ce.debug_text@) {
                Some(
                    RateLimitView {
                        is_rate_limited: true,
                        detected_at: e.timestamp,
                        retry_after: None,
                        message: rate_limit_message(ce.debug_text@),
                        delay_seconds: 0,
                        rate_limit_type: None,
                    },
                )
            } else {
                None
            },
        },
        _ => None,
    }
}

/// A structured rate-limit event must describe a delay the clock arithmetic can hold.
pub open spec fn rate_limit_representable(e: ScrubberEvent) -> bool {
    match e.event_type {
        ScrubberEventType::ClientEvent(ce) => match ce.kind {
            ClientEventKind::RateLimited { delay_seconds, .. } => delay_seconds <= i64::MAX / 1000
                && e.timestamp + delay_seconds <= i64::MAX,
            _ => true,
        },
        _ => true,
    }
}

/// One of the rate-limit markers, by position.
fn rate_limit_indicator(k: usize) -> (r: &'static str)
    requires
        k < 8,
    ensures
        r@ == rate_limit_indicators()[k as int],
{
    match k {
        0 => "RateLimit",
        1 => "rate limit",
        2 => "429",
        3 => "Too Many Requests",
        4 => "Retry-After",
        5 => "quota exceeded",
        6 => "requests per",
        _ => "rate exceeded",
    }
}

/// Whether a client event's text shows rate limiting.
pub fn is_rate_limit_event(debug_str: &str) -> (r: bool)
    ensures
        r == looks_rate_limited(debug_str@),
{
    let debug_lower = to_lowercase(debug_str);
    let mut k: usize = 0;
    while k < 8
        invariant
            k <= 8,
            debug_lower@ == lowercase(debug_str@),
            forall|j: int|
                0 <= j < k ==> !#[trigger] has_substring(
                    lowercase(debug_str@),
                    lowercase(rate_limit_indicators()[j]),
                ),
        decreases 8 - k,
    {
        let indicator_lower = to_lowercase(rate_limit_indicator(k));
        if str_contains(debug_lower.as_str(), indicator_lower.as_str()) {
            return true;
        }
        k = k + 1;
    }
    false
}

/// The user-facing explanation of a rate limit seen in a client event's text.
pub fn extract_rate_limit_message(debug_str: &str) -> (r: String)
    ensures
        r@ == rate_limit_message(debug_str@),
{
    if str_contains(debug_str, "429") {
        string_of("HTTP 429 - Too Many Requests received from Last.fm API")
    } else if str_contains(to_lowercase(debug_str).as_str(), "retry-after") {
        string_of("Rate limited by Last.fm API - retry after some time")
    } else if str_contains(to_lowercase(debug_str).as_str(), "quota") {
        string_of("API quota exceeded")
    } else {
        string_of("Rate limited by Last.fm API")
    }
}

/// Appends `'first' by 'second'`.
fn push_quoted_pair(s: &mut String, first: &str, second: &str)
    ensures
        final(s)@ == old(s)@ + quoted_pair(first@, second@),
{
    push_str(s, "'");
    push_str(s, first);
    push_str(s, "' by '");
    push_str(s, second);
    push_str(s, "'");
    proof {
        assert(final(s)@ =~= old(s)@ + quoted_pair(first@, second@));
    }
}

/// Reads the system clock: milliseconds since the Unix epoch, from
/// `std::time::SystemTime::now` (zero should the clock stand before the epoch). Claims nothing
/// about the value: it is the clock.
#[verifier::external_body]
pub(crate) fn system_unix_millis() -> (r: u128) {
    std::time::SystemTime::now().duration_since(std::time::UNIX_EPOCH).unwrap_or_default().as_millis()
}

/// The message of an event, with the time taken as an argument, in milliseconds since the Unix
/// epoch.
pub fn format_event_message_at(event: &ScrubberEvent, now: i64) -> (r: String)
    requires
        event_displayable(*event),
    ensures
        r@ == event_message(*event, now as int),
{
    let mut s = String::new();
    match &event.event_type {
        ScrubberEventType::Started(msg) => {
            push_str(&mut s, msg.as_str());
        },
        ScrubberEventType::Stopped(msg) => {
            push_str(&mut s, msg.as_str());
        },
        ScrubberEventType::Sleeping { until_next_cycle_seconds, sleep_until_timestamp } => {
            let diff: i128 = (*sleep_until_timestamp as i128) * 1000 - (now as i128);
            let rem: i128 = if diff >= 0 { diff / 1000 } else { 0 - ((0 - diff) / 1000) };
            if rem > 0 {
                push_str(&mut s, "💤 Sleeping (");
                push_decimal(&mut s, rem as u64);
                push_str(&mut s, "s remaining)");
            } else {
                push_str(&mut s, "Sleeping for ");
                push_decimal(&mut s, *until_next_cycle_seconds);
                push_str(&mut s, " seconds until next processing cycle");
            }
        },
        ScrubberEventType::TrackProcessed { track, result } => {
            push_quoted_pair(&mut s, track.name.as_str(), track.artist.as_str());
            push_str(&mut s, " - ");
            push_str(&mut s, result.as_str());
        },
        ScrubberEventType::RuleApplied { track, description } => {
            push_str(&mut s, "Applied rule '");
            push_str(&mut s, description.as_str());
            push_str(&mut s, "' to ");
            push_quoted_pair(&mut s, track.name.as_str(), track.artist.as_str());
        },
        ScrubberEventType::Error(msg) => {
            push_str(&mut s, msg.as_str());
        },
        ScrubberEventType::Info(msg) => {
            push_str(&mut s, msg.as_str());
        },
        ScrubberEventType::CycleCompleted { processed_count, applied_count } => {
            push_str(&mut s, "Processing cycle completed: ");
            push_decimal(&mut s, *processed_count as u64);
            push_str(&mut s, " tracks processed, ");
            push_decimal(&mut s, *applied_count as u64);
            push_str(&mut s, " rules applied");
        },
        ScrubberEventType::CycleStarted(msg) => {
            push_str(&mut s, msg.as_str());
        },
        ScrubberEventType::AnchorUpdated { track, .. } => {
            push_str(&mut s, "Processing anchor updated to ");
            push_quoted_pair(&mut s, track.name.as_str(), track.artist.as_str());
        },
        ScrubberEventType::TracksFound { count, .. } => {
            push_str(&mut s, "Found ");
            push_decimal(&mut s, *count as u64);
            push_str(&mut s, " tracks to process");
        },
        ScrubberEventType::TrackEdited { track } => {
            push_str(&mut s, "Edited track ");
            push_quoted_pair(&mut s, track.artist.as_str(), track.name.as_str());
        },
        ScrubberEventType::TrackEditFailed { track, error } => {
            push_str(&mut s, "Failed to edit ");
            push_quoted_pair(&mut s, track.artist.as_str(), track.name.as_str());
            push_str(&mut s, ": ");
            push_str(&mut s, error.as_str());
        },
        ScrubberEventType::TrackSkipped { track, reason } => {
            push_str(&mut s, "Skipped ");
            push_quoted_pair(&mut s, track.artist.as_str(), track.name.as_str());
            push_str(&mut s, ": ");
            push_str(&mut s, reason.as_str());
        },
        ScrubberEventType::ClientEvent(ce) => {
            if is_rate_limit_event(ce.debug_text.as_str()) {
                push_str(&mut s, "⚠️ Rate Limited: ");
                let m = extract_rate_limit_message(ce.debug_text.as_str());
                push_str(&mut s, m.as_str());
            } else {
                push_str(&mut s, "Client: ");
                push_str(&mut s, ce.debug_text.as_str());
            }
        },
        ScrubberEventType::PendingEditCreated { pending_edit_id, track } => {
            push_str(&mut s, "Created pending edit (ID: ");
            push_str(&mut s, pending_edit_id.as_str());
            push_str(&mut s, ") for ");
            push_quoted_pair(&mut s, track.name.as_str(), track.artist.as_str());
        },
        ScrubberEventType::ProcessingBatchStarted { tracks, processing_type } => {
            push_str(&mut s, "Started ");
            push_str(&mut s, processing_type.as_str());
            push_str(&mut s, ": ");
            push_decimal(&mut s, tracks.len() as u64);
            push_str(&mut s, " tracks to process");
        },
        ScrubberEventType::TrackProcessingStarted { track, track_index, total_tracks } => {
            push_str(&mut s, "Processing [");
            push_decimal(&mut s, (*track_index + 1) as u64);
            push_str(&mut s, "/");
            push_decimal(&mut s, *total_tracks as u64);
            push_str(&mut s, "]: ");
            push_quoted_pair(&mut s, track.name.as_str(), track.artist.as_str());
        },
        ScrubberEventType::TrackProcessingCompleted {
            track,
            track_index,
            total_tracks,
            success,
            result_summary,
        } => {
            push_str(&mut s, "Completed [");
            push_decimal(&mut s, (*track_index + 1) as u64);
            push_str(&mut s, "/");
            push_decimal(&mut s, *total_tracks as u64);
            push_str(&mut s, "] ");
            if *success {
                push_str(&mut s, "✓");
            } else {
                push_str(&mut s, "✗");
            }
            push_str(&mut s, ": ");
            push_quoted_pair(&mut s, track.name.as_str(), track.artist.as_str());
            push_str(&mut s, " - ");
            push_str(&mut s, result_summary.as_str());
        },
    }
    proof {
        assert(s@ =~= event_message(*event, now as int));
    }
    s
}

/// The message of an event at the current time. Only a sleeping event's message depends on the
/// time; for every other event it is the same at any time.
pub fn format_event_message(event: &ScrubberEvent) -> (r: String)
    requires
        event_displayable(*event),
    ensures
        exists|now: int| r@ == event_message(*event, now),
        !message_uses_time(*event) ==> forall|now: int| r@ == event_message(*event, now),
{
    let ms = system_unix_millis();
    let now: i64 = if ms <= 9223372036854775807u128 { ms as i64 } else { 9223372036854775807i64 };
    format_event_message_at(event, now)
}

/// The anchor timestamp an event carries, if it has one.
pub fn get_anchor_timestamp(event: &ScrubberEvent) -> (r: Option<u64>)
    ensures
        r == event_anchor(*event),
{
    match &event.event_type {
        ScrubberEventType::AnchorUpdated { anchor_timestamp, .. } => Some(*anchor_timestamp),
        ScrubberEventType::TracksFound { anchor_timestamp, .. } => Some(*anchor_timestamp),
        _ => None,
    }
}

/// The rate-limit state an event shows, if any.
pub fn detect_rate_limit_from_event(event: &ScrubberEvent) -> (r: Option<RateLimitState>)
    requires
        rate_limit_representable(*event),
    ensures
        match r {
            Some(st) => detected_rate_limit(*event) == Some(st@),
            None => detected_rate_limit(*event) is None,
        },
{
    if let ScrubberEventType::ClientEvent(client_event) = &event.event_type {
        match &client_event.kind {
            ClientEventKind::RateLimited { delay_seconds, request, rate_limit_type, .. } => {
                let detected_at = event.timestamp;
                let retry_after: i64 = detected_at + (*delay_seconds as i64);
                let mut message = string_of("Rate limited by Last.fm API (");
                push_str(&mut message, rate_limit_type.debug_name());
                push_str(&mut message, ") - waiting ");
                push_decimal(&mut message, *delay_seconds);
                push_str(&mut message, " seconds");
                match request {
                    Some(req) => {
                        push_str(&mut message, " (request: ");
                        let d = short_description(req);
                        push_str(&mut message, d.as_str());
                        push_str(&mut message, ")");
                    },
                    None => {},
                }
                proof {
                    assert(message@ =~= rate_limited_message(*rate_limit_type, *delay_seconds, *request));
                }
                let st = RateLimitState {
                    is_rate_limited: true,
                    detected_at,
                    retry_after: Some(retry_after),
                    message,
                    delay_seconds: *delay_seconds,
                    rate_limit_type: Some(string_of(rate_limit_type.debug_name())),
                };
                return Some(st);
            },
            _ => {
                if is_rate_limit_event(client_event.debug_text.as_str()) {
                    return Some(
                        RateLimitState {
                            is_rate_limited: true,
                            detected_at: event.timestamp,
                            retry_after: None,
                            message: extract_rate_limit_message(client_event.debug_text.as_str()),
                            delay_seconds: 0,
                            rate_limit_type: None,
                        },
                    );
                }
            },
        }
    }
    None
}

/// Whether the event reports that rate limiting has ended.
pub fn detect_rate_limit_ended_from_event(event: &ScrubberEvent) -> (r: bool)
    ensures
        r == (event.event_type matches ScrubberEventType::ClientEvent(ce) && ce.kind is RateLimitEnded),
{
    if let ScrubberEventType::ClientEvent(client_event) = &event.event_type {
        matches!(client_event.kind, ClientEventKind::RateLimitEnded { .. })
    } else {
        false
    }
}

/// A short category word for an event.
pub fn get_event_category(event: &ScrubberEvent) -> (r: &'static str)
    ensures
        r@ == event_category(*event),
{
    match &event.event_type {
        ScrubberEventType::Started(_) => "started",
        ScrubberEventType::Stopped(_) => "stopped",
        ScrubberEventType::Sleeping { .. } => "sleeping",
        ScrubberEventType::TrackProcessed { .. } => "track_processed",
        ScrubberEventType::RuleApplied { .. } => "rule_applied",
        ScrubberEventType::Error(_) => "error",
        ScrubberEventType::Info(_) => "info",
        ScrubberEventType::CycleCompleted { .. } => "cycle_completed",
        ScrubberEventType::CycleStarted(_) => "cycle_started",
        ScrubberEventType::AnchorUpdated { .. } => "anchor_updated",
        ScrubberEventType::TracksFound { .. } => "tracks_found",
        ScrubberEventType::TrackEdited { .. } => "track_edited",
        ScrubberEventType::TrackEditFailed { .. } => "track_edit_failed",
        ScrubberEventType::TrackSkipped { .. } => "track_skipped",
        ScrubberEventType::ClientEvent(_) => "client_event",
        ScrubberEventType::PendingEditCreated { .. } => "pending_edit_created",
        ScrubberEventType::ProcessingBatchStarted { .. } => "processing_batch_started",
        ScrubberEventType::TrackProcessingStarted { .. } => "track_processing_started",
        ScrubberEventType::TrackProcessingCompleted { .. } => "track_processing_completed",
    }
}


/// The remaining time of a rate limit, as the indicator words it.
pub open spec fn remaining_text(rem: int) -> Seq<char> {
    if rem > 0 {
        if rem < 60 {
            decimal(rem as nat) + "s"@
        } else {
            decimal((rem / 60) as nat) + "m "@ + decimal((rem % 60) as nat) + "s"@
        }
    } else {
        "Should end soon"@
    }
}

/// The countdown shown after the rate-limit banner's title.
pub open spec fn countdown_text(rem: int) -> Seq<char> {
    if rem > 0 {
        " ("@ + remaining_text(rem) + ")"@
    } else {
        " (should end soon)"@
    }
}

/// The remaining time and the countdown of a rate limit at time `now` (milliseconds since the
/// Unix epoch); without a known end, no remaining time and an empty countdown.
pub fn rate_limit_countdown(retry_after: Option<i64>, now: i64) -> (r: (Option<String>, String))
    ensures
        match retry_after {
            Some(t) => r.0 matches Some(x) && x@ == remaining_text(remaining_seconds(t as int, now as int))
                && r.1@ == countdown_text(remaining_seconds(t as int, now as int)),
            None => r.0 is None && r.1@.len() == 0,
        },
{
    match retry_after {
        None => (None, String::new()),
        Some(t) => {
            let diff: i128 = (t as i128) * 1000 - (now as i128);
            let whole: i128 = if diff >= 0 { diff / 1000 } else { 0 - ((0 - diff) / 1000) };
            let rem: u64 = if whole > 0 { whole as u64 } else { 0 };
            let mut text = String::new();
            if rem > 0 {
                if rem < 60 {
                    push_decimal(&mut text, rem);
                    push_str(&mut text, "s");
                } else {
                    push_decimal(&mut text, rem / 60);
                    push_str(&mut text, "m ");
                    push_decimal(&mut text, rem % 60);
                    push_str(&mut text, "s");
                }
            } else {
                push_str(&mut text, "Should end soon");
            }
            let countdown = if rem > 0 {
                let mut c = string_of(" (");
                push_str(&mut c, text.as_str());
                push_str(&mut c, ")");
                c
            } else {
                string_of(" (should end soon)")
            };
            proof {
                assert(text@ =~= remaining_text(remaining_seconds(t as int, now as int)));
                assert(countdown@ =~= countdown_text(remaining_seconds(t as int, now as int)));
            }
            (Some(text), countdown)
        },
    }
}

/// The decimal rendering of an integer, with a minus sign when negative.
pub open spec fn signed_decimal(n: int) -> Seq<char> {
    if n < 0 {
        "-"@ + decimal((-n) as nat)
    } else {
        decimal(n as nat)
    }
}

/// How long ago the latest client event came, as the indicator words it: seconds under a
/// minute, whole minutes after.
pub open spec fn elapsed_text(seconds_ago: int) -> Seq<char> {
    if seconds_ago < 60 {
        signed_decimal(seconds_ago) + "s ago"@
    } else {
        decimal((seconds_ago / 60) as nat) + "m ago"@
    }
}

/// How long ago the latest client event came, as the indicator words it.
pub fn elapsed_label(seconds_ago: i64) -> (r: String)
    ensures
        r@ == elapsed_text(seconds_ago as int),
{
    let mut s = String::new();
    if seconds_ago < 60 {
        if seconds_ago < 0 {
            push_str(&mut s, "-");
            let magnitude: u64 = (-(seconds_ago as i128)) as u64;
            push_decimal(&mut s, magnitude);
        } else {
            push_decimal(&mut s, seconds_ago as u64);
        }
        push_str(&mut s, "s ago");
    } else {
        push_decimal(&mut s, (seconds_ago / 60) as u64);
        push_str(&mut s, "m ago");
    }
    proof {
        assert(s@ =~= elapsed_text(seconds_ago as int));
    }
    s
}

/// Without a new client event, the shown one is dropped once it is more than thirty whole
/// seconds old at `now` (milliseconds since the Unix epoch; `last_updated` in seconds).
pub fn client_event_stale(now: i64, last_updated: i64) -> (r: bool)
    ensures
        r == (whole_seconds(now - last_updated * 1000) > 30),
{
    let diff: i128 = (now as i128) - (last_updated as i128) * 1000;
    let whole: i128 = if diff >= 0 { diff / 1000 } else { 0 - ((0 - diff) / 1000) };
    whole > 30
}

} // verus!
