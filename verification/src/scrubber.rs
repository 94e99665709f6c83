use vstd::prelude::*;
use crate::events::{RateLimitState, ScrubberEvent, ScrubberEventType};
use crate::progress::{
    ProgressView, TrackProgressState, spec_complete_track, spec_start_batch, spec_start_track,
};
use crate::track::copy_tracks;
use crate::text::same_text;

verus! {

/// Where the scrobble scrubber stands.
#[derive(Debug, Clone, PartialEq)]
pub enum ScrubberStatus {
    Stopped,
    Starting,
    Running,
    Sleeping { until_timestamp: i64 },
    Stopping,
    Error(String),
}

/// What the UI keeps about the scrubber: its status, the activity log and counters.
#[derive(Debug, Clone)]
pub struct ScrubberState {
    pub status: ScrubberStatus,
    pub events: Vec<ScrubberEvent>,
    pub processed_count: usize,
    pub rules_applied_count: usize,
    pub current_anchor_timestamp: Option<u64>,
    pub next_cycle_timestamp: Option<i64>,
    pub rate_limit_state: Option<RateLimitState>,
}

/// The model of a scrubber state.
pub struct ScrubberView {
    pub status: ScrubberStatus,
    pub events: Seq<ScrubberEvent>,
    pub processed_count: usize,
    pub rules_applied_count: usize,
    pub current_anchor_timestamp: Option<u64>,
    pub next_cycle_timestamp: Option<i64>,
    pub rate_limit_state: Option<RateLimitState>,
}

impl View for ScrubberState {
    type V = ScrubberView;

    open spec fn view(&self) -> ScrubberView {
        ScrubberView {
            status: self.status,
            events: self.events@,
            processed_count: self.processed_count,
            rules_applied_count: self.rules_applied_count,
            current_anchor_timestamp: self.current_anchor_timestamp,
            next_cycle_timestamp: self.next_cycle_timestamp,
            rate_limit_state: self.rate_limit_state,
        }
    }
}

/// What a batch-progress event does to the progress view; other events leave it alone.
pub open spec fn progress_after(p: ProgressView, e: ScrubberEvent) -> ProgressView {
    match e.event_type {
        ScrubberEventType::ProcessingBatchStarted { tracks, processing_type } => spec_start_batch(
            p,
            tracks@,
            processing_type@,
        ),
        ScrubberEventType::TrackProcessingStarted { track_index, .. } => spec_start_track(p, track_index),
        ScrubberEventType::TrackProcessingCompleted { track_index, success, result_summary, .. } =>
            spec_complete_track(p, track_index, success, result_summary),
        _ => p,
    }
}

/// A completed-track event can be applied: when it completes the current track, the index after
/// it fits a `usize`.
pub open spec fn progress_event_ok(p: ProgressView, e: ScrubberEvent) -> bool {
    match e.event_type {
        ScrubberEventType::TrackProcessingCompleted { track_index, .. } => p.current == Some(track_index)
            ==> track_index < usize::MAX,
        _ => true,
    }
}

/// The scrubber state after one event of a processing cycle is recorded: the event is logged,
/// an anchor update is remembered, and processed tracks and applied rules are counted.
pub open spec fn state_after(s: ScrubberView, e: ScrubberEvent) -> ScrubberView {
    ScrubberView {
        events: s.events.push(e),
        current_anchor_timestamp: match e.event_type {
            ScrubberEventType::AnchorUpdated { anchor_timestamp, .. } => Some(anchor_timestamp),
            _ => s.current_anchor_timestamp,
        },
        processed_count: if e.event_type is TrackProcessed {
            (s.processed_count + 1) as usize
        } else {
            s.processed_count
        },
        rules_applied_count: if e.event_type is RuleApplied {
            (s.rules_applied_count + 1) as usize
        } else {
            s.rules_applied_count
        },
        ..s
    }
}

/// The counters have room for one more event.
pub open spec fn counters_ok(s: ScrubberView) -> bool {
    s.processed_count < usize::MAX && s.rules_applied_count < usize::MAX
}

/// Applies the batch-progress part of an event to the progress state.
fn apply_progress(progress: &mut TrackProgressState, event: &ScrubberEvent)
    requires
        progress_event_ok(old(progress)@, *event),
    ensures
        final(progress)@ == progress_after(old(progress)@, *event),
{
    match &event.event_type {
        ScrubberEventType::ProcessingBatchStarted { tracks, processing_type } => {
            progress.start_batch(copy_tracks(tracks), processing_type.clone());
        },
        ScrubberEventType::TrackProcessingStarted { track_index, .. } => {
            progress.start_track_processing(*track_index);
        },
        ScrubberEventType::TrackProcessingCompleted { track_index, success, result_summary, .. } => {
            progress.complete_track_processing(*track_index, *success, result_summary.clone());
        },
        _ => {},
    }
}

/// Handles an event that reaches the UI: it is added to the activity log, and batch-progress
/// events update the progress view.
pub fn handle_scrubber_event(
    events: &mut Vec<ScrubberEvent>,
    progress: &mut TrackProgressState,
    event: ScrubberEvent,
)
    requires
        progress_event_ok(old(progress)@, event),
    ensures
        final(events)@ == old(events)@.push(event),
        final(progress)@ == progress_after(old(progress)@, event),
{
    apply_progress(progress, &event);
    events.push(event);
}

/// Records one event that arrived during a processing cycle; returns whether it completed the
/// cycle.
pub fn record_cycle_event(
    state: &mut ScrubberState,
    progress: &mut TrackProgressState,
    event: ScrubberEvent,
) -> (cycle_completed: bool)
    requires
        progress_event_ok(old(progress)@, event),
        counters_ok(old(state)@),
    ensures
        final(state)@ == state_after(old(state)@, event),
        final(progress)@ == progress_after(old(progress)@, event),
        cycle_completed == event.event_type is CycleCompleted,
{
    apply_progress(progress, &event);
    let mut completed = false;
    match &event.event_type {
        ScrubberEventType::AnchorUpdated { anchor_timestamp, .. } => {
            state.current_anchor_timestamp = Some(*anchor_timestamp);
        },
        ScrubberEventType::CycleCompleted { .. } => {
            completed = true;
        },
        ScrubberEventType::TrackProcessed { .. } => {
            state.processed_count = state.processed_count + 1;
        },
        ScrubberEventType::RuleApplied { .. } => {
            state.rules_applied_count = state.rules_applied_count + 1;
        },
        _ => {},
    }
    state.events.push(event);
    completed
}

/// The processing loop goes on while the scrubber is running or sleeping between cycles.
pub open spec fn active(s: ScrubberStatus) -> bool {
    s is Running || s is Sleeping
}

/// Whether the processing loop should run another cycle.
pub fn is_active(status: &ScrubberStatus) -> (r: bool)
    ensures
        r == active(*status),
{
    match status {
        ScrubberStatus::Running => true,
        ScrubberStatus::Sleeping { .. } => true,
        _ => false,
    }
}

/// The check interval in seconds: the configured one, or thirty seconds without a configuration.
pub fn cycle_interval(configured: Option<u64>) -> (r: u64)
    ensures
        r == match configured {
            Some(i) => i,
            None => 30u64,
        },
{
    match configured {
        Some(i) => i,
        None => 30,
    }
}

/// The state after a processing cycle ends: on failure the scrubber stops with the error; on
/// success it sleeps until `now + interval` and remembers that moment as the next cycle.
pub fn finish_cycle(state: &mut ScrubberState, outcome: Result<(), String>, now: i64, interval_seconds: u64)
    requires
        interval_seconds <= i64::MAX / 1000,
        now + interval_seconds <= i64::MAX,
    ensures
        match outcome {
            Ok(_) => {
                &&& final(state).status == ScrubberStatus::Sleeping { until_timestamp: (now + interval_seconds) as i64 }
                &&& final(state).next_cycle_timestamp == Some((now + interval_seconds) as i64)
            },
            Err(msg) => {
                &&& final(state).status == ScrubberStatus::Error(msg)
                &&& final(state).next_cycle_timestamp == old(state).next_cycle_timestamp
            },
        },
        final(state).events@ == old(state).events@,
        final(state).processed_count == old(state).processed_count,
        final(state).rules_applied_count == old(state).rules_applied_count,
        final(state).current_anchor_timestamp == old(state).current_anchor_timestamp,
{
    match outcome {
        Ok(()) => {
            let until: i64 = now + interval_seconds as i64;
            state.status = ScrubberStatus::Sleeping { until_timestamp: until };
            state.next_cycle_timestamp = Some(until);
        },
        Err(msg) => {
            state.status = ScrubberStatus::Error(msg);
        },
    }
}

impl ScrubberState {
    /// A stopped scrubber with an empty log and zero counters.
    pub fn new() -> (r: ScrubberState)
        ensures
            r.status is Stopped,
            r.events@.len() == 0,
            r.processed_count == 0,
            r.rules_applied_count == 0,
            r.current_anchor_timestamp is None,
            r.next_cycle_timestamp is None,
            r.rate_limit_state is None,
    {
        ScrubberState {
            status: ScrubberStatus::Stopped,
            events: Vec::new(),
            processed_count: 0,
            rules_applied_count: 0,
            current_anchor_timestamp: None,
            next_cycle_timestamp: None,
            rate_limit_state: None,
        }
    }
}

/// Two statuses are the same: the same variant, with the same moment or the same error text.
pub open spec fn same_status(a: ScrubberStatus, b: ScrubberStatus) -> bool {
    match (a, b) {
        (ScrubberStatus::Stopped, ScrubberStatus::Stopped) => true,
        (ScrubberStatus::Starting, ScrubberStatus::Starting) => true,
        (ScrubberStatus::Running, ScrubberStatus::Running) => true,
        (ScrubberStatus::Sleeping { until_timestamp: x }, ScrubberStatus::Sleeping { until_timestamp: y }) => x
            == y,
        (ScrubberStatus::Stopping, ScrubberStatus::Stopping) => true,
        (ScrubberStatus::Error(x), ScrubberStatus::Error(y)) => x@ == y@,
        _ => false,
    }
}

/// Two optional rate-limit states are the same: both absent, or both present with the same fields.
pub open spec fn same_rate_limit(a: Option<RateLimitState>, b: Option<RateLimitState>) -> bool {
    match (a, b) {
        (None, None) => true,
        (Some(x), Some(y)) => x@ == y@,
        _ => false,
    }
}

/// Two scrubber states look the same to the UI: the same status, counters, anchor, next cycle and
/// rate limit, and activity logs of the same length.
pub open spec fn same_scrubber_state(a: ScrubberState, b: ScrubberState) -> bool {
    &&& same_status(a.status, b.status)
    &&& a.processed_count == b.processed_count
    &&& a.rules_applied_count == b.rules_applied_count
    &&& a.current_anchor_timestamp == b.current_anchor_timestamp
    &&& a.next_cycle_timestamp == b.next_cycle_timestamp
    &&& same_rate_limit(a.rate_limit_state, b.rate_limit_state)
    &&& a.events@.len() == b.events@.len()
}

/// Whether two statuses are the same.
fn status_eq(a: &ScrubberStatus, b: &ScrubberStatus) -> (r: bool)
    ensures
        r == same_status(*a, *b),
{
    match (a, b) {
        (ScrubberStatus::Stopped, ScrubberStatus::Stopped) => true,
        (ScrubberStatus::Starting, ScrubberStatus::Starting) => true,
        (ScrubberStatus::Running, ScrubberStatus::Running) => true,
        (ScrubberStatus::Sleeping { until_timestamp: x }, ScrubberStatus::Sleeping { until_timestamp: y }) => *x
            == *y,
        (ScrubberStatus::Stopping, ScrubberStatus::Stopping) => true,
        (ScrubberStatus::Error(x), ScrubberStatus::Error(y)) => same_text(x.as_str(), y.as_str()),
        _ => false,
    }
}

/// Whether two optional texts are the same.
fn opt_text_eq(a: &Option<String>, b: &Option<String>) -> (r: bool)
    ensures
        r == (match (*a, *b) {
            (None, None) => true,
            (Some(x), Some(y)) => x@ == y@,
            _ => false,
        }),
{
    match (a, b) {
        (None, None) => true,
        (Some(x), Some(y)) => same_text(x.as_str(), y.as_str()),
        _ => false,
    }
}

/// Whether two optional rate-limit states are the same.
fn rate_limit_eq(a: &Option<RateLimitState>, b: &Option<RateLimitState>) -> (r: bool)
    ensures
        r == same_rate_limit(*a, *b),
{
    match (a, b) {
        (None, None) => true,
        (Some(x), Some(y)) => {
            let r = x.is_rate_limited == y.is_rate_limited && x.detected_at == y.detected_at
                && x.retry_after == y.retry_after && same_text(x.message.as_str(), y.message.as_str())
                && x.delay_seconds == y.delay_seconds && opt_text_eq(&x.rate_limit_type, &y.rate_limit_type);
            proof {
                if r {
                    assert(x@ =~= y@);
                }
            }
            r
        },
        _ => false,
    }
}

impl PartialEq for ScrubberState {
    /// Two states are equal when they look the same to the UI; activity logs count by length.
    fn eq(&self, other: &Self) -> (r: bool) {
        status_eq(&self.status, &other.status) && self.processed_count == other.processed_count
            && self.rules_applied_count == other.rules_applied_count
            && self.current_anchor_timestamp == other.current_anchor_timestamp
            && self.next_cycle_timestamp == other.next_cycle_timestamp && rate_limit_eq(
            &self.rate_limit_state,
            &other.rate_limit_state,
        ) && self.events.len() == other.events.len()
    }
}

impl vstd::std_specs::cmp::PartialEqSpecImpl for ScrubberState {
    open spec fn obeys_eq_spec() -> bool {
        true
    }

    open spec fn eq_spec(&self, other: &Self) -> bool {
        same_scrubber_state(*self, *other)
    }
}

} // verus!
