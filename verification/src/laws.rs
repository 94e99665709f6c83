use vstd::prelude::*;
use crate::cache::{CacheView, entries_total};
use crate::config::{Args, Commands, ScrobbleScrubberConfig, merged_ok, names_musicbrainz, names_openai};
use crate::events::{
    ScrubberEvent, ScrubberEventType, detected_rate_limit, event_category, event_message, looks_rate_limited, rate_limit_message,
};
use crate::lastfm::ClientEventKind;
use crate::paging::{AnchorError, anchor_choice, anchor_set_text, time_display_pattern};
use crate::pattern::{regex_compile_error, regex_is_match, regex_replace_all, regex_valid};
use crate::pending::{
    PendingEdit, PendingRewriteRule, edit_ids, first_position, lemma_first_position_found, rule_ids,
};
use crate::progress::{
    ProgressView, TrackStatus, all_pending, first_waiting, lemma_first_waiting, spec_complete_track,
    spec_start_batch, spec_start_track,
};
use crate::rules::{DefaultRule, RewriteRule, default_rule_view, keeps_name, opt_view};
use crate::scrubber::{ScrubberView, state_after};
use crate::timefmt::utc_text;
use crate::track::Track;
use crate::tui::{
    EditorView, Key, TuiView, accepted_char, album_text, editor_erased, editor_has_rules, editor_typed, key_effect,
    rule_preview, tui_wf,
};
use crate::workshop::{RewriteRule as WorkshopRule, WorkerRequest, apply_rules, session_after};

verus! {

/// A track that the set-anchor command accepts is announced with its scrobble time rendered in
/// the display pattern, never as an invalid timestamp.
pub proof fn law_accepted_anchor_shows_time(tracks: Seq<Track>, tracks_back: u32, t: u64)
    requires
        anchor_choice(tracks, tracks_back) == Ok::<u64, AnchorError>(t),
    ensures
        tracks_back < tracks.len(),
        tracks[tracks_back as int].timestamp == Some(t),
        anchor_set_text(tracks[tracks_back as int])[1] == "Timestamp: "@ + utc_text(t, time_display_pattern()),
{
}

/// The background worker never loses its session: whatever it is asked once it has one, it still
/// has one afterwards; and a login that Last.fm accepts gives it one from any state.
pub proof fn law_worker_keeps_session(request: WorkerRequest, logged_in: bool)
    ensures
        session_after(true, request),
        session_after(logged_in, WorkerRequest::Login { outcome: Ok(()) }),
{
}

/// What a page was cached with is what reading the page gives back.
pub proof fn law_cached_page_reads_back(before: CacheView, after: CacheView, page: u32, tracks: Seq<Track>)
    requires
        after.recent_map() == before.recent_map().insert(page, tracks),
    ensures
        after.recent_map().contains_key(page),
        after.recent_map()[page] == tracks,
{
}

/// What an artist was cached with is what reading the artist gives back, and caching an artist
/// leaves every other artist as it was.
pub proof fn law_cached_artist_reads_back(
    before: CacheView,
    after: CacheView,
    artist: Seq<char>,
    tracks: Seq<Track>,
    other: Seq<char>,
)
    requires
        after.artist_map() == before.artist_map().insert(artist, tracks),
        other != artist,
    ensures
        after.artist_map().contains_key(artist),
        after.artist_map()[artist] == tracks,
        after.artist_map().contains_key(other) == before.artist_map().contains_key(other),
        before.artist_map().contains_key(other) ==> after.artist_map()[other] == before.artist_map()[other],
{
}

/// Clearing one artist removes that artist and nothing else.
pub proof fn law_clear_artist_only_that_artist(before: CacheView, after: CacheView, artist: Seq<char>, other: Seq<char>)
    requires
        after.artist_map() == before.artist_map().remove(artist),
        other != artist,
    ensures
        !after.artist_map().contains_key(artist),
        after.artist_map().contains_key(other) == before.artist_map().contains_key(other),
        before.artist_map().contains_key(other) ==> after.artist_map()[other] == before.artist_map()[other],
{
}

/// An emptied cache counts no pages, no artists and no tracks.
pub proof fn law_cleared_cache_counts_nothing(after: CacheView)
    requires
        after.recent.len() == 0,
        after.artists.len() == 0,
    ensures
        entries_total(after.recent) == 0,
        entries_total(after.artists) == 0,
{
}

/// Processing every track of a fresh batch in order, the first `k` tracks are done, the rest
/// still wait, and the current track is the next one to do.
pub open spec fn run_batch(p: ProgressView, k: nat, success: bool, summary: String) -> ProgressView
    decreases k,
{
    if k == 0 {
        p
    } else {
        let q = run_batch(p, (k - 1) as nat, success, summary);
        spec_complete_track(spec_start_track(q, (k - 1) as usize), (k - 1) as usize, success, summary)
    }
}

/// Processing the tracks of a fresh batch one after the other, each started and then completed,
/// leaves the first `k` completed and the others pending; the current track is the next one,
/// and none once all are done.
pub proof fn law_batch_in_order(
    s: ProgressView,
    tracks: Seq<Track>,
    ptype: Seq<char>,
    k: nat,
    success: bool,
    summary: String,
)
    requires
        1 <= k <= tracks.len() < usize::MAX,
    ensures
        ({
            let r = run_batch(spec_start_batch(s, tracks, ptype), k, success, summary);
            &&& r.tracks == tracks
            &&& forall|i: usize| i < k ==> #[trigger] r.statuses[i] == (TrackStatus::Completed { success, summary })
            &&& forall|i: usize| k <= i < tracks.len() ==> #[trigger] r.statuses[i] is Pending
            &&& forall|i: usize| #[trigger] r.statuses.contains_key(i) <==> i < tracks.len()
            &&& r.current == if k < tracks.len() { Some(k as usize) } else { None }
        }),
    decreases k,
{
    let p0 = spec_start_batch(s, tracks, ptype);
    let n = tracks.len() as int;
    if k > 1 {
        law_batch_in_order(s, tracks, ptype, (k - 1) as nat, success, summary);
    }
    let q = run_batch(p0, (k - 1) as nat, success, summary);
    if k == 1 {
        assert(q == p0);
        assert(forall|i: usize| #[trigger] q.statuses.contains_key(i) <==> i < tracks.len());
    }
    assert(q.current == Some((k - 1) as usize) || k == 1);
    let q1 = spec_start_track(q, (k - 1) as usize);
    let statuses = q1.statuses.insert((k - 1) as usize, TrackStatus::Completed { success, summary });
    let r = run_batch(p0, k, success, summary);
    assert(r.statuses == statuses);
    assert(q1.current == Some((k - 1) as usize));
    lemma_first_waiting(statuses, k as int, n);
    if k < n {
        assert(crate::progress::waiting(statuses, k as int));
        assert(first_waiting(statuses, k as int, n) == Some(k as usize));
    } else {
        assert(first_waiting(statuses, k as int, n) is None);
    }
}

/// How many events of a sequence report a processed track.
pub open spec fn processed_events(es: Seq<ScrubberEvent>) -> nat
    decreases es.len(),
{
    if es.len() == 0 {
        0
    } else {
        processed_events(es.drop_last()) + if es.last().event_type is TrackProcessed { 1nat } else { 0nat }
    }
}

/// The state after recording the events of a cycle one by one.
pub open spec fn record_all(s: ScrubberView, es: Seq<ScrubberEvent>) -> ScrubberView
    decreases es.len(),
{
    if es.len() == 0 {
        s
    } else {
        state_after(record_all(s, es.drop_last()), es.last())
    }
}

/// Recording the events of a cycle logs every one of them in order and counts exactly the
/// processed tracks among them.
pub proof fn law_events_logged_and_counted(s: ScrubberView, es: Seq<ScrubberEvent>)
    requires
        s.processed_count + es.len() <= usize::MAX,
    ensures
        record_all(s, es).events == s.events + es,
        record_all(s, es).processed_count == s.processed_count + processed_events(es),
    decreases es.len(),
{
    if es.len() > 0 {
        law_events_logged_and_counted(s, es.drop_last());
        assert(processed_events(es.drop_last()) <= es.drop_last().len()) by {
            lemma_processed_le(es.drop_last());
        }
        assert(s.events + es.drop_last().push(es.last()) =~= s.events + es);
        assert(es.drop_last().push(es.last()) =~= es);
    }
}

/// No more tracks are counted than there are events.
pub proof fn lemma_processed_le(es: Seq<ScrubberEvent>)
    ensures
        processed_events(es) <= es.len(),
    decreases es.len(),
{
    if es.len() > 0 {
        lemma_processed_le(es.drop_last());
    }
}

/// Moving to the next tab and back returns to where one was, and three steps go round.
pub proof fn law_tabs_go_round(s: TuiView)
    requires
        tui_wf(s),
    ensures
        key_effect(key_effect(s, Key::Right).0, Key::Left).0 == s,
        key_effect(key_effect(key_effect(s, Key::Right).0, Key::Right).0, Key::Right).0 == s,
{
}

/// Moving down the track list and back up returns to the selected track.
pub proof fn law_down_then_up(s: TuiView)
    requires
        tui_wf(s),
        s.tab == 0,
        0 < s.tracks.len() <= usize::MAX,
        s.selected matches Some(i) && i < s.tracks.len(),
    ensures
        key_effect(key_effect(s, Key::Down).0, Key::Up).0.selected == s.selected,
{
    let i = s.selected->0 as int;
    let n = s.tracks.len() as int;
    let j = (i + 1) % n;
    assert(0 <= j < n) by (nonlinear_arith)
        requires n > 0, 0 <= i < n, j == (i + 1) % n;
    assert((j + n - 1) % n == i) by (nonlinear_arith)
        requires n > 0, 0 <= i < n, j == (i + 1) % n;
    let s1 = key_effect(s, Key::Down).0;
    assert(s1.selected == Some(j as usize));
    assert(s1.tab == 0 && s1.tracks == s.tracks);
    let s2 = key_effect(s1, Key::Up).0;
    assert(s2.selected == Some(((j + n - 1) % n) as usize));
}

/// Typing an accepted character and erasing it leaves the editor as it was.
pub proof fn law_type_then_erase(e: EditorView, c: char)
    requires
        accepted_char(c),
        e.current < 6,
        e.fields.len() == 6,
    ensures
        editor_erased(editor_typed(e, c)) == e,
{
    let f = e.fields[e.current as int];
    assert(f.push(c).drop_last() =~= f);
    assert(e.fields.update(e.current as int, f.push(c)).update(e.current as int, f) =~= e.fields);
}

/// For a client event without a structured rate limit, the rate limit is detected exactly when
/// its message warns of one, and the warning carries the detected message.
pub proof fn law_rate_limit_message_agrees(e: ScrubberEvent, now: int)
    requires
        e.event_type matches ScrubberEventType::ClientEvent(ce) && !(ce.kind is RateLimited),
    ensures
        ({
            let text = e.event_type->ClientEvent_0.debug_text@;
            &&& detected_rate_limit(e) is Some <==> looks_rate_limited(text)
            &&& detected_rate_limit(e) matches Some(st) ==> event_message(e, now) == "⚠️ Rate Limited: "@ + st.message
            &&& detected_rate_limit(e) is None ==> event_message(e, now) == "Client: "@ + text
        }),
{
}

/// Rules that are all switched off never change a track name.
pub proof fn law_disabled_rules_change_nothing(rules: Seq<WorkshopRule>, name: Seq<char>)
    requires
        forall|i: int| 0 <= i < rules.len() ==> !(#[trigger] rules[i]).enabled,
    ensures
        apply_rules(rules, name) == (name, Seq::<Seq<char>>::empty()),
    decreases rules.len(),
{
    if rules.len() > 0 {
        let init = rules.drop_last();
        assert forall|i: int| 0 <= i < init.len() implies !(#[trigger] init[i]).enabled by {
            assert(init[i] == rules[i]);
        }
        law_disabled_rules_change_nothing(init, name);
        assert(!rules.last().enabled);
    }
}

/// A rule whose pattern does not match leaves the name as it was, on its own.
pub proof fn law_unmatched_rule_changes_nothing(rule: WorkshopRule, name: Seq<char>)
    requires
        !regex_is_match(rule.pattern@, name),
    ensures
        apply_rules(seq![rule], name) == (name, Seq::<Seq<char>>::empty()),
{
    assert(seq![rule].drop_last() =~= Seq::<WorkshopRule>::empty());
    assert(apply_rules(seq![rule].drop_last(), name) == (name, Seq::<Seq<char>>::empty()));
    assert(seq![rule].last() == rule);
}

/// After removing rules by name, no rule of that name is left and every other rule stays.
pub proof fn law_remove_by_name(rules: Seq<RewriteRule>, name: Seq<char>)
    ensures
        forall|i: int|
            0 <= i < rules.filter(keeps_name(name)).len() ==> opt_view(
                (#[trigger] rules.filter(keeps_name(name))[i]).name,
            ) != Some(name),
        forall|i: int|
            0 <= i < rules.len() && opt_view(rules[i].name) != Some(name) ==> #[trigger] rules.filter(
                keeps_name(name),
            ).contains(rules[i]),
{
    assert forall|i: int|
        0 <= i < rules.filter(keeps_name(name)).len() implies opt_view(
        (#[trigger] rules.filter(keeps_name(name))[i]).name,
    ) != Some(name) by {
        rules.lemma_filter_pred(keeps_name(name), i);
        assert(keeps_name(name)(rules.filter(keeps_name(name))[i]));
    }
    assert forall|i: int|
        0 <= i < rules.len() && opt_view(rules[i].name) != Some(name) implies #[trigger] rules.filter(
        keeps_name(name),
    ).contains(rules[i]) by {
        assert(keeps_name(name)(rules[i]));
        rules.lemma_filter_contains(keeps_name(name), i);
    }
}

/// Approving a pending rule moves it: one fewer waits, one more is active, and it is the
/// approved rule.
pub proof fn law_approve_moves_rule(
    pending: Seq<PendingRewriteRule>,
    active: Seq<RewriteRule>,
    id: Seq<char>,
    pending2: Seq<PendingRewriteRule>,
    active2: Seq<RewriteRule>,
)
    requires
        first_position(rule_ids(pending), id) matches Some(i) && pending2 == pending.remove(i) && active2
            == active.push(pending[i].rule),
    ensures
        pending2.len() + active2.len() == pending.len() + active.len(),
        active2.last() == pending[first_position(rule_ids(pending), id)->0].rule,
{
    lemma_first_position_found(rule_ids(pending), id);
}

/// A state file given on the command line wins over the configuration and the per-user default.
pub proof fn law_state_file_argument_wins(
    c: ScrobbleScrubberConfig,
    a: Args,
    user_file: Seq<char>,
    r: ScrobbleScrubberConfig,
)
    requires
        merged_ok(c, a, user_file, r),
        a.state_file is Some,
    ensures
        r.storage.state_file@ == a.state_file->0@,
{
}

/// Naming providers on the command line switches on exactly those.
pub proof fn law_named_providers_only(c: ScrobbleScrubberConfig, a: Args, user_file: Seq<char>, r: ScrobbleScrubberConfig)
    requires
        merged_ok(c, a, user_file, r),
        a.providers@.len() > 0,
    ensures
        !r.providers.enable_rewrite_rules,
        !r.providers.enable_http,
        r.providers.enable_musicbrainz == names_musicbrainz(a.providers@),
        r.providers.enable_openai == names_openai(a.providers@),
{
}

/// An edit taken out to be applied and put back after Last.fm refused it leaves the same edits
/// waiting: the list holds the same edits as many times each, the put-back one now last.
pub proof fn law_failed_apply_keeps_edits(edits: Seq<PendingEdit>, id: Seq<char>, after: Seq<PendingEdit>)
    requires
        first_position(edit_ids(edits), id) matches Some(i) && after == edits.remove(i).push(edits[i]),
    ensures
        after.to_multiset() == edits.to_multiset(),
        after.len() == edits.len(),
        after.last() == edits[first_position(edit_ids(edits), id)->0],
{
    broadcast use vstd::seq_lib::group_to_multiset_ensures;

    lemma_first_position_found(edit_ids(edits), id);
    let i = first_position(edit_ids(edits), id)->0;
    assert(edits.remove(i).to_multiset() =~= edits.to_multiset().remove(edits[i]));
    assert(edits.to_multiset().remove(edits[i]).insert(edits[i]) =~= edits.to_multiset());
}

/// The position of an event's kind among the nineteen kinds, in the order they are declared.
pub open spec fn event_kind(e: ScrubberEvent) -> int {
    match e.event_type {
        ScrubberEventType::Started(_) => 0,
        ScrubberEventType::Stopped(_) => 1,
        ScrubberEventType::Sleeping { .. } => 2,
        ScrubberEventType::TrackProcessed { .. } => 3,
        ScrubberEventType::RuleApplied { .. } => 4,
        ScrubberEventType::Error(_) => 5,
        ScrubberEventType::Info(_) => 6,
        ScrubberEventType::CycleCompleted { .. } => 7,
        ScrubberEventType::CycleStarted(_) => 8,
        ScrubberEventType::AnchorUpdated { .. } => 9,
        ScrubberEventType::TracksFound { .. } => 10,
        ScrubberEventType::TrackEdited { .. } => 11,
        ScrubberEventType::TrackEditFailed { .. } => 12,
        ScrubberEventType::TrackSkipped { .. } => 13,
        ScrubberEventType::ClientEvent(_) => 14,
        ScrubberEventType::PendingEditCreated { .. } => 15,
        ScrubberEventType::ProcessingBatchStarted { .. } => 16,
        ScrubberEventType::TrackProcessingStarted { .. } => 17,
        ScrubberEventType::TrackProcessingCompleted { .. } => 18,
    }
}

/// The kind a category word names, in the order the kinds are declared; 19 for a word that names
/// none.
pub open spec fn kind_of_category(s: Seq<char>) -> int {
    if s == "started"@ {
        0
    } else if s == "stopped"@ {
        1
    } else if s == "sleeping"@ {
        2
    } else if s == "track_processed"@ {
        3
    } else if s == "rule_applied"@ {
        4
    } else if s == "error"@ {
        5
    } else if s == "info"@ {
        6
    } else if s == "cycle_completed"@ {
        7
    } else if s == "cycle_started"@ {
        8
    } else if s == "anchor_updated"@ {
        9
    } else if s == "tracks_found"@ {
        10
    } else if s == "track_edited"@ {
        11
    } else if s == "track_edit_failed"@ {
        12
    } else if s == "track_skipped"@ {
        13
    } else if s == "client_event"@ {
        14
    } else if s == "pending_edit_created"@ {
        15
    } else if s == "processing_batch_started"@ {
        16
    } else if s == "track_processing_started"@ {
        17
    } else if s == "track_processing_completed"@ {
        18
    } else {
        19
    }
}

/// The category word names the event's kind: reading the kind back from the word gives it.
pub proof fn lemma_category_names_kind(e: ScrubberEvent)
    ensures
        kind_of_category(event_category(e)) == event_kind(e),
{
    match e.event_type {
        ScrubberEventType::Started(_) => {
            reveal_strlit("started");
        },
        ScrubberEventType::Stopped(_) => {
            reveal_strlit("stopped");
            reveal_strlit("started");
            assert("stopped"@[2] != "started"@[2]);
        },
        ScrubberEventType::Sleeping { .. } => {
            reveal_strlit("sleeping");
            reveal_strlit("started");
            assert("sleeping"@.len() != "started"@.len());
            reveal_strlit("stopped");
            assert("sleeping"@.len() != "stopped"@.len());
        },
        ScrubberEventType::TrackProcessed { .. } => {
            reveal_strlit("track_processed");
            reveal_strlit("started");
            assert("track_processed"@.len() != "started"@.len());
            reveal_strlit("stopped");
            assert("track_processed"@.len() != "stopped"@.len());
            reveal_strlit("sleeping");
            assert("track_processed"@.len() != "sleeping"@.len());
        },
        ScrubberEventType::RuleApplied { .. } => {
            reveal_strlit("rule_applied");
            reveal_strlit("started");
            assert("rule_applied"@.len() != "started"@.len());
            reveal_strlit("stopped");
            assert("rule_applied"@.len() != "stopped"@.len());
            reveal_strlit("sleeping");
            assert("rule_applied"@.len() != "sleeping"@.len());
            reveal_strlit("track_processed");
            assert("rule_applied"@.len() != "track_processed"@.len());
        },
        ScrubberEventType::Error(_) => {
            reveal_strlit("error");
            reveal_strlit("started");
            assert("error"@.len() != "started"@.len());
            reveal_strlit("stopped");
            assert("error"@.len() != "stopped"@.len());
            reveal_strlit("sleeping");
            assert("error"@.len() != "sleeping"@.len());
            reveal_strlit("track_processed");
            assert("error"@.len() != "track_processed"@.len());
            reveal_strlit("rule_applied");
            assert("error"@.len() != "rule_applied"@.len());
        },
        ScrubberEventType::Info(_) => {
            reveal_strlit("info");
            reveal_strlit("started");
            assert("info"@.len() != "started"@.len());
            reveal_strlit("stopped");
            assert("info"@.len() != "stopped"@.len());
            reveal_strlit("sleeping");
            assert("info"@.len() != "sleeping"@.len());
            reveal_strlit("track_processed");
            assert("info"@.len() != "track_processed"@.len());
            reveal_strlit("rule_applied");
            assert("info"@.len() != "rule_applied"@.len());
            reveal_strlit("error");
            assert("info"@.len() != "error"@.len());
        },
        ScrubberEventType::CycleCompleted { .. } => {
            reveal_strlit("cycle_completed");
            reveal_strlit("started");
            assert("cycle_completed"@.len() != "started"@.len());
            reveal_strlit("stopped");
            assert("cycle_completed"@.len() != "stopped"@.len());
            reveal_strlit("sleeping");
            assert("cycle_completed"@.len() != "sleeping"@.len());
            reveal_strlit("track_processed");
            assert("cycle_completed"@[0] != "track_processed"@[0]);
            reveal_strlit("rule_applied");
            assert("cycle_completed"@.len() != "rule_applied"@.len());
            reveal_strlit("error");
            assert("cycle_completed"@.len() != "error"@.len());
            reveal_strlit("info");
            assert("cycle_completed"@.len() != "info"@.len());
        },
        ScrubberEventType::CycleStarted(_) => {
            reveal_strlit("cycle_started");
            reveal_strlit("started");
            assert("cycle_started"@.len() != "started"@.len());
            reveal_strlit("stopped");
            assert("cycle_started"@.len() != "stopped"@.len());
            reveal_strlit("sleeping");
            assert("cycle_started"@.len() != "sleeping"@.len());
            reveal_strlit("track_processed");
            assert("cycle_started"@.len() != "track_processed"@.len());
            reveal_strlit("rule_applied");
            assert("cycle_started"@.len() != "rule_applied"@.len());
            reveal_strlit("error");
            assert("cycle_started"@.len() != "error"@.len());
            reveal_strlit("info");
            assert("cycle_started"@.len() != "info"@.len());
            reveal_strlit("cycle_completed");
            assert("cycle_started"@.len() != "cycle_completed"@.len());
        },
        ScrubberEventType::AnchorUpdated { .. } => {
            reveal_strlit("anchor_updated");
            reveal_strlit("started");
            assert("anchor_updated"@.len() != "started"@.len());
            reveal_strlit("stopped");
            assert("anchor_updated"@.len() != "stopped"@.len());
            reveal_strlit("sleeping");
            assert("anchor_updated"@.len() != "sleeping"@.len());
            reveal_strlit("track_processed");
            assert("anchor_updated"@.len() != "track_processed"@.len());
            reveal_strlit("rule_applied");
            assert("anchor_updated"@.len() != "rule_applied"@.len());
            reveal_strlit("error");
            assert("anchor_updated"@.len() != "error"@.len());
            reveal_strlit("info");
            assert("anchor_updated"@.len() != "info"@.len());
            reveal_strlit("cycle_completed");
            assert("anchor_updated"@.len() != "cycle_completed"@.len());
            reveal_strlit("cycle_started");
            assert("anchor_updated"@.len() != "cycle_started"@.len());
        },
        ScrubberEventType::TracksFound { .. } => {
            reveal_strlit("tracks_found");
            reveal_strlit("started");
            assert("tracks_found"@.len() != "started"@.len());
            reveal_strlit("stopped");
            assert("tracks_found"@.len() != "stopped"@.len());
            reveal_strlit("sleeping");
            assert("tracks_found"@.len() != "sleeping"@.len());
            reveal_strlit("track_processed");
            assert("tracks_found"@.len() != "track_processed"@.len());
            reveal_strlit("rule_applied");
            assert("tracks_found"@[0] != "rule_applied"@[0]);
            reveal_strlit("error");
            assert("tracks_found"@.len() != "error"@.len());
            reveal_strlit("info");
            assert("tracks_found"@.len() != "info"@.len());
            reveal_strlit("cycle_completed");
            assert("tracks_found"@.len() != "cycle_completed"@.len());
            reveal_strlit("cycle_started");
            assert("tracks_found"@.len() != "cycle_started"@.len());
            reveal_strlit("anchor_updated");
            assert("tracks_found"@.len() != "anchor_updated"@.len());
        },
        ScrubberEventType::TrackEdited { .. } => {
            reveal_strlit("track_edited");
            reveal_strlit("started");
            assert("track_edited"@.len() != "started"@.len());
            reveal_strlit("stopped");
            assert("track_edited"@.len() != "stopped"@.len());
            reveal_strlit("sleeping");
            assert("track_edited"@.len() != "sleeping"@.len());
            reveal_strlit("track_processed");
            assert("track_edited"@.len() != "track_processed"@.len());
            reveal_strlit("rule_applied");
            assert("track_edited"@[0] != "rule_applied"@[0]);
            reveal_strlit("error");
            assert("track_edited"@.len() != "error"@.len());
            reveal_strlit("info");
            assert("track_edited"@.len() != "info"@.len());
            reveal_strlit("cycle_completed");
            assert("track_edited"@.len() != "cycle_completed"@.len());
            reveal_strlit("cycle_started");
            assert("track_edited"@.len() != "cycle_started"@.len());
            reveal_strlit("anchor_updated");
            assert("track_edited"@.len() != "anchor_updated"@.len());
            reveal_strlit("tracks_found");
            assert("track_edited"@[5] != "tracks_found"@[5]);
        },
        ScrubberEventType::TrackEditFailed { .. } => {
            reveal_strlit("track_edit_failed");
            reveal_strlit("started");
            assert("track_edit_failed"@.len() != "started"@.len());
            reveal_strlit("stopped");
            assert("track_edit_failed"@.len() != "stopped"@.len());
            reveal_strlit("sleeping");
            assert("track_edit_failed"@.len() != "sleeping"@.len());
            reveal_strlit("track_processed");
            assert("track_edit_failed"@.len() != "track_processed"@.len());
            reveal_strlit("rule_applied");
            assert("track_edit_failed"@.len() != "rule_applied"@.len());
            reveal_strlit("error");
            assert("track_edit_failed"@.len() != "error"@.len());
            reveal_strlit("info");
            assert("track_edit_failed"@.len() != "info"@.len());
            reveal_strlit("cycle_completed");
            assert("track_edit_failed"@.len() != "cycle_completed"@.len());
            reveal_strlit("cycle_started");
            assert("track_edit_failed"@.len() != "cycle_started"@.len());
            reveal_strlit("anchor_updated");
            assert("track_edit_failed"@.len() != "anchor_updated"@.len());
            reveal_strlit("tracks_found");
            assert("track_edit_failed"@.len() != "tracks_found"@.len());
            reveal_strlit("track_edited");
            assert("track_edit_failed"@.len() != "track_edited"@.len());
        },
        ScrubberEventType::TrackSkipped { .. } => {
            reveal_strlit("track_skipped");
            reveal_strlit("started");
            assert("track_skipped"@.len() != "started"@.len());
            reveal_strlit("stopped");
            assert("track_skipped"@.len() != "stopped"@.len());
            reveal_strlit("sleeping");
            assert("track_skipped"@.len() != "sleeping"@.len());
            reveal_strlit("track_processed");
            assert("track_skipped"@.len() != "track_processed"@.len());
            reveal_strlit("rule_applied");
            assert("track_skipped"@.len() != "rule_applied"@.len());
            reveal_strlit("error");
            assert("track_skipped"@.len() != "error"@.len());
            reveal_strlit("info");
            assert("track_skipped"@.len() != "info"@.len());
            reveal_strlit("cycle_completed");
            assert("track_skipped"@.len() != "cycle_completed"@.len());
            reveal_strlit("cycle_started");
            assert("track_skipped"@[0] != "cycle_started"@[0]);
            reveal_strlit("anchor_updated");
            assert("track_skipped"@.len() != "anchor_updated"@.len());
            reveal_strlit("tracks_found");
            assert("track_skipped"@.len() != "tracks_found"@.len());
            reveal_strlit("track_edited");
            assert("track_skipped"@.len() != "track_edited"@.len());
            reveal_strlit("track_edit_failed");
            assert("track_skipped"@.len() != "track_edit_failed"@.len());
        },
        ScrubberEventType::ClientEvent(_) => {
            reveal_strlit("client_event");
            reveal_strlit("started");
            assert("client_event"@.len() != "started"@.len());
            reveal_strlit("stopped");
            assert("client_event"@.len() != "stopped"@.len());
            reveal_strlit("sleeping");
            assert("client_event"@.len() != "sleeping"@.len());
            reveal_strlit("track_processed");
            assert("client_event"@.len() != "track_processed"@.len());
            reveal_strlit("rule_applied");
            assert("client_event"@[0] != "rule_applied"@[0]);
            reveal_strlit("error");
            assert("client_event"@.len() != "error"@.len());
            reveal_strlit("info");
            assert("client_event"@.len() != "info"@.len());
            reveal_strlit("cycle_completed");
            assert("client_event"@.len() != "cycle_completed"@.len());
            reveal_strlit("cycle_started");
            assert("client_event"@.len() != "cycle_started"@.len());
            reveal_strlit("anchor_updated");
            assert("client_event"@.len() != "anchor_updated"@.len());
            reveal_strlit("tracks_found");
            assert("client_event"@[0] != "tracks_found"@[0]);
            reveal_strlit("track_edited");
            assert("client_event"@[0] != "track_edited"@[0]);
            reveal_strlit("track_edit_failed");
            assert("client_event"@.len() != "track_edit_failed"@.len());
            reveal_strlit("track_skipped");
            assert("client_event"@.len() != "track_skipped"@.len());
        },
        ScrubberEventType::PendingEditCreated { .. } => {
            reveal_strlit("pending_edit_created");
            reveal_strlit("started");
            assert("pending_edit_created"@.len() != "started"@.len());
            reveal_strlit("stopped");
            assert("pending_edit_created"@.len() != "stopped"@.len());
            reveal_strlit("sleeping");
            assert("pending_edit_created"@.len() != "sleeping"@.len());
            reveal_strlit("track_processed");
            assert("pending_edit_created"@.len() != "track_processed"@.len());
            reveal_strlit("rule_applied");
            assert("pending_edit_created"@.len() != "rule_applied"@.len());
            reveal_strlit("error");
            assert("pending_edit_created"@.len() != "error"@.len());
            reveal_strlit("info");
            assert("pending_edit_created"@.len() != "info"@.len());
            reveal_strlit("cycle_completed");
            assert("pending_edit_created"@.len() != "cycle_completed"@.len());
            reveal_strlit("cycle_started");
            assert("pending_edit_created"@.len() != "cycle_started"@.len());
            reveal_strlit("anchor_updated");
            assert("pending_edit_created"@.len() != "anchor_updated"@.len());
            reveal_strlit("tracks_found");
            assert("pending_edit_created"@.len() != "tracks_found"@.len());
            reveal_strlit("track_edited");
            assert("pending_edit_created"@.len() != "track_edited"@.len());
            reveal_strlit("track_edit_failed");
            assert("pending_edit_created"@.len() != "track_edit_failed"@.len());
            reveal_strlit("track_skipped");
            assert("pending_edit_created"@.len() != "track_skipped"@.len());
            reveal_strlit("client_event");
            assert("pending_edit_created"@.len() != "client_event"@.len());
        },
        ScrubberEventType::ProcessingBatchStarted { .. } => {
            reveal_strlit("processing_batch_started");
            reveal_strlit("started");
            assert("processing_batch_started"@.len() != "started"@.len());
            reveal_strlit("stopped");
            assert("processing_batch_started"@.len() != "stopped"@.len());
            reveal_strlit("sleeping");
            assert("processing_batch_started"@.len() != "sleeping"@.len());
            reveal_strlit("track_processed");
            assert("processing_batch_started"@.len() != "track_processed"@.len());
            reveal_strlit("rule_applied");
            assert("processing_batch_started"@.len() != "rule_applied"@.len());
            reveal_strlit("error");
            assert("processing_batch_started"@.len() != "error"@.len());
            reveal_strlit("info");
            assert("processing_batch_started"@.len() != "info"@.len());
            reveal_strlit("cycle_completed");
            assert("processing_batch_started"@.len() != "cycle_completed"@.len());
            reveal_strlit("cycle_started");
            assert("processing_batch_started"@.len() != "cycle_started"@.len());
            reveal_strlit("anchor_updated");
            assert("processing_batch_started"@.len() != "anchor_updated"@.len());
            reveal_strlit("tracks_found");
            assert("processing_batch_started"@.len() != "tracks_found"@.len());
            reveal_strlit("track_edited");
            assert("processing_batch_started"@.len() != "track_edited"@.len());
            reveal_strlit("track_edit_failed");
            assert("processing_batch_started"@.len() != "track_edit_failed"@.len());
            reveal_strlit("track_skipped");
            assert("processing_batch_started"@.len() != "track_skipped"@.len());
            reveal_strlit("client_event");
            assert("processing_batch_started"@.len() != "client_event"@.len());
            reveal_strlit("pending_edit_created");
            assert("processing_batch_started"@.len() != "pending_edit_created"@.len());
        },
        ScrubberEventType::TrackProcessingStarted { .. } => {
            reveal_strlit("track_processing_started");
            reveal_strlit("started");
            assert("track_processing_started"@.len() != "started"@.len());
            reveal_strlit("stopped");
            assert("track_processing_started"@.len() != "stopped"@.len());
            reveal_strlit("sleeping");
            assert("track_processing_started"@.len() != "sleeping"@.len());
            reveal_strlit("track_processed");
            assert("track_processing_started"@.len() != "track_processed"@.len());
            reveal_strlit("rule_applied");
            assert("track_processing_started"@.len() != "rule_applied"@.len());
            reveal_strlit("error");
            assert("track_processing_started"@.len() != "error"@.len());
            reveal_strlit("info");
            assert("track_processing_started"@.len() != "info"@.len());
            reveal_strlit("cycle_completed");
            assert("track_processing_started"@.len() != "cycle_completed"@.len());
            reveal_strlit("cycle_started");
            assert("track_processing_started"@.len() != "cycle_started"@.len());
            reveal_strlit("anchor_updated");
            assert("track_processing_started"@.len() != "anchor_updated"@.len());
            reveal_strlit("tracks_found");
            assert("track_processing_started"@.len() != "tracks_found"@.len());
            reveal_strlit("track_edited");
            assert("track_processing_started"@.len() != "track_edited"@.len());
            reveal_strlit("track_edit_failed");
            assert("track_processing_started"@.len() != "track_edit_failed"@.len());
            reveal_strlit("track_skipped");
            assert("track_processing_started"@.len() != "track_skipped"@.len());
            reveal_strlit("client_event");
            assert("track_processing_started"@.len() != "client_event"@.len());
            reveal_strlit("pending_edit_created");
            assert("track_processing_started"@.len() != "pending_edit_created"@.len());
            reveal_strlit("processing_batch_started");
            assert("track_processing_started"@[0] != "processing_batch_started"@[0]);
        },
        ScrubberEventType::TrackProcessingCompleted { .. } => {
            reveal_strlit("track_processing_completed");
            reveal_strlit("started");
            assert("track_processing_completed"@.len() != "started"@.len());
            reveal_strlit("stopped");
            assert("track_processing_completed"@.len() != "stopped"@.len());
            reveal_strlit("sleeping");
            assert("track_processing_completed"@.len() != "sleeping"@.len());
            reveal_strlit("track_processed");
            assert("track_processing_completed"@.len() != "track_processed"@.len());
            reveal_strlit("rule_applied");
            assert("track_processing_completed"@.len() != "rule_applied"@.len());
            reveal_strlit("error");
            assert("track_processing_completed"@.len() != "error"@.len());
            reveal_strlit("info");
            assert("track_processing_completed"@.len() != "info"@.len());
            reveal_strlit("cycle_completed");
            assert("track_processing_completed"@.len() != "cycle_completed"@.len());
            reveal_strlit("cycle_started");
            assert("track_processing_completed"@.len() != "cycle_started"@.len());
            reveal_strlit("anchor_updated");
            assert("track_processing_completed"@.len() != "anchor_updated"@.len());
            reveal_strlit("tracks_found");
            assert("track_processing_completed"@.len() != "tracks_found"@.len());
            reveal_strlit("track_edited");
            assert("track_processing_completed"@.len() != "track_edited"@.len());
            reveal_strlit("track_edit_failed");
            assert("track_processing_completed"@.len() != "track_edit_failed"@.len());
            reveal_strlit("track_skipped");
            assert("track_processing_completed"@.len() != "track_skipped"@.len());
            reveal_strlit("client_event");
            assert("track_processing_completed"@.len() != "client_event"@.len());
            reveal_strlit("pending_edit_created");
            assert("track_processing_completed"@.len() != "pending_edit_created"@.len());
            reveal_strlit("processing_batch_started");
            assert("track_processing_completed"@.len() != "processing_batch_started"@.len());
            reveal_strlit("track_processing_started");
            assert("track_processing_completed"@.len() != "track_processing_started"@.len());
        },
    }
}

/// Two events share a category exactly when they are of the same kind: the nineteen kinds have
/// nineteen distinct category words, and nothing else of an event (its time, its payload) counts.
pub proof fn law_category_per_kind(a: ScrubberEvent, b: ScrubberEvent)
    ensures
        event_category(a) == event_category(b) <==> event_kind(a) == event_kind(b),
{
    lemma_category_names_kind(a);
    lemma_category_names_kind(b);
}

/// Trying rules in order is trying the last rule on what the earlier ones left: the name it
/// starts from is the earlier rules' result, and it is listed after them when it changes it.
pub proof fn law_rules_apply_in_sequence(rules: Seq<WorkshopRule>, rule: WorkshopRule, name: Seq<char>)
    ensures
        ({
            let first = apply_rules(rules, name);
            let second = apply_rules(seq![rule], first.0);
            apply_rules(rules.push(rule), name) == (second.0, first.1 + second.1)
        }),
{
    let first = apply_rules(rules, name);
    let second = apply_rules(seq![rule], first.0);
    assert(rules.push(rule).drop_last() =~= rules);
    assert(rules.push(rule).last() == rule);
    law_single_rule(rule, first.0);
    assert(first.1 + Seq::<Seq<char>>::empty() =~= first.1);
    assert(first.1.push(rule.name@) =~= first.1 + seq![rule.name@]);
}

/// One rule on its own rewrites the name exactly when it is enabled, its pattern compiles and
/// matches the name, and the replacement differs; then it is the one rule listed.
pub proof fn law_single_rule(rule: WorkshopRule, name: Seq<char>)
    ensures
        ({
            let fires = rule.enabled && regex_valid(rule.pattern@) && regex_is_match(rule.pattern@, name)
                && regex_replace_all(rule.pattern@, name, rule.replacement@) != name;
            apply_rules(seq![rule], name) == if fires {
                (regex_replace_all(rule.pattern@, name, rule.replacement@), seq![rule.name@])
            } else {
                (name, Seq::<Seq<char>>::empty())
            }
        }),
{
    assert(seq![rule].drop_last() =~= Seq::<WorkshopRule>::empty());
    assert(apply_rules(seq![rule].drop_last(), name) == (name, Seq::<Seq<char>>::empty()));
    assert(seq![rule].last() == rule);
    assert(Seq::<Seq<char>>::empty().push(rule.name@) =~= seq![rule.name@]);
}

/// When every pattern the editor holds compiles and the rule changes the selected track's name,
/// artist or album (the album alone too), the preview reports a change and shows each field
/// rewritten by its pattern, or as it was when the field has none.
pub proof fn law_changes_are_previewed(e: EditorView, t: Track)
    requires
        e.fields.len() == 6,
        e.fields[0].len() > 0 ==> regex_compile_error(e.fields[0]) is None,
        e.fields[2].len() > 0 ==> regex_compile_error(e.fields[2]) is None,
        e.fields[4].len() > 0 ==> regex_compile_error(e.fields[4]) is None,
    ensures
        ({
            let n = if e.fields[0].len() > 0 { regex_replace_all(e.fields[0], t.name@, e.fields[1]) } else { t.name@ };
            let a = if e.fields[2].len() > 0 { regex_replace_all(e.fields[2], t.artist@, e.fields[3]) } else { t.artist@ };
            let al = if e.fields[4].len() > 0 {
                regex_replace_all(e.fields[4], album_text(t), e.fields[5])
            } else {
                album_text(t)
            };
            (n != t.name@ || a != t.artist@ || al != album_text(t)) ==> rule_preview(e, t)
                == "After Rule Application:\n  Name: "@ + n + "\n  Artist: "@ + a + "\n  Album: "@ + al
                + "\n\n✓ Rule would make changes"@
        }),
{
}

/// The preview says the rule would not match only when every pattern the editor holds compiles
/// and leaves its field (name, artist, album) exactly as it was.
pub proof fn law_no_match_means_nothing_changes(e: EditorView, t: Track)
    requires
        e.fields.len() == 6,
        rule_preview(e, t) == "- Rule would not match this track"@,
    ensures
        editor_has_rules(e),
        e.fields[0].len() > 0 ==> regex_compile_error(e.fields[0]) is None && regex_replace_all(
            e.fields[0],
            t.name@,
            e.fields[1],
        ) == t.name@,
        e.fields[2].len() > 0 ==> regex_compile_error(e.fields[2]) is None && regex_replace_all(
            e.fields[2],
            t.artist@,
            e.fields[3],
        ) == t.artist@,
        e.fields[4].len() > 0 ==> regex_compile_error(e.fields[4]) is None && regex_replace_all(
            e.fields[4],
            album_text(t),
            e.fields[5],
        ) == album_text(t),
{
    reveal_strlit("- Rule would not match this track");
    reveal_strlit("Enter find patterns to test the rule");
    reveal_strlit("✗ Rule error: ");
    reveal_strlit("After Rule Application:\n  Name: ");
    let no = "- Rule would not match this track"@;
    assert(no[0] == '-');
    assert("Enter find patterns to test the rule"@[0] == 'E');
    assert(forall|x: Seq<char>| ("✗ Rule error: "@ + x)[0] == '✗');
    assert(forall|x: Seq<char>| ("After Rule Application:\n  Name: "@ + x)[0] == 'A');
}

/// The four flags a processing command carries: dry run, confirmation, confirmation of proposed
/// rules, web interface; none for the other commands.
pub open spec fn command_flags(cmd: Commands) -> (bool, bool, bool, bool) {
    match cmd {
        Commands::Run { dry_run, require_confirmation, require_proposed_rule_confirmation, enable_web_interface, .. } =>
            (dry_run, require_confirmation, require_proposed_rule_confirmation, enable_web_interface),
        Commands::Once { dry_run, require_confirmation, require_proposed_rule_confirmation, enable_web_interface, .. } =>
            (dry_run, require_confirmation, require_proposed_rule_confirmation, enable_web_interface),
        Commands::LastN { dry_run, require_confirmation, require_proposed_rule_confirmation, enable_web_interface, .. } =>
            (dry_run, require_confirmation, require_proposed_rule_confirmation, enable_web_interface),
        Commands::Artist { dry_run, require_confirmation, require_proposed_rule_confirmation, enable_web_interface, .. } =>
            (dry_run, require_confirmation, require_proposed_rule_confirmation, enable_web_interface),
        _ => (false, false, false, false),
    }
}

/// The web port a command gives, if any.
pub open spec fn command_port(cmd: Commands) -> Option<u16> {
    match cmd {
        Commands::Run { web_port, .. } => web_port,
        Commands::Once { web_port, .. } => web_port,
        Commands::LastN { web_port, .. } => web_port,
        Commands::Artist { web_port, .. } => web_port,
        Commands::Web { port } => port,
        _ => None,
    }
}

/// A flag given with a processing command switches its setting on, and a flag not given leaves
/// the configured setting; the web command always switches the web interface on; a given port
/// replaces the configured one, and so does the run command's interval.
pub proof fn law_command_flags_switch_on(c: ScrobbleScrubberConfig, a: Args, user_file: Seq<char>, r: ScrobbleScrubberConfig)
    requires
        merged_ok(c, a, user_file, r),
    ensures
        r.scrubber.dry_run == (c.scrubber.dry_run || command_flags(a.command).0),
        r.scrubber.require_confirmation == (c.scrubber.require_confirmation || command_flags(a.command).1),
        r.scrubber.require_proposed_rule_confirmation == (c.scrubber.require_proposed_rule_confirmation
            || command_flags(a.command).2),
        r.scrubber.enable_web_interface == (c.scrubber.enable_web_interface || command_flags(a.command).3
            || a.command is Web),
        r.scrubber.web_port == match command_port(a.command) {
            Some(p) => p,
            None => c.scrubber.web_port,
        },
        r.scrubber.interval == match a.command {
            Commands::Run { interval: Some(i), .. } => i,
            _ => c.scrubber.interval,
        },
{
}

/// Recording an anchor update remembers that anchor, whatever was remembered before; any other
/// event keeps the remembered anchor.
pub proof fn law_latest_anchor_wins(s: ScrubberView, e: ScrubberEvent)
    ensures
        e.event_type matches ScrubberEventType::AnchorUpdated { anchor_timestamp, .. } ==> state_after(
            s,
            e,
        ).current_anchor_timestamp == Some(anchor_timestamp),
        !(e.event_type is AnchorUpdated) ==> state_after(s, e).current_anchor_timestamp == s.current_anchor_timestamp,
{
}

/// Each pattern of a default rule becomes the same field's case-insensitive find-and-replace of
/// the imported rule, with the same find and replace texts; a field without a pattern stays
/// without one.
pub proof fn law_default_rule_fields_correspond(d: DefaultRule)
    ensures
        ({
            let r = default_rule_view(d);
            &&& r.name == Some(d.name@)
            &&& r.requires_confirmation == d.requires_confirmation
            &&& (d.track_name is None <==> r.track_name is None)
            &&& (d.artist_name is None <==> r.artist_name is None)
            &&& (d.album_name is None <==> r.album_name is None)
            &&& (d.album_artist_name is None <==> r.album_artist_name is None)
            &&& d.track_name matches Some(p) ==> (r.track_name matches Some(x) && x.find == p.find@
                && x.replace == p.replace@ && x.flags == Some("i"@))
            &&& d.artist_name matches Some(p) ==> (r.artist_name matches Some(x) && x.find == p.find@
                && x.replace == p.replace@ && x.flags == Some("i"@))
            &&& d.album_name matches Some(p) ==> (r.album_name matches Some(x) && x.find == p.find@
                && x.replace == p.replace@ && x.flags == Some("i"@))
            &&& d.album_artist_name matches Some(p) ==> (r.album_artist_name matches Some(x) && x.find
                == p.find@ && x.replace == p.replace@ && x.flags == Some("i"@))
        }),
{
}

} // verus!
