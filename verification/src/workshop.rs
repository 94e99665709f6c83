use vstd::prelude::*;
use crate::pattern::{
    compile, is_match, regex_compile_error, regex_is_match, regex_replace_all, regex_valid, replace_all,
};
use crate::rules::opt_view;
use crate::text::{push_str, same_text, string_of};
use crate::track::copy_opt_string;

verus! {

/// A track as the desktop workshop exchanges it.
#[derive(Debug, Clone, PartialEq)]
pub struct TrackInfo {
    pub name: String,
    pub artist: String,
    pub album: Option<String>,
    pub playcount: u32,
    pub timestamp: Option<u64>,
}

impl TrackInfo {
    /// An exact copy.
    pub fn duplicate(&self) -> (r: TrackInfo)
        ensures
            r == *self,
    {
        TrackInfo {
            name: self.name.clone(),
            artist: self.artist.clone(),
            album: copy_opt_string(&self.album),
            playcount: self.playcount,
            timestamp: self.timestamp,
        }
    }
}

/// A workshop rule: one regular expression applied to track names.
#[derive(Debug, Clone, PartialEq)]
pub struct RewriteRule {
    pub id: String,
    pub name: String,
    pub pattern: String,
    pub replacement: String,
    pub enabled: bool,
}

/// A request to try one pattern on one text.
#[derive(Debug, Clone, PartialEq)]
pub struct TestRuleRequest {
    pub pattern: String,
    pub replacement: String,
    pub test_input: String,
}

/// What trying one pattern gave.
#[derive(Debug, Clone, PartialEq)]
pub struct TestRuleResult {
    pub success: bool,
    pub result: String,
    pub error: Option<String>,
}

/// A request to try rules on tracks.
#[derive(Debug, Clone, PartialEq)]
pub struct TestRulesRequest {
    pub rules: Vec<RewriteRule>,
    pub tracks: Vec<TrackInfo>,
}

/// What trying the rules did to one track.
#[derive(Debug, Clone, PartialEq)]
pub struct TrackTestResult {
    pub original_track: TrackInfo,
    pub would_change: bool,
    pub new_track_name: Option<String>,
    pub new_artist_name: Option<String>,
    pub rules_applied: Vec<String>,
}

/// What trying the rules did to each track, in order.
#[derive(Debug, Clone, PartialEq)]
pub struct TestRulesResult {
    pub track_results: Vec<TrackTestResult>,
}

/// Strings by their text.
pub open spec fn texts(v: Seq<String>) -> Seq<Seq<char>> {
    v.map_values(|s: String| s@)
}

/// Trying one pattern: its replacement over the whole text, or the text unchanged with an error
/// when the pattern does not compile.
pub fn test_rule(request: &TestRuleRequest) -> (r: TestRuleResult)
    ensures
        r.success == regex_valid(request.pattern@),
        r.success ==> r.result@ == regex_replace_all(
            request.pattern@,
            request.test_input@,
            request.replacement@,
        ) && r.error is None,
        !r.success ==> (r.result@ == request.test_input@ && (r.error matches Some(e) && e@
            == "Invalid regex pattern: "@ + regex_compile_error(request.pattern@)->0)),
{
    match compile(request.pattern.as_str()) {
        Ok(re) => {
            let result = replace_all(&re, request.test_input.as_str(), request.replacement.as_str());
            TestRuleResult { success: true, result, error: None }
        },
        Err(e) => {
            let mut msg = string_of("Invalid regex pattern: ");
            push_str(&mut msg, e.as_str());
            TestRuleResult { success: false, result: request.test_input.clone(), error: Some(msg) }
        },
    }
}

/// The rule rewrites the current name: it is enabled, compiles, matches, and its replacement
/// differs from the name.
pub open spec fn rule_changes(r: RewriteRule, cur: Seq<char>) -> bool {
    r.enabled && regex_valid(r.pattern@) && regex_is_match(r.pattern@, cur) && regex_replace_all(
        r.pattern@,
        cur,
        r.replacement@,
    ) != cur
}

/// The track name after the rules in order, each on the result of those before, and the names
/// of the rules that changed it.
pub open spec fn apply_rules(rules: Seq<RewriteRule>, name: Seq<char>) -> (Seq<char>, Seq<Seq<char>>)
    decreases rules.len(),
{
    if rules.len() == 0 {
        (name, Seq::empty())
    } else {
        let prev = apply_rules(rules.drop_last(), name);
        let r = rules.last();
        if rule_changes(r, prev.0) {
            (regex_replace_all(r.pattern@, prev.0, r.replacement@), prev.1.push(r.name@))
        } else {
            prev
        }
    }
}

/// What trying the rules on one track reports.
pub open spec fn track_test_ok(rules: Seq<RewriteRule>, track: TrackInfo, r: TrackTestResult) -> bool {
    let (cur, applied) = apply_rules(rules, track.name@);
    &&& r.original_track == track
    &&& r.would_change == (applied.len() > 0)
    &&& opt_view(r.new_track_name) == (if applied.len() > 0 { Some(cur) } else { None })
    &&& r.new_artist_name is None
    &&& texts(r.rules_applied@) == applied
}

/// Tries the rules on one track.
fn test_rules_on_track(rules: &Vec<RewriteRule>, track: &TrackInfo) -> (r: TrackTestResult)
    ensures
        track_test_ok(rules@, *track, r),
{
    let mut current = track.name.clone();
    let mut applied: Vec<String> = Vec::new();
    let mut i: usize = 0;
    while i < rules.len()
        invariant
            i <= rules@.len(),
            (current@, texts(applied@)) == apply_rules(rules@.subrange(0, i as int), track.name@),
        decreases rules@.len() - i,
    {
        let rule = &rules[i];
        proof {
            assert(rules@.subrange(0, i + 1).drop_last() =~= rules@.subrange(0, i as int));
            assert(rules@.subrange(0, i + 1).last() == *rule);
        }
        if rule.enabled {
            match compile(rule.pattern.as_str()) {
                Ok(re) => {
                    if is_match(&re, current.as_str()) {
                        let new_name = replace_all(&re, current.as_str(), rule.replacement.as_str());
                        if !same_text(new_name.as_str(), current.as_str()) {
                            let ghost prev = applied@;
                            current = new_name;
                            applied.push(rule.name.clone());
                            proof {
                                assert(texts(applied@) =~= texts(prev).push(rule.name@));
                            }
                        }
                    }
                },
                Err(_) => {},
            }
        }
        i = i + 1;
    }
    proof {
        assert(rules@.subrange(0, i as int) =~= rules@);
    }
    let would_change = applied.len() > 0;
    TrackTestResult {
        original_track: track.duplicate(),
        would_change,
        new_track_name: if would_change { Some(current) } else { None },
        new_artist_name: None,
        rules_applied: applied,
    }
}


/// Tries the rules on every track, each track on its own.
pub fn test_rules_on_tracks(request: &TestRulesRequest) -> (r: TestRulesResult)
    ensures
        r.track_results@.len() == request.tracks@.len(),
        forall|i: int|
            0 <= i < request.tracks@.len() ==> track_test_ok(
                request.rules@,
                request.tracks@[i],
                #[trigger] r.track_results@[i],
            ),
{
    let mut results: Vec<TrackTestResult> = Vec::new();
    let mut i: usize = 0;
    while i < request.tracks.len()
        invariant
            i <= request.tracks@.len(),
            results@.len() == i,
            forall|j: int|
                0 <= j < i ==> track_test_ok(request.rules@, request.tracks@[j], #[trigger] results@[j]),
        decreases request.tracks@.len() - i,
    {
        results.push(test_rules_on_track(&request.rules, &request.tracks[i]));
        i = i + 1;
    }
    TestRulesResult { track_results: results }
}


/// Progress of one track while an artist is scanned.
#[derive(Debug, Clone, PartialEq)]
pub struct TrackProcessingUpdate {
    pub track_name: String,
    pub artist_name: String,
    pub original_track: String,
    pub original_artist: String,
    pub rules_applied: Vec<String>,
    pub status: String,
}

/// The demonstration catalogue of an artist: original title, album and play count.
pub open spec fn demo_artist_entry(i: int) -> (Seq<char>, Seq<char>, u32) {
    if i == 0 {
        ("Song One - 2009 Remaster"@, "Best Of Album"@, 42u32)
    } else if i == 1 {
        ("Track Two (Live Version)"@, "Live Album"@, 18u32)
    } else if i == 2 {
        ("Third Song [Explicit]"@, "Studio Album"@, 33u32)
    } else if i == 3 {
        ("Another Track - Deluxe Edition"@, "Greatest Hits"@, 27u32)
    } else {
        ("Final Song (Radio Edit)"@, "Singles"@, 51u32)
    }
}

/// The demonstration recent tracks: title, artist, album and play count.
pub open spec fn demo_recent_entry(i: int) -> (Seq<char>, Seq<char>, Seq<char>, u32) {
    if i == 0 {
        ("Recent Song 1 - Remastered"@, "Artist A"@, "Album A"@, 15u32)
    } else if i == 1 {
        ("Recent Song 2 (feat. Someone)"@, "Artist B"@, "Album B"@, 8u32)
    } else if i == 2 {
        ("Recent Song 3 [Live]"@, "Artist C"@, "Album C"@, 22u32)
    } else if i == 3 {
        ("Recent Song 4 - Radio Version"@, "Artist D"@, "Album D"@, 11u32)
    } else {
        ("Recent Song 5 (Deluxe)"@, "Artist E"@, "Album E"@, 31u32)
    }
}

fn demo_artist_entry_exec(i: usize) -> (r: (&'static str, &'static str, u32))
    requires
        i < 5,
    ensures
        (r.0@, r.1@, r.2) == demo_artist_entry(i as int),
{
    match i {
        0 => ("Song One - 2009 Remaster", "Best Of Album", 42),
        1 => ("Track Two (Live Version)", "Live Album", 18),
        2 => ("Third Song [Explicit]", "Studio Album", 33),
        3 => ("Another Track - Deluxe Edition", "Greatest Hits", 27),
        _ => ("Final Song (Radio Edit)", "Singles", 51),
    }
}

fn demo_recent_entry_exec(i: usize) -> (r: (&'static str, &'static str, &'static str, u32))
    requires
        i < 5,
    ensures
        (r.0@, r.1@, r.2@, r.3) == demo_recent_entry(i as int),
{
    match i {
        0 => ("Recent Song 1 - Remastered", "Artist A", "Album A", 15),
        1 => ("Recent Song 2 (feat. Someone)", "Artist B", "Album B", 8),
        2 => ("Recent Song 3 [Live]", "Artist C", "Album C", 22),
        3 => ("Recent Song 4 - Radio Version", "Artist D", "Album D", 11),
        _ => ("Recent Song 5 (Deluxe)", "Artist E", "Album E", 31),
    }
}

/// The track limit of a fetch request: the given one, or a hundred.
pub fn fetch_limit(limit: Option<u32>) -> (r: u32)
    ensures
        r == match limit {
            Some(l) => l,
            None => 100u32,
        },
{
    match limit {
        Some(l) => l,
        None => 100,
    }
}

/// The demonstration tracks the desktop worker hands out: for an artist, that artist's catalogue
/// a day apart; otherwise recent tracks an hour apart; at most `limit` of the five.
pub open spec fn demo_tracks_ok(artist: Option<Seq<char>>, limit: u32, r: Seq<TrackInfo>) -> bool {
    &&& r.len() == if limit < 5 { limit as int } else { 5 }
    &&& forall|i: int|
        0 <= i < r.len() ==> match artist {
            Some(a) => {
                let e = demo_artist_entry(i);
                &&& (#[trigger] r[i]).name@ == e.0
                &&& r[i].artist@ == a
                &&& opt_view(r[i].album) == Some(e.1)
                &&& r[i].playcount == e.2
                &&& r[i].timestamp == Some((1642000000 + i * 86400) as u64)
            },
            None => {
                let e = demo_recent_entry(i);
                &&& (#[trigger] r[i]).name@ == e.0
                &&& r[i].artist@ == e.1
                &&& opt_view(r[i].album) == Some(e.2)
                &&& r[i].playcount == e.3
                &&& r[i].timestamp == Some((1642000000 + i * 3600) as u64)
            },
        }
}

/// An optional text by its characters.
pub open spec fn opt_str_view(a: Option<&str>) -> Option<Seq<char>> {
    match a {
        Some(x) => Some(x@),
        None => None,
    }
}

/// The demonstration tracks the desktop worker hands out.
pub fn demo_fetch_tracks(artist: Option<&str>, limit: u32) -> (r: Vec<TrackInfo>)
    ensures
        demo_tracks_ok(opt_str_view(artist), limit, r@),
{
    let mut tracks: Vec<TrackInfo> = Vec::new();
    let mut i: usize = 0;
    while i < 5
        invariant_except_break
            i <= 5,
            tracks@.len() == i,
            i <= limit,
        invariant
            tracks@.len() <= 5,
            tracks@.len() <= limit,
            forall|j: int|
                0 <= j < tracks@.len() ==> match artist {
                    Some(a) => {
                        let e = demo_artist_entry(j);
                        &&& (#[trigger] tracks@[j]).name@ == e.0
                        &&& tracks@[j].artist@ == a@
                        &&& opt_view(tracks@[j].album) == Some(e.1)
                        &&& tracks@[j].playcount == e.2
                        &&& tracks@[j].timestamp == Some((1642000000 + j * 86400) as u64)
                    },
                    None => {
                        let e = demo_recent_entry(j);
                        &&& (#[trigger] tracks@[j]).name@ == e.0
                        &&& tracks@[j].artist@ == e.1
                        &&& opt_view(tracks@[j].album) == Some(e.2)
                        &&& tracks@[j].playcount == e.3
                        &&& tracks@[j].timestamp == Some((1642000000 + j * 3600) as u64)
                    },
                },
        ensures
            tracks@.len() == if limit < 5 { limit as int } else { 5 },
        decreases 5 - i,
    {
        if tracks.len() >= limit as usize {
            break;
        }
        let t = match artist {
            Some(a) => {
                let e = demo_artist_entry_exec(i);
                TrackInfo {
                    name: string_of(e.0),
                    artist: string_of(a),
                    album: Some(string_of(e.1)),
                    playcount: e.2,
                    timestamp: Some(1642000000 + (i as u64) * 86400),
                }
            },
            None => {
                let e = demo_recent_entry_exec(i);
                TrackInfo {
                    name: string_of(e.0),
                    artist: string_of(e.1),
                    album: Some(string_of(e.2)),
                    playcount: e.3,
                    timestamp: Some(1642000000 + (i as u64) * 3600),
                }
            },
        };
        tracks.push(t);
        i = i + 1;
    }
    tracks
}

/// The demonstration catalogue's clean titles, before cleanup came the originals.
pub open spec fn demo_scan_entry(i: int) -> (Seq<char>, Seq<char>) {
    if i == 0 {
        ("Song One"@, "Song One (feat. Someone)"@)
    } else if i == 1 {
        ("Track Two"@, "Track Two - Remastered"@)
    } else if i == 2 {
        ("Third Song"@, "Third Song (Live Version)"@)
    } else if i == 3 {
        ("Another Track"@, "Another Track [Explicit]"@)
    } else {
        ("Final Song"@, "Final Song - Radio Edit"@)
    }
}

fn demo_scan_entry_exec(i: usize) -> (r: (&'static str, &'static str))
    requires
        i < 5,
    ensures
        (r.0@, r.1@) == demo_scan_entry(i as int),
{
    match i {
        0 => ("Song One", "Song One (feat. Someone)"),
        1 => ("Track Two", "Track Two - Remastered"),
        2 => ("Third Song", "Third Song (Live Version)"),
        3 => ("Another Track", "Another Track [Explicit]"),
        _ => ("Final Song", "Final Song - Radio Edit"),
    }
}

/// The update reported for demonstration track `i` of an artist scan, before (`processing`) or
/// after (`completed`) the track is handled.
pub open spec fn scan_update_ok(u: TrackProcessingUpdate, artist: Seq<char>, i: int, completed: bool) -> bool {
    let e = demo_scan_entry(i);
    &&& u.track_name@ == e.0
    &&& u.artist_name@ == artist
    &&& u.original_track@ == e.1
    &&& u.original_artist@ == artist
    &&& texts(u.rules_applied@) == if e.0 != e.1 {
        seq!["Remove feat. from track names"@]
    } else {
        Seq::<Seq<char>>::empty()
    }
    &&& u.status@ == if completed { "completed"@ } else { "processing"@ }
}

/// The progress update for one demonstration track of an artist scan.
pub fn demo_scan_update(artist: &str, i: usize, completed: bool) -> (u: TrackProcessingUpdate)
    requires
        i < 5,
    ensures
        scan_update_ok(u, artist@, i as int, completed),
{
    let e = demo_scan_entry_exec(i);
    let mut applied: Vec<String> = Vec::new();
    if !same_text(e.0, e.1) {
        applied.push(string_of("Remove feat. from track names"));
        proof {
            assert(texts(applied@) =~= seq!["Remove feat. from track names"@]);
        }
    } else {
        proof {
            assert(texts(applied@) =~= Seq::<Seq<char>>::empty());
        }
    }
    TrackProcessingUpdate {
        track_name: string_of(e.0),
        artist_name: string_of(artist),
        original_track: string_of(e.1),
        original_artist: string_of(artist),
        rules_applied: applied,
        status: if completed { string_of("completed") } else { string_of("processing") },
    }
}

/// How many demonstration tracks an artist scan handles.
pub const DEMO_SCAN_TRACKS: usize = 5;

/// The demonstration rules the desktop workshop starts with.
pub fn get_rewrite_rules() -> (r: Vec<RewriteRule>)
    ensures
        r@.len() == 3,
        r@[0].id@ == "1"@ && r@[0].name@ == "Remove remaster suffixes"@ && r@[0].pattern@
            == "^(.*) - \\d{4} (Remaster|Version)$"@ && r@[0].replacement@ == "$1"@ && r@[0].enabled,
        r@[1].id@ == "2"@ && r@[1].name@ == "Clean parenthetical featuring"@ && r@[1].pattern@
            == "^(.*)\\s*\\(feat\\. (.*)\\)$"@ && r@[1].replacement@ == "$1 feat. $2"@ && r@[1].enabled,
        r@[2].id@ == "3"@ && r@[2].name@ == "Remove edition markers"@ && r@[2].pattern@
            == "^(.*)\\s*\\((Deluxe|Extended|Special) Edition\\)$"@ && r@[2].replacement@ == "$1"@
            && !r@[2].enabled,
{
    let mut v: Vec<RewriteRule> = Vec::new();
    v.push(
        RewriteRule {
            id: string_of("1"),
            name: string_of("Remove remaster suffixes"),
            pattern: string_of("^(.*) - \\d{4} (Remaster|Version)$"),
            replacement: string_of("$1"),
            enabled: true,
        },
    );
    v.push(
        RewriteRule {
            id: string_of("2"),
            name: string_of("Clean parenthetical featuring"),
            pattern: string_of("^(.*)\\s*\\(feat\\. (.*)\\)$"),
            replacement: string_of("$1 feat. $2"),
            enabled: true,
        },
    );
    v.push(
        RewriteRule {
            id: string_of("3"),
            name: string_of("Remove edition markers"),
            pattern: string_of("^(.*)\\s*\\((Deluxe|Extended|Special) Edition\\)$"),
            replacement: string_of("$1"),
            enabled: false,
        },
    );
    v
}

/// What came back from the background worker for a request.
#[derive(Debug, Clone, PartialEq)]
pub enum WorkerReply<T> {
    Done(T),
    Failed(String),
    SendFailed,
    ReceiveFailed,
}

/// The answer to a login attempt.
#[derive(Debug, Clone, PartialEq)]
pub struct LoginResult {
    pub success: bool,
    pub message: String,
}

/// The answer to an artist scan.
#[derive(Debug, Clone, PartialEq)]
pub struct ScanResult {
    pub success: bool,
    pub message: String,
    pub tracks_processed: u32,
}

/// The answer to a login attempt, from the worker's reply.
pub fn login_result(username: &str, reply: WorkerReply<()>) -> (r: LoginResult)
    ensures
        r.success == reply is Done,
        match reply {
            WorkerReply::Done(_) => r.message@ == "Successfully logged in as "@ + username@,
            WorkerReply::Failed(msg) => r.message@ == msg@,
            WorkerReply::SendFailed => r.message@ == "Internal error: could not communicate with worker"@,
            WorkerReply::ReceiveFailed => r.message@ == "Internal error: worker communication failed"@,
        },
{
    match reply {
        WorkerReply::Done(_) => {
            let mut m = string_of("Successfully logged in as ");
            push_str(&mut m, username);
            LoginResult { success: true, message: m }
        },
        WorkerReply::Failed(msg) => LoginResult { success: false, message: msg },
        WorkerReply::SendFailed => LoginResult {
            success: false,
            message: string_of("Internal error: could not communicate with worker"),
        },
        WorkerReply::ReceiveFailed => LoginResult {
            success: false,
            message: string_of("Internal error: worker communication failed"),
        },
    }
}

/// The answer to an artist scan: without a logged-in worker it is refused at once; otherwise it
/// follows the worker's reply.
pub fn scan_result(artist: &str, logged_in: bool, reply: WorkerReply<u32>) -> (r: ScanResult)
    ensures
        !logged_in ==> !r.success && r.message@ == "Not logged in. Please login first."@ && r.tracks_processed
            == 0,
        logged_in ==> match reply {
            WorkerReply::Done(n) => r.success && r.tracks_processed == n && r.message@
                == "Successfully scanned tracks for artist: "@ + artist@,
            WorkerReply::Failed(msg) => !r.success && r.tracks_processed == 0 && r.message@ == msg@,
            WorkerReply::SendFailed => !r.success && r.tracks_processed == 0 && r.message@
                == "Internal error: could not communicate with worker"@,
            WorkerReply::ReceiveFailed => !r.success && r.tracks_processed == 0 && r.message@
                == "Internal error: worker communication failed"@,
        },
{
    if !logged_in {
        return ScanResult {
            success: false,
            message: string_of("Not logged in. Please login first."),
            tracks_processed: 0,
        };
    }
    match reply {
        WorkerReply::Done(n) => {
            let mut m = string_of("Successfully scanned tracks for artist: ");
            push_str(&mut m, artist);
            ScanResult { success: true, message: m, tracks_processed: n }
        },
        WorkerReply::Failed(msg) => ScanResult { success: false, message: msg, tracks_processed: 0 },
        WorkerReply::SendFailed => ScanResult {
            success: false,
            message: string_of("Internal error: could not communicate with worker"),
            tracks_processed: 0,
        },
        WorkerReply::ReceiveFailed => ScanResult {
            success: false,
            message: string_of("Internal error: worker communication failed"),
            tracks_processed: 0,
        },
    }
}

/// The answer to a track fetch: without a logged-in worker it is refused at once; otherwise it
/// is the worker's tracks or its error.
pub fn fetch_result(logged_in: bool, reply: WorkerReply<Vec<TrackInfo>>) -> (r: Result<Vec<TrackInfo>, String>)
    ensures
        !logged_in ==> (r matches Err(m) && m@ == "Not logged in. Please login first."@),
        logged_in ==> match reply {
            WorkerReply::Done(ts) => r == Ok::<Vec<TrackInfo>, String>(ts),
            WorkerReply::Failed(msg) => r matches Err(m) && m@ == msg@,
            WorkerReply::SendFailed => r matches Err(m) && m@ == "Internal error: could not communicate with worker"@,
            WorkerReply::ReceiveFailed => r matches Err(m) && m@ == "Internal error: worker communication failed"@,
        },
{
    if !logged_in {
        return Err(string_of("Not logged in. Please login first."));
    }
    match reply {
        WorkerReply::Done(ts) => Ok(ts),
        WorkerReply::Failed(msg) => Err(msg),
        WorkerReply::SendFailed => Err(string_of("Internal error: could not communicate with worker")),
        WorkerReply::ReceiveFailed => Err(string_of("Internal error: worker communication failed")),
    }
}

/// The background worker's answer to an artist scan: every demonstration track is handled once
/// a session exists; without one the scan is refused.
pub fn worker_scan_reply(logged_in: bool) -> (r: Result<u32, String>)
    ensures
        logged_in ==> r == Ok::<u32, String>(DEMO_SCAN_TRACKS as u32),
        !logged_in ==> (r matches Err(m) && m@ == "Not logged in"@),
{
    if logged_in {
        Ok(DEMO_SCAN_TRACKS as u32)
    } else {
        Err(string_of("Not logged in"))
    }
}

/// The background worker's answer to a login, from what Last.fm said.
pub fn worker_login_reply(outcome: Result<(), String>) -> (r: Result<(), String>)
    ensures
        match outcome {
            Ok(()) => r is Ok,
            Err(e) => r matches Err(m) && m@ == "Login failed: "@ + e@,
        },
{
    match outcome {
        Ok(()) => Ok(()),
        Err(e) => {
            let mut m = string_of("Login failed: ");
            push_str(&mut m, e.as_str());
            Err(m)
        },
    }
}

/// A request to the background Last.fm worker; a login carries what Last.fm answered to it.
#[derive(Debug, PartialEq)]
pub enum WorkerRequest {
    Login { outcome: Result<(), String> },
    ProcessArtist { artist: String },
    FetchTracks { artist: Option<String>, limit: u32 },
}

/// The worker's answer to a request.
#[derive(Debug, PartialEq)]
pub enum WorkerResponse {
    Login(Result<(), String>),
    ProcessArtist(Result<u32, String>),
    FetchTracks(Result<Vec<TrackInfo>, String>),
}

/// What the worker does with one request: whether a session exists afterwards, the progress
/// updates it reports in order, and its answer.
pub struct WorkerStep {
    pub logged_in: bool,
    pub updates: Vec<TrackProcessingUpdate>,
    pub response: WorkerResponse,
}

/// Whether the worker has a session after a request: an accepted login opens one, and nothing
/// closes it.
pub open spec fn session_after(logged_in: bool, request: WorkerRequest) -> bool {
    match request {
        WorkerRequest::Login { outcome } => logged_in || outcome is Ok,
        _ => logged_in,
    }
}

/// The progress of a scan: for each demonstration track in turn, `processing` and then
/// `completed`.
pub open spec fn scan_updates_ok(us: Seq<TrackProcessingUpdate>, artist: Seq<char>) -> bool {
    &&& us.len() == 2 * DEMO_SCAN_TRACKS
    &&& forall|j: int| 0 <= j < us.len() ==> scan_update_ok(#[trigger] us[j], artist, j / 2, j % 2 == 1)
}

/// The worker handles one request: a login opens the session when Last.fm accepted it and keeps
/// an earlier one otherwise; a scan needs a session and reports every demonstration track before
/// answering with their number; a fetch answers with the demonstration tracks.
pub fn worker_step(logged_in: bool, request: WorkerRequest) -> (r: WorkerStep)
    ensures
        r.logged_in == session_after(logged_in, request),
        match request {
            WorkerRequest::Login { outcome } => {
                &&& r.logged_in == (logged_in || outcome is Ok)
                &&& r.updates@.len() == 0
                &&& r.response matches WorkerResponse::Login(reply) && match outcome {
                    Ok(()) => reply is Ok,
                    Err(e) => reply matches Err(m) && m@ == "Login failed: "@ + e@,
                }
            },
            WorkerRequest::ProcessArtist { artist } => {
                &&& r.logged_in == logged_in
                &&& logged_in ==> scan_updates_ok(r.updates@, artist@) && r.response
                    == WorkerResponse::ProcessArtist(Ok::<u32, String>(DEMO_SCAN_TRACKS as u32))
                &&& !logged_in ==> r.updates@.len() == 0 && (r.response matches WorkerResponse::ProcessArtist(
                    Err(m),
                ) && m@ == "Not logged in"@)
            },
            WorkerRequest::FetchTracks { artist, limit } => {
                &&& r.logged_in == logged_in
                &&& r.updates@.len() == 0
                &&& r.response matches WorkerResponse::FetchTracks(Ok(ts)) && demo_tracks_ok(
                    opt_view(artist),
                    limit,
                    ts@,
                )
            },
        },
{
    match request {
        WorkerRequest::Login { outcome } => {
            let accepted = outcome.is_ok();
            let reply = worker_login_reply(outcome);
            WorkerStep { logged_in: logged_in || accepted, updates: Vec::new(), response: WorkerResponse::Login(reply) }
        },
        WorkerRequest::ProcessArtist { artist } => {
            let mut updates: Vec<TrackProcessingUpdate> = Vec::new();
            if logged_in {
                let mut i: usize = 0;
                while i < DEMO_SCAN_TRACKS
                    invariant
                        i <= DEMO_SCAN_TRACKS,
                        updates@.len() == 2 * i,
                        forall|j: int|
                            0 <= j < updates@.len() ==> scan_update_ok(
                                #[trigger] updates@[j],
                                artist@,
                                j / 2,
                                j % 2 == 1,
                            ),
                    decreases DEMO_SCAN_TRACKS - i,
                {
                    let before = demo_scan_update(artist.as_str(), i, false);
                    let after = demo_scan_update(artist.as_str(), i, true);
                    updates.push(before);
                    updates.push(after);
                    proof {
                        assert forall|j: int| 0 <= j < updates@.len() implies scan_update_ok(
                            #[trigger] updates@[j],
                            artist@,
                            j / 2,
                            j % 2 == 1,
                        ) by {
                            if j == 2 * i {
                                assert(j / 2 == i && j % 2 == 0);
                            } else if j == 2 * i + 1 {
                                assert(j / 2 == i && j % 2 == 1);
                            }
                        }
                    }
                    i = i + 1;
                }
            }
            let reply = worker_scan_reply(logged_in);
            WorkerStep { logged_in, updates, response: WorkerResponse::ProcessArtist(reply) }
        },
        WorkerRequest::FetchTracks { artist, limit } => {
            let tracks = match &artist {
                Some(a) => demo_fetch_tracks(Some(a.as_str()), limit),
                None => demo_fetch_tracks(None, limit),
            };
            WorkerStep { logged_in, updates: Vec::new(), response: WorkerResponse::FetchTracks(Ok(tracks)) }
        },
    }
}

} // verus!
