use vstd::prelude::*;
use crate::cache::{CacheView, TrackCache, concat_pages, entries_total};
use crate::text::{decimal, push_decimal, push_str, repeat_char, repeated, string_of};
use crate::timefmt::{
    format_utc, parse_rfc3339, rfc3339_parse, simple_pattern, simple_pattern_from, utc_in_range, utc_seconds,
    utc_text,
};
use crate::track::{Track, copy_tracks};

verus! {

/// Tracks on one page of recent scrobbles.
pub const PAGE_SIZE: u32 = 50;

/// At most this many pages of albums are fetched for an artist.
pub const MAX_ALBUM_PAGES: u32 = 10;

/// The cached tracks of a page of recent scrobbles (pages count from 1), when the cache reaches
/// that page.
pub fn cached_recent_page(cached: &Vec<Track>, page: u32) -> (r: Option<Vec<Track>>)
    requires
        page >= 1,
        (page - 1) * 50 <= u32::MAX,
    ensures
        ({
            let start = (page - 1) * 50;
            if start < cached@.len() {
                r matches Some(v) && v@ == cached@.subrange(
                    start,
                    if start + 50 < cached@.len() { start + 50 } else { cached@.len() as int },
                )
            } else {
                r is None
            }
        }),
{
    let start = ((page - 1) * PAGE_SIZE) as usize;
    if cached.len() > 0 && start < cached.len() {
        let end = if cached.len() - start > 50 { start + 50 } else { cached.len() };
        let mut out: Vec<Track> = Vec::new();
        let mut i: usize = start;
        while i < end
            invariant
                start <= i <= end <= cached@.len(),
                out@ == cached@.subrange(start as int, i as int),
            decreases end - i,
        {
            out.push(cached[i].duplicate());
            i = i + 1;
        }
        if out.len() > 0 {
            return Some(out);
        }
    }
    None
}

/// The first `limit` tracks of a fetched page, or all of them when fewer.
pub fn take_limit(tracks: &Vec<Track>, limit: u32) -> (r: Vec<Track>)
    ensures
        r@ == tracks@.subrange(0, if (limit as int) < tracks@.len() { limit as int } else { tracks@.len() as int }),
{
    let n = if (limit as usize) < tracks.len() { limit as usize } else { tracks.len() };
    let mut out: Vec<Track> = Vec::new();
    let mut i: usize = 0;
    while i < n
        invariant
            i <= n <= tracks@.len(),
            out@ == tracks@.subrange(0, i as int),
        decreases n - i,
    {
        out.push(tracks[i].duplicate());
        i = i + 1;
    }
    out
}

/// After a page of an artist's albums: whether its albums are kept, and the next page to fetch,
/// if any. An empty page ends the walk; so does the last page, or the tenth.
pub fn next_album_page(page: u32, albums_empty: bool, has_next_page: bool) -> (r: (bool, Option<u32>))
    ensures
        r.0 == !albums_empty,
        r.1 == if albums_empty || !has_next_page || page >= 10 { None } else { Some((page + 1) as u32) },
{
    if albums_empty {
        return (false, None);
    }
    if !has_next_page || page >= MAX_ALBUM_PAGES {
        (true, None)
    } else {
        (true, Some(page + 1))
    }
}

/// The state of fetching whole pages of recent scrobbles, one track at a time.
#[derive(Debug, Clone, PartialEq)]
pub struct PageFetch {
    pub pages: usize,
    pub current_page: usize,
    pub page_tracks: usize,
    pub fetched: usize,
    pub done: bool,
}

/// The fetch is consistent: the tracks so far fill the finished pages and part of the current
/// one; it is done once the pages asked for are finished.
pub open spec fn fetch_wf(f: PageFetch) -> bool {
    &&& f.page_tracks < 50
    &&& f.current_page <= f.pages
    &&& (f.current_page == f.pages ==> f.page_tracks == 0)
    &&& f.fetched == f.current_page * 50 + f.page_tracks
    &&& (f.current_page == f.pages ==> f.done)
    &&& (f.done && f.current_page < f.pages ==> f.page_tracks == 0)
}

impl PageFetch {
    /// A fetch of `pages` pages; nothing is fetched for none.
    pub fn new(pages: usize) -> (r: PageFetch)
        ensures
            fetch_wf(r),
            r.pages == pages,
            r.fetched == 0,
            r.done == (pages == 0),
    {
        PageFetch { pages, current_page: 0, page_tracks: 0, fetched: 0, done: pages == 0 }
    }

    /// One more track arrived. Returns the page number (from 1) to announce when a full page was
    /// finished and another one is still wanted.
    pub fn on_track(&mut self) -> (announce: Option<usize>)
        requires
            fetch_wf(*old(self)),
            !old(self).done,
            old(self).pages * 50 <= usize::MAX,
        ensures
            fetch_wf(*final(self)),
            final(self).pages == old(self).pages,
            final(self).fetched == old(self).fetched + 1,
            old(self).page_tracks + 1 < 50 ==> final(self).current_page == old(self).current_page
                && !final(self).done && announce is None,
            old(self).page_tracks + 1 == 50 ==> {
                &&& final(self).current_page == old(self).current_page + 1
                &&& final(self).page_tracks == 0
                &&& final(self).done == (old(self).current_page + 1 == old(self).pages)
                &&& announce == if old(self).current_page + 1 < old(self).pages {
                    Some((old(self).current_page + 2) as usize)
                } else {
                    None
                }
            },
    {
        proof {
            assert(self.current_page < self.pages);
            assert(self.fetched + 1 <= self.pages * 50) by (nonlinear_arith)
                requires
                    self.fetched == self.current_page * 50 + self.page_tracks,
                    self.page_tracks < 50,
                    self.current_page < self.pages,
            ;
        }
        self.fetched = self.fetched + 1;
        self.page_tracks = self.page_tracks + 1;
        if self.page_tracks == 50 {
            self.current_page = self.current_page + 1;
            self.page_tracks = 0;
            if self.current_page == self.pages {
                self.done = true;
                None
            } else {
                Some(self.current_page + 1)
            }
        } else {
            None
        }
    }

    /// The source ran out of tracks: the current page counts as fetched and the fetch ends.
    pub fn on_end(&mut self)
        requires
            fetch_wf(*old(self)),
            !old(self).done,
        ensures
            final(self).done,
            final(self).current_page == old(self).current_page + 1,
            final(self).fetched == old(self).fetched,
            final(self).pages == old(self).pages,
    {
        self.current_page = self.current_page + 1;
        self.done = true;
    }
}

/// The fetch never takes more than the pages asked for.
pub proof fn fetch_bounded(f: PageFetch)
    requires
        fetch_wf(f),
    ensures
        f.fetched <= f.pages * 50,
{
    assert(f.fetched <= f.pages * 50) by (nonlinear_arith)
        requires
            f.fetched == f.current_page * 50 + f.page_tracks,
            f.page_tracks < 50,
            f.current_page <= f.pages,
            f.current_page == f.pages ==> f.page_tracks == 0,
    ;
}

/// A fetched track is older than the oldest cached moment: it has a timestamp that chrono can
/// represent and it lies strictly before.
pub open spec fn older_than(ts: Option<u64>, oldest: i64) -> bool {
    match ts {
        Some(t) => utc_in_range(t) && (t as i64) < oldest,
        None => false,
    }
}

/// Whether a fetched track lies before the oldest cached moment.
pub fn is_older_than(ts: Option<u64>, oldest: i64) -> (r: bool)
    ensures
        r == older_than(ts, oldest),
{
    match ts {
        Some(t) => match utc_seconds(t) {
            Some(s) => s < oldest,
            None => false,
        },
        None => false,
    }
}

/// Why the anchor cannot be moved back.
#[derive(Debug, Clone, PartialEq)]
pub enum AnchorError {
    NoTracks,
    NotEnoughTracks { requested: u32, available: usize },
    NoTimestamp,
    InvalidTimestamp,
}

/// The moment to set the anchor to when going back `tracks_back` tracks from the newest, or why
/// there is none.
pub open spec fn anchor_choice(tracks: Seq<Track>, tracks_back: u32) -> Result<u64, AnchorError> {
    if tracks.len() == 0 {
        Err(AnchorError::NoTracks)
    } else if tracks_back >= tracks.len() {
        Err(AnchorError::NotEnoughTracks { requested: tracks_back, available: tracks.len() as usize })
    } else {
        match tracks[tracks_back as int].timestamp {
            None => Err(AnchorError::NoTimestamp),
            Some(t) => if utc_in_range(t) {
                Ok(t)
            } else {
                Err(AnchorError::InvalidTimestamp)
            },
        }
    }
}

/// The moment to set the anchor to when going back `tracks_back` tracks from the newest.
pub fn select_anchor(tracks: &Vec<Track>, tracks_back: u32) -> (r: Result<u64, AnchorError>)
    ensures
        r == anchor_choice(tracks@, tracks_back),
{
    if tracks.len() == 0 {
        return Err(AnchorError::NoTracks);
    }
    if tracks_back as usize >= tracks.len() {
        return Err(AnchorError::NotEnoughTracks { requested: tracks_back, available: tracks.len() });
    }
    match tracks[tracks_back as usize].timestamp {
        None => Err(AnchorError::NoTimestamp),
        Some(t) => match utc_seconds(t) {
            Some(_) => Ok(t),
            None => Err(AnchorError::InvalidTimestamp),
        },
    }
}

/// The pattern a scrobble time is shown with.
pub open spec fn time_display_pattern() -> Seq<char> {
    "%Y-%m-%d %H:%M:%S UTC"@
}

/// The display pattern uses only conversions that a UTC moment always renders.
pub proof fn lemma_time_display_pattern_simple()
    ensures
        simple_pattern(time_display_pattern()),
{
    reveal_strlit("%Y-%m-%d %H:%M:%S UTC");
    reveal_with_fuel(simple_pattern_from, 22);
}

/// How a track's scrobble time is shown.
pub open spec fn timestamp_text(ts: Option<u64>) -> Seq<char> {
    match ts {
        Some(t) => if utc_in_range(t) {
            utc_text(t, time_display_pattern())
        } else {
            "Invalid timestamp"@
        },
        None => "No timestamp"@,
    }
}

/// The display pattern as text.
pub(crate) fn time_display_pattern_text() -> (r: &'static str)
    ensures
        r@ == time_display_pattern(),
        simple_pattern(r@),
{
    proof {
        lemma_time_display_pattern_simple();
    }
    "%Y-%m-%d %H:%M:%S UTC"
}

/// How a track's scrobble time is shown.
pub fn timestamp_label(ts: Option<u64>) -> (r: String)
    ensures
        r@ == timestamp_text(ts),
{
    match ts {
        Some(t) => match format_utc(t, time_display_pattern_text()) {
            Some(x) => x,
            None => string_of("Invalid timestamp"),
        },
        None => string_of("No timestamp"),
    }
}

/// `{indent}{n}: 'name' by 'artist' [time]`
pub open spec fn track_line_text(indent: Seq<char>, n: nat, t: Track) -> Seq<char> {
    indent + decimal(n) + ": '"@ + t.name@ + "' by '"@ + t.artist@ + "' ["@ + timestamp_text(t.timestamp) + "]"@
}

/// One numbered line describing a track.
pub fn track_line(indent: &str, n: u64, t: &Track) -> (r: String)
    ensures
        r@ == track_line_text(indent@, n as nat, *t),
{
    let mut s = string_of(indent);
    push_decimal(&mut s, n);
    push_str(&mut s, ": '");
    push_str(&mut s, t.name.as_str());
    push_str(&mut s, "' by '");
    push_str(&mut s, t.artist.as_str());
    push_str(&mut s, "' [");
    let ts = timestamp_label(t.timestamp);
    push_str(&mut s, ts.as_str());
    push_str(&mut s, "]");
    proof {
        assert(s@ =~= track_line_text(indent@, n as nat, *t));
    }
    s
}

/// Strings by their text.
pub open spec fn lines_of(v: Seq<String>) -> Seq<Seq<char>> {
    v.map_values(|s: String| s@)
}

/// The listing of cached recent tracks: how many are shown, one line per shown track, and how
/// many more there are.
pub open spec fn listing_text(tracks: Seq<Track>, limit: nat) -> Seq<Seq<char>> {
    let shown = if tracks.len() < limit { tracks.len() } else { limit };
    seq!["  Showing "@ + decimal(shown) + " tracks:"@] + Seq::new(
        shown,
        |i: int| track_line_text("    "@, (i + 1) as nat, tracks[i]),
    ) + if tracks.len() > limit {
        seq!["    ... and "@ + decimal((tracks.len() - limit) as nat) + " more tracks"@]
    } else {
        Seq::empty()
    }
}

/// The listing of cached recent tracks, at most `limit` of them.
pub fn track_listing_lines(tracks: &Vec<Track>, limit: usize) -> (r: Vec<String>)
    ensures
        lines_of(r@) == listing_text(tracks@, limit as nat),
{
    let shown = if tracks.len() < limit { tracks.len() } else { limit };
    let mut lines: Vec<String> = Vec::new();
    let mut head = string_of("  Showing ");
    push_decimal(&mut head, shown as u64);
    push_str(&mut head, " tracks:");
    lines.push(head);
    let mut i: usize = 0;
    while i < shown
        invariant
            shown <= tracks@.len(),
            i <= shown,
            lines@.len() == i + 1,
            lines_of(lines@) =~= seq!["  Showing "@ + decimal(shown as nat) + " tracks:"@] + Seq::new(
                i as nat,
                |k: int| track_line_text("    "@, (k + 1) as nat, tracks@[k]),
            ),
        decreases shown - i,
    {
        let ghost prev = lines_of(lines@);
        lines.push(track_line("    ", (i + 1) as u64, &tracks[i]));
        proof {
            let f = |k: int| track_line_text("    "@, (k + 1) as nat, tracks@[k]);
            assert(Seq::new((i + 1) as nat, f) =~= Seq::new(i as nat, f).push(f(i as int)));
            assert(lines_of(lines@) =~= prev.push(f(i as int)));
        }
        i = i + 1;
    }
    let ghost before = lines_of(lines@);
    if tracks.len() > limit {
        let mut tail = string_of("    ... and ");
        push_decimal(&mut tail, (tracks.len() - limit) as u64);
        push_str(&mut tail, " more tracks");
        lines.push(tail);
    }
    proof {
        assert(lines_of(lines@) =~= listing_text(tracks@, limit as nat));
    }
    lines
}

/// A result with its error by its text.
pub open spec fn result_text(r: Result<i64, String>) -> Result<i64, Seq<char>> {
    match r {
        Ok(t) => Ok(t),
        Err(e) => Err(e@),
    }
}

/// The anchor moment given on the command line, from what the RFC 3339 parser said of it: the
/// moment, or an error that names the text and shows the expected format.
pub open spec fn anchor_parse_text(text: Seq<char>, parsed: Result<i64, Seq<char>>) -> Result<i64, Seq<char>> {
    match parsed {
        Ok(t) => Ok(t),
        Err(e) => Err(
            "Failed to parse timestamp '"@ + text + "': "@ + e + ". Use ISO 8601 format like '2025-07-22T07:08:00Z'"@,
        ),
    }
}

/// The anchor moment from what the RFC 3339 parser said of the text.
pub fn anchor_from_parse(text: &str, parsed: Result<i64, String>) -> (r: Result<i64, String>)
    ensures
        result_text(r) == anchor_parse_text(text@, result_text(parsed)),
{
    match parsed {
        Ok(t) => Ok(t),
        Err(e) => {
            let mut m = string_of("Failed to parse timestamp '");
            push_str(&mut m, text);
            push_str(&mut m, "': ");
            push_str(&mut m, e.as_str());
            push_str(&mut m, ". Use ISO 8601 format like '2025-07-22T07:08:00Z'");
            proof {
                assert(m@ =~= "Failed to parse timestamp '"@ + text@ + "': "@ + e@
                    + ". Use ISO 8601 format like '2025-07-22T07:08:00Z'"@);
            }
            Err(m)
        },
    }
}

/// Parses the anchor moment given on the command line (RFC 3339, such as
/// `2025-07-22T07:08:00Z`) into seconds since the Unix epoch.
pub fn parse_anchor_timestamp(text: &str) -> (r: Result<i64, String>)
    ensures
        result_text(r) == anchor_parse_text(text@, rfc3339_parse(text@)),
{
    let parsed = parse_rfc3339(text);
    anchor_from_parse(text, parsed)
}

/// What the set-anchor command prints when it cannot move the anchor.
pub open spec fn anchor_error_text(e: AnchorError) -> Seq<char> {
    match e {
        AnchorError::NoTracks => "❌ No recent tracks in cache. Load some tracks first."@,
        AnchorError::NotEnoughTracks { requested, available } => "❌ Requested to go back "@ + decimal(
            requested as nat,
        ) + " tracks, but only "@ + decimal(available as nat) + " tracks available"@,
        AnchorError::NoTimestamp => "❌ Target track has no timestamp information"@,
        AnchorError::InvalidTimestamp => "Invalid timestamp"@,
    }
}

/// The message of the set-anchor command when it cannot move the anchor.
pub fn anchor_error_message(e: &AnchorError) -> (r: String)
    ensures
        r@ == anchor_error_text(*e),
{
    match e {
        AnchorError::NoTracks => string_of("❌ No recent tracks in cache. Load some tracks first."),
        AnchorError::NotEnoughTracks { requested, available } => {
            let mut s = string_of("❌ Requested to go back ");
            push_decimal(&mut s, *requested as u64);
            push_str(&mut s, " tracks, but only ");
            push_decimal(&mut s, *available as u64);
            push_str(&mut s, " tracks available");
            proof {
                assert(s@ =~= anchor_error_text(*e));
            }
            s
        },
        AnchorError::NoTimestamp => string_of("❌ Target track has no timestamp information"),
        AnchorError::InvalidTimestamp => string_of("Invalid timestamp"),
    }
}

/// What the set-anchor command prints once the anchor is at a track.
pub open spec fn anchor_set_text(t: Track) -> Seq<Seq<char>> {
    seq![
        "Setting anchor to track '"@ + t.name@ + "' by '"@ + t.artist@ + "'"@,
        "Timestamp: "@ + timestamp_text(t.timestamp),
        "✅ Timestamp anchor set successfully"@,
        "Next scrubber run will process tracks from this point forward"@,
    ]
}

/// The lines the set-anchor command prints once the anchor is at a track.
pub fn anchor_set_lines(t: &Track) -> (lines: Vec<String>)
    ensures
        lines_of(lines@) == anchor_set_text(*t),
{
    let mut first = string_of("Setting anchor to track '");
    push_str(&mut first, t.name.as_str());
    push_str(&mut first, "' by '");
    push_str(&mut first, t.artist.as_str());
    push_str(&mut first, "'");
    let mut second = string_of("Timestamp: ");
    let label = timestamp_label(t.timestamp);
    push_str(&mut second, label.as_str());
    let mut lines: Vec<String> = Vec::new();
    lines.push(first);
    lines.push(second);
    lines.push(string_of("✅ Timestamp anchor set successfully"));
    lines.push(string_of("Next scrubber run will process tracks from this point forward"));
    proof {
        assert(lines_of(lines@) =~= anchor_set_text(*t));
    }
    lines
}

/// One line per cached artist: its name and how many tracks it holds.
pub open spec fn artist_lines(es: Seq<(Seq<char>, Seq<Track>)>) -> Seq<Seq<char>>
    decreases es.len(),
{
    if es.len() == 0 {
        Seq::empty()
    } else {
        artist_lines(es.drop_last()) + seq![
            "    '"@ + es.last().0 + "': "@ + decimal(es.last().1.len()) + " tracks"@,
        ]
    }
}

/// The recent tracks the show-cache command lists: all of them, or the first `limit`.
pub open spec fn shown_recent(recent: Seq<Track>, limit: nat, all_pages: bool) -> Seq<Track> {
    if all_pages || recent.len() <= limit {
        recent
    } else {
        recent.subrange(0, limit as int)
    }
}

/// What the show-cache command prints: the recent tracks, then the cached artists.
pub open spec fn cache_state_text(c: CacheView, limit: nat, all_pages: bool) -> Seq<Seq<char>> {
    let recent = concat_pages(c.recent);
    seq![
        "📂 Track Cache State"@,
        repeated('=', 18),
        "Recent Tracks:"@,
        "  "@ + decimal(recent.len()) + " tracks cached"@,
    ] + (if recent.len() > 0 {
        listing_text(shown_recent(recent, limit, all_pages), limit)
    } else {
        seq!["  No recent tracks cached"@]
    }) + seq![
        "\nArtist Tracks:"@,
        "  "@ + decimal(c.artists.len()) + " artists cached, "@ + decimal(entries_total(c.artists))
            + " total tracks"@,
    ] + if c.artists.len() > 0 {
        artist_lines(c.artists)
    } else {
        seq!["  No artist tracks cached"@]
    }
}

/// The first `n` tracks, or all of them when fewer.
fn first_tracks(tracks: &Vec<Track>, n: usize) -> (r: Vec<Track>)
    ensures
        r@ == if tracks@.len() <= n { tracks@ } else { tracks@.subrange(0, n as int) },
{
    let k = if tracks.len() <= n { tracks.len() } else { n };
    let mut out: Vec<Track> = Vec::new();
    let mut i: usize = 0;
    while i < k
        invariant
            k <= tracks@.len(),
            k == if tracks@.len() <= n { tracks@.len() as int } else { n as int },
            i <= k,
            out@ == tracks@.subrange(0, i as int),
        decreases k - i,
    {
        out.push(tracks[i].duplicate());
        i = i + 1;
    }
    proof {
        if tracks@.len() <= n {
            assert(tracks@.subrange(0, k as int) =~= tracks@);
        }
    }
    out
}

/// The lines that list the cached artists.
fn artist_listing(cache: &TrackCache) -> (lines: Vec<String>)
    ensures
        lines_of(lines@) == artist_lines(cache@.artists),
{
    let mut lines: Vec<String> = Vec::new();
    let mut i: usize = 0;
    while i < cache.artist_tracks.len()
        invariant
            i <= cache.artist_tracks@.len(),
            lines_of(lines@) == artist_lines(cache@.artists.subrange(0, i as int)),
        decreases cache.artist_tracks@.len() - i,
    {
        let mut l = string_of("    '");
        push_str(&mut l, cache.artist_tracks[i].0.as_str());
        push_str(&mut l, "': ");
        push_decimal(&mut l, cache.artist_tracks[i].1.len() as u64);
        push_str(&mut l, " tracks");
        let ghost prev = lines_of(lines@);
        lines.push(l);
        proof {
            let es = cache@.artists;
            assert(es.subrange(0, i + 1).drop_last() =~= es.subrange(0, i as int));
            assert(es.subrange(0, i + 1).last() == es[i as int]);
            assert(lines_of(lines@) =~= prev.push(l@));
        }
        i = i + 1;
    }
    proof {
        assert(cache@.artists.subrange(0, i as int) =~= cache@.artists);
    }
    lines
}

/// The lines the show-cache command prints.
pub fn show_cache_state(cache: &TrackCache, limit: usize, all_pages: bool) -> (lines: Vec<String>)
    requires
        cache@.counts_fit(),
    ensures
        lines_of(lines@) == cache_state_text(cache@, limit as nat, all_pages),
{
    let recent = cache.all_recent_tracks();
    let stats = cache.stats();
    let mut lines: Vec<String> = Vec::new();
    lines.push(string_of("📂 Track Cache State"));
    lines.push(repeat_char('=', 18));
    lines.push(string_of("Recent Tracks:"));
    let mut count = string_of("  ");
    push_decimal(&mut count, recent.len() as u64);
    push_str(&mut count, " tracks cached");
    lines.push(count);
    let ghost head = lines_of(lines@);
    if recent.len() > 0 {
        let shown = if all_pages { recent } else { first_tracks(&recent, limit) };
        let mut listing = track_listing_lines(&shown, limit);
        lines.append(&mut listing);
    } else {
        lines.push(string_of("  No recent tracks cached"));
    }
    let ghost mid = lines_of(lines@);
    lines.push(string_of("\nArtist Tracks:"));
    let mut summary = string_of("  ");
    push_decimal(&mut summary, stats.artist_count as u64);
    push_str(&mut summary, " artists cached, ");
    push_decimal(&mut summary, stats.artist_track_count as u64);
    push_str(&mut summary, " total tracks");
    lines.push(summary);
    let ghost mid2 = lines_of(lines@);
    if stats.artist_count > 0 {
        let mut artists = artist_listing(cache);
        lines.append(&mut artists);
    } else {
        lines.push(string_of("  No artist tracks cached"));
    }
    proof {
        let c = cache@;
        let rec = concat_pages(c.recent);
        assert(head =~= seq![
            "📂 Track Cache State"@,
            repeated('=', 18),
            "Recent Tracks:"@,
            "  "@ + decimal(rec.len()) + " tracks cached"@,
        ]);
        assert(mid =~= head + (if rec.len() > 0 {
            listing_text(shown_recent(rec, limit as nat, all_pages), limit as nat)
        } else {
            seq!["  No recent tracks cached"@]
        }));
        assert(mid2 =~= mid + seq![
            "\nArtist Tracks:"@,
            "  "@ + decimal(c.artists.len()) + " artists cached, "@ + decimal(entries_total(c.artists))
                + " total tracks"@,
        ]);
        assert(lines_of(lines@) =~= cache_state_text(c, limit as nat, all_pages));
    }
    lines
}

/// The first position, from `from` on, of a track scrobbled at `anchor`.
pub open spec fn first_at_anchor(tracks: Seq<Track>, anchor: u64, from: int) -> Option<int>
    decreases tracks.len() - from,
{
    if from < 0 || from >= tracks.len() {
        None
    } else if tracks[from].timestamp == Some(anchor) {
        Some(from)
    } else {
        first_at_anchor(tracks, anchor, from + 1)
    }
}

/// Where the processing anchor stands among the cached tracks: the first track scrobbled at the
/// anchor's moment, if there is an anchor and such a track.
pub fn anchor_index(tracks: &Vec<Track>, anchor: Option<u64>) -> (r: Option<usize>)
    ensures
        r == match anchor {
            Some(a) => match first_at_anchor(tracks@, a, 0) {
                Some(i) => Some(i as usize),
                None => None::<usize>,
            },
            None => None::<usize>,
        },
{
    match anchor {
        None => None,
        Some(a) => {
            let mut i: usize = 0;
            while i < tracks.len()
                invariant
                    i <= tracks@.len(),
                    anchor == Some(a),
                    first_at_anchor(tracks@, a, 0) == first_at_anchor(tracks@, a, i as int),
                decreases tracks@.len() - i,
            {
                if tracks[i].timestamp == Some(a) {
                    proof {
                        assert(first_at_anchor(tracks@, a, i as int) == Some(i as int));
                    }
                    return Some(i);
                }
                i = i + 1;
            }
            None
        },
    }
}

/// How a cached track's row is marked against the processing anchor.
#[derive(Debug, Clone, PartialEq)]
pub enum AnchorPlace {
    /// The anchor track itself.
    Anchor,
    /// Newer than the anchor: still to be processed.
    Pending,
    /// Older than the anchor: already processed.
    Processed,
    /// No anchor among the cached tracks.
    Unanchored,
}

/// How the row at `index` is marked, given where the anchor stands.
pub fn anchor_place(index: usize, anchor: Option<usize>) -> (r: AnchorPlace)
    ensures
        r == match anchor {
            Some(a) => if index == a {
                AnchorPlace::Anchor
            } else if index < a {
                AnchorPlace::Pending
            } else {
                AnchorPlace::Processed
            },
            None => AnchorPlace::Unanchored,
        },
{
    match anchor {
        Some(a) => if index == a {
            AnchorPlace::Anchor
        } else if index < a {
            AnchorPlace::Pending
        } else {
            AnchorPlace::Processed
        },
        None => AnchorPlace::Unanchored,
    }
}

/// How many cached tracks the list shows after "Show More": fifty more, but no more than there
/// are.
pub fn next_display_count(current: usize, total: usize) -> (r: usize)
    requires
        current + 50 <= usize::MAX,
    ensures
        r == if current + 50 < total { current + 50 } else { total as int },
{
    if current + 50 < total {
        current + 50
    } else {
        total
    }
}

} // verus!
