use vstd::prelude::*;
use crate::text::{
    decimal, eq_ignore_ascii_case, equal_ignoring_ascii_case, push_decimal, push_str, repeat_char,
    repeated, string_of,
};

verus! {

/// The MusicBrainz subcommands of the command line.
#[derive(Debug, Clone, PartialEq)]
pub enum MusicBrainzCommands {
    /// Search for albums/releases for an artist.
    AlbumSearch { artist: String, album: Option<String>, limit: usize },
    /// Check if a track exists on the canonical release of an album.
    TrackMatch { artist: String, title: String, album: String, show_tracks: bool, show_all: bool },
    /// Search for a track and show what MusicBrainz finds.
    TrackSearch { artist: String, title: String, album: Option<String>, limit: usize },
}

/// The text of an optional value, or a placeholder.
pub open spec fn or_placeholder(v: Option<String>, placeholder: Seq<char>) -> Seq<char> {
    match v {
        Some(x) => x@,
        None => placeholder,
    }
}

/// A release as the album search lists it: date, country, disambiguation, and a mark on the
/// canonical one.
pub open spec fn release_line_text(
    date: Option<String>,
    country: Option<String>,
    disambiguation: Option<String>,
    is_canonical: bool,
) -> Seq<char> {
    "   "@ + (match date {
        Some(d) => d@ + " "@,
        None => "???? "@,
    }) + (match country {
        Some(c) => "["@ + c@ + "] "@,
        None => "[??] "@,
    }) + (match disambiguation {
        Some(d) => "- "@ + d@ + " "@,
        None => Seq::<char>::empty(),
    }) + (if is_canonical { " ⭐ [CANONICAL]"@ } else { Seq::<char>::empty() })
}

/// Appends the text of an optional value, or a placeholder.
fn push_or(s: &mut String, v: &Option<String>, placeholder: &str)
    ensures
        final(s)@ == old(s)@ + or_placeholder(*v, placeholder@),
{
    match v {
        Some(x) => push_str(s, x.as_str()),
        None => push_str(s, placeholder),
    }
}

/// The line of a release in the album search.
pub fn release_line(
    date: &Option<String>,
    country: &Option<String>,
    disambiguation: &Option<String>,
    is_canonical: bool,
) -> (r: String)
    ensures
        r@ == release_line_text(*date, *country, *disambiguation, is_canonical),
{
    let mut s = string_of("   ");
    match date {
        Some(d) => {
            push_str(&mut s, d.as_str());
            push_str(&mut s, " ");
        },
        None => push_str(&mut s, "???? "),
    }
    match country {
        Some(c) => {
            push_str(&mut s, "[");
            push_str(&mut s, c.as_str());
            push_str(&mut s, "] ");
        },
        None => push_str(&mut s, "[??] "),
    }
    match disambiguation {
        Some(d) => {
            push_str(&mut s, "- ");
            push_str(&mut s, d.as_str());
            push_str(&mut s, " ");
        },
        None => {},
    }
    if is_canonical {
        push_str(&mut s, " ⭐ [CANONICAL]");
    }
    proof {
        assert(s@ =~= release_line_text(*date, *country, *disambiguation, is_canonical));
    }
    s
}

/// How many releases the album search shows: at most the limit.
pub open spec fn shown_count(total: nat, limit: nat) -> nat {
    if total <= limit { total } else { limit }
}

/// The heading of the album search's results.
pub open spec fn releases_heading_text(total: nat, limit: nat) -> Seq<char> {
    "Found "@ + decimal(total) + " releases (showing "@ + decimal(shown_count(total, limit)) + "):\n"@
}

/// The heading of the album search's results.
pub fn releases_heading(total: usize, limit: usize) -> (r: String)
    ensures
        r@ == releases_heading_text(total as nat, limit as nat),
{
    let shown: usize = if total <= limit { total } else { limit };
    let mut s = string_of("Found ");
    push_decimal(&mut s, total as u64);
    push_str(&mut s, " releases (showing ");
    push_decimal(&mut s, shown as u64);
    push_str(&mut s, "):\n");
    proof {
        assert(s@ =~= releases_heading_text(total as nat, limit as nat));
    }
    s
}

/// A track of the canonical release's track list, marked when its title is the one asked for
/// (ASCII letters compared without regard to case).
pub open spec fn track_list_line_text(position: u32, track_title: Seq<char>, wanted: Seq<char>) -> Seq<char> {
    "   "@ + decimal(position as nat) + ". "@ + track_title + (if equal_ignoring_ascii_case(
        track_title,
        wanted,
    ) {
        " ✅ FOUND"@
    } else {
        Seq::<char>::empty()
    })
}

/// The line of a track in the canonical release's track list.
pub fn track_list_line(position: u32, track_title: &str, wanted: &str) -> (r: String)
    ensures
        r@ == track_list_line_text(position, track_title@, wanted@),
{
    let mut s = string_of("   ");
    push_decimal(&mut s, position as u64);
    push_str(&mut s, ". ");
    push_str(&mut s, track_title);
    if eq_ignore_ascii_case(track_title, wanted) {
        push_str(&mut s, " ✅ FOUND");
    }
    proof {
        assert(s@ =~= track_list_line_text(position, track_title@, wanted@));
    }
    s
}

/// A release in the list of all releases: date, title, country, disambiguation, and a mark on
/// the canonical one.
pub open spec fn all_releases_line_text(
    date: Option<String>,
    title: Seq<char>,
    country: Option<String>,
    disambiguation: Option<String>,
    is_canonical: bool,
) -> Seq<char> {
    "   "@ + or_placeholder(date, "????"@) + " - "@ + title + " ("@ + or_placeholder(country, "??"@) + ")"@
        + (match disambiguation {
        Some(d) => " ["@ + d@ + "]"@,
        None => Seq::<char>::empty(),
    }) + (if is_canonical { " ← CANONICAL"@ } else { Seq::<char>::empty() })
}

/// The line of a release in the list of all releases.
pub fn all_releases_line(
    date: &Option<String>,
    title: &str,
    country: &Option<String>,
    disambiguation: &Option<String>,
    is_canonical: bool,
) -> (r: String)
    ensures
        r@ == all_releases_line_text(*date, title@, *country, *disambiguation, is_canonical),
{
    let mut s = string_of("   ");
    push_or(&mut s, date, "????");
    push_str(&mut s, " - ");
    push_str(&mut s, title);
    push_str(&mut s, " (");
    push_or(&mut s, country, "??");
    push_str(&mut s, ")");
    match disambiguation {
        Some(d) => {
            push_str(&mut s, " [");
            push_str(&mut s, d.as_str());
            push_str(&mut s, "]");
        },
        None => {},
    }
    if is_canonical {
        push_str(&mut s, " ← CANONICAL");
    }
    proof {
        assert(s@ =~= all_releases_line_text(*date, title@, *country, *disambiguation, is_canonical));
    }
    s
}

/// The description of the release chosen as canonical.
pub open spec fn canonical_release_text(
    title: Seq<char>,
    date: Option<String>,
    country: Option<String>,
    disambiguation: Option<String>,
    id: Seq<char>,
) -> Seq<Seq<char>> {
    seq![
        "🎯 CANONICAL RELEASE SELECTED BY PROVIDER:"@,
        "   Title: "@ + title,
        "   Date: "@ + or_placeholder(date, "unknown"@),
        "   Country: "@ + or_placeholder(country, "??"@),
    ] + (match disambiguation {
        Some(d) => seq!["   Disambiguation: "@ + d@],
        None => Seq::<Seq<char>>::empty(),
    }) + seq!["   MusicBrainz ID: "@ + id, Seq::<char>::empty()]
}

/// Strings by their text.
pub open spec fn texts(v: Seq<String>) -> Seq<Seq<char>> {
    v.map_values(|s: String| s@)
}

/// Appends a line.
fn push_line(lines: &mut Vec<String>, s: String)
    ensures
        texts(final(lines)@) == texts(old(lines)@).push(s@),
{
    lines.push(s);
    proof {
        assert(texts(lines@) =~= texts(old(lines)@).push(s@));
    }
}

/// The lines that describe the release chosen as canonical.
pub fn canonical_release_lines(
    title: &str,
    date: &Option<String>,
    country: &Option<String>,
    disambiguation: &Option<String>,
    id: &str,
) -> (lines: Vec<String>)
    ensures
        texts(lines@) == canonical_release_text(title@, *date, *country, *disambiguation, id@),
{
    let mut lines: Vec<String> = Vec::new();
    push_line(&mut lines, string_of("🎯 CANONICAL RELEASE SELECTED BY PROVIDER:"));
    let mut t = string_of("   Title: ");
    push_str(&mut t, title);
    push_line(&mut lines, t);
    let mut d = string_of("   Date: ");
    push_or(&mut d, date, "unknown");
    push_line(&mut lines, d);
    let mut c = string_of("   Country: ");
    push_or(&mut c, country, "??");
    push_line(&mut lines, c);
    match disambiguation {
        Some(x) => {
            let mut l = string_of("   Disambiguation: ");
            push_str(&mut l, x.as_str());
            push_line(&mut lines, l);
        },
        None => {},
    }
    let mut m = string_of("   MusicBrainz ID: ");
    push_str(&mut m, id);
    push_line(&mut lines, m);
    push_line(&mut lines, String::new());
    proof {
        assert(texts(lines@) =~= canonical_release_text(title@, *date, *country, *disambiguation, id@));
    }
    lines
}

/// The verdict of the track match: whether the track passes the MusicBrainz confirmation.
pub open spec fn provider_result_text(title: Seq<char>, exists: bool) -> Seq<Seq<char>> {
    let rule = repeated('=', 80);
    if exists {
        seq![
            rule,
            "PROVIDER RESULT:"@,
            "✅ Track '"@ + title + "' EXISTS on the canonical release"@,
            "   This track would PASS MusicBrainz confirmation"@,
            rule,
        ]
    } else {
        seq![
            rule,
            "PROVIDER RESULT:"@,
            "❌ Track '"@ + title + "' is NOT on the canonical release"@,
            "   This track would FAIL MusicBrainz confirmation"@,
            "   (likely a bonus track from a special edition or regional release)"@,
            rule,
        ]
    }
}

/// The lines of the track match's verdict.
pub fn provider_result_lines(title: &str, exists: bool) -> (lines: Vec<String>)
    ensures
        texts(lines@) == provider_result_text(title@, exists),
{
    let mut lines: Vec<String> = Vec::new();
    push_line(&mut lines, repeat_char('=', 80));
    push_line(&mut lines, string_of("PROVIDER RESULT:"));
    if exists {
        let mut l = string_of("✅ Track '");
        push_str(&mut l, title);
        push_str(&mut l, "' EXISTS on the canonical release");
        push_line(&mut lines, l);
        push_line(&mut lines, string_of("   This track would PASS MusicBrainz confirmation"));
    } else {
        let mut l = string_of("❌ Track '");
        push_str(&mut l, title);
        push_str(&mut l, "' is NOT on the canonical release");
        push_line(&mut lines, l);
        push_line(&mut lines, string_of("   This track would FAIL MusicBrainz confirmation"));
        push_line(
            &mut lines,
            string_of("   (likely a bonus track from a special edition or regional release)"),
        );
    }
    push_line(&mut lines, repeat_char('=', 80));
    proof {
        assert(texts(lines@) =~= provider_result_text(title@, exists));
    }
    lines
}

/// The first lines of a track search result: its rank, title and artist, then its album.
pub open spec fn search_result_head_text(
    index: nat,
    title: Seq<char>,
    artist: Seq<char>,
    album: Option<String>,
) -> Seq<Seq<char>> {
    seq![decimal(index + 1) + ". '"@ + title + "' by '"@ + artist + "'"@] + match album {
        Some(a) => seq!["   Album: "@ + a@],
        None => Seq::<Seq<char>>::empty(),
    }
}

/// The first lines of a track search result, numbered from one.
pub fn search_result_head(index: usize, title: &str, artist: &str, album: &Option<String>) -> (lines: Vec<String>)
    requires
        index < usize::MAX,
    ensures
        texts(lines@) == search_result_head_text(index as nat, title@, artist@, *album),
{
    let mut lines: Vec<String> = Vec::new();
    let mut h = String::new();
    push_decimal(&mut h, (index + 1) as u64);
    push_str(&mut h, ". '");
    push_str(&mut h, title);
    push_str(&mut h, "' by '");
    push_str(&mut h, artist);
    push_str(&mut h, "'");
    proof {
        assert(h@ =~= decimal((index + 1) as nat) + ". '"@ + title@ + "' by '"@ + artist@ + "'"@);
    }
    push_line(&mut lines, h);
    match album {
        Some(a) => {
            let mut l = string_of("   Album: ");
            push_str(&mut l, a.as_str());
            push_line(&mut lines, l);
        },
        None => {},
    }
    proof {
        assert(texts(lines@) =~= search_result_head_text(index as nat, title@, artist@, *album));
    }
    lines
}

/// The last lines of a track search result: its identifiers, then a blank line.
pub open spec fn search_result_tail_text(mbid: Seq<char>, release_id: Option<String>) -> Seq<Seq<char>> {
    seq!["   MBID: "@ + mbid] + (match release_id {
        Some(r) => seq!["   Release ID: "@ + r@],
        None => Seq::<Seq<char>>::empty(),
    }) + seq![Seq::<char>::empty()]
}

/// The last lines of a track search result.
pub fn search_result_tail(mbid: &str, release_id: &Option<String>) -> (lines: Vec<String>)
    ensures
        texts(lines@) == search_result_tail_text(mbid@, *release_id),
{
    let mut lines: Vec<String> = Vec::new();
    let mut m = string_of("   MBID: ");
    push_str(&mut m, mbid);
    push_line(&mut lines, m);
    match release_id {
        Some(r) => {
            let mut l = string_of("   Release ID: ");
            push_str(&mut l, r.as_str());
            push_line(&mut lines, l);
        },
        None => {},
    }
    push_line(&mut lines, String::new());
    proof {
        assert(texts(lines@) =~= search_result_tail_text(mbid@, *release_id));
    }
    lines
}

} // verus!
