use vstd::prelude::*;
use crate::text::same_text;
use crate::track::{Track, copy_tracks};

verus! {

/// Whether a source of tracks is used.
#[derive(Debug, Clone, PartialEq)]
pub struct TrackSourceState {
    pub enabled: bool,
}

/// What the rule preview applies.
#[derive(Debug, Clone, PartialEq)]
pub enum PreviewType {
    CurrentRule,
    AllSavedRules,
}

/// Whether the artist's tracks are used: its first source entry says so; an artist without an
/// entry is not used.
pub open spec fn source_enabled(sources: Seq<(String, TrackSourceState)>, name: Seq<char>) -> bool
    decreases sources.len(),
{
    if sources.len() == 0 {
        false
    } else if sources[0].0@ == name {
        sources[0].1.enabled
    } else {
        source_enabled(sources.drop_first(), name)
    }
}

/// The tracks of the used artists, in the order of the cached entries.
pub open spec fn gathered(entries: Seq<(String, Vec<Track>)>, sources: Seq<(String, TrackSourceState)>) -> Seq<Track>
    decreases entries.len(),
{
    if entries.len() == 0 {
        Seq::empty()
    } else {
        gathered(entries.drop_last(), sources) + if source_enabled(sources, entries.last().0@) {
            entries.last().1@
        } else {
            Seq::empty()
        }
    }
}

/// The tracks the rule preview works on.
pub open spec fn current_tracks(
    recent: Seq<Track>,
    recent_source: TrackSourceState,
    entries: Seq<(String, Vec<Track>)>,
    sources: Seq<(String, TrackSourceState)>,
) -> Seq<Track> {
    (if recent_source.enabled { recent } else { Seq::empty() }) + gathered(entries, sources)
}

/// Whether the artist's tracks are used.
fn artist_enabled(sources: &Vec<(String, TrackSourceState)>, name: &str) -> (r: bool)
    ensures
        r == source_enabled(sources@, name@),
{
    let mut i: usize = 0;
    proof {
        assert(sources@.subrange(0, sources@.len() as int) =~= sources@);
    }
    while i < sources.len()
        invariant
            i <= sources@.len(),
            source_enabled(sources@, name@) == source_enabled(sources@.subrange(i as int, sources@.len() as int), name@),
        decreases sources@.len() - i,
    {
        proof {
            let rest = sources@.subrange(i as int, sources@.len() as int);
            assert(rest.drop_first() =~= sources@.subrange(i + 1, sources@.len() as int));
            assert(rest[0] == sources@[i as int]);
        }
        if same_text(sources[i].0.as_str(), name) {
            return sources[i].1.enabled;
        }
        i = i + 1;
    }
    false
}

/// The tracks the rule preview works on: the recent ones when that source is on, then the
/// cached tracks of every artist whose source is on.
pub fn get_current_tracks(
    recent_tracks: &Vec<Track>,
    recent_source: &TrackSourceState,
    artist_tracks: &Vec<(String, Vec<Track>)>,
    artist_sources: &Vec<(String, TrackSourceState)>,
) -> (r: Vec<Track>)
    ensures
        r@ == current_tracks(recent_tracks@, *recent_source, artist_tracks@, artist_sources@),
{
    let mut all: Vec<Track> = if recent_source.enabled { copy_tracks(recent_tracks) } else { Vec::new() };
    let ghost base = all@;
    let mut i: usize = 0;
    while i < artist_tracks.len()
        invariant
            i <= artist_tracks@.len(),
            all@ == base + gathered(artist_tracks@.subrange(0, i as int), artist_sources@),
        decreases artist_tracks@.len() - i,
    {
        proof {
            assert(artist_tracks@.subrange(0, i + 1).drop_last() =~= artist_tracks@.subrange(0, i as int));
        }
        if artist_enabled(artist_sources, artist_tracks[i].0.as_str()) {
            let mut more = copy_tracks(&artist_tracks[i].1);
            all.append(&mut more);
        }
        proof {
            assert(all@ =~= base + gathered(artist_tracks@.subrange(0, i + 1), artist_sources@));
        }
        i = i + 1;
    }
    proof {
        assert(artist_tracks@.subrange(0, i as int) =~= artist_tracks@);
    }
    all
}

} // verus!
