use vstd::prelude::*;
use crate::text::{decimal, push_decimal, push_str, same_text, string_of};
use crate::track::{Track, copy_tracks};

verus! {

/// When the cache was last changed, and its format version.
#[derive(Debug, Clone, PartialEq)]
pub struct CacheMetadata {
    pub last_updated: u64,
    pub version: u32,
}

/// Track data kept on disk between runs: recent tracks by page number and tracks by artist.
/// Each list holds a key at most once.
#[derive(Debug, Clone, PartialEq)]
pub struct TrackCache {
    pub recent_tracks: Vec<(u32, Vec<Track>)>,
    pub artist_tracks: Vec<(String, Vec<Track>)>,
    pub metadata: CacheMetadata,
}

/// Cache counts.
#[derive(Debug, Clone, PartialEq)]
pub struct CacheStats {
    pub recent_pages: usize,
    pub recent_track_count: usize,
    pub artist_count: usize,
    pub artist_track_count: usize,
    pub total_tracks: usize,
    pub last_updated: u64,
}

/// Recent pages by their number, tracks by their model.
pub open spec fn page_entries(v: Seq<(u32, Vec<Track>)>) -> Seq<(u32, Seq<Track>)> {
    v.map_values(|e: (u32, Vec<Track>)| (e.0, e.1@))
}

/// Artist entries by the artist's name.
pub open spec fn artist_entries(v: Seq<(String, Vec<Track>)>) -> Seq<(Seq<char>, Seq<Track>)> {
    v.map_values(|e: (String, Vec<Track>)| (e.0@, e.1@))
}

/// No key occurs twice.
pub open spec fn keys_distinct<K>(es: Seq<(K, Seq<Track>)>) -> bool {
    forall|i: int, j: int| 0 <= i < j < es.len() ==> es[i].0 != es[j].0
}

/// The entries as a map from key to tracks.
pub open spec fn entries_map<K>(es: Seq<(K, Seq<Track>)>) -> Map<K, Seq<Track>>
    decreases es.len(),
{
    if es.len() == 0 {
        Map::empty()
    } else {
        entries_map(es.drop_last()).insert(es.last().0, es.last().1)
    }
}

/// The number of tracks over all entries.
pub open spec fn entries_total<K>(es: Seq<(K, Seq<Track>)>) -> nat
    decreases es.len(),
{
    if es.len() == 0 {
        0
    } else {
        entries_total(es.drop_last()) + es.last().1.len()
    }
}

/// The model of the cache.
pub struct CacheView {
    pub recent: Seq<(u32, Seq<Track>)>,
    pub artists: Seq<(Seq<char>, Seq<Track>)>,
    pub last_updated: u64,
    pub version: u32,
}

impl View for TrackCache {
    type V = CacheView;

    open spec fn view(&self) -> CacheView {
        CacheView {
            recent: page_entries(self.recent_tracks@),
            artists: artist_entries(self.artist_tracks@),
            last_updated: self.metadata.last_updated,
            version: self.metadata.version,
        }
    }
}

impl CacheView {
    /// Recent tracks by page.
    pub open spec fn recent_map(self) -> Map<u32, Seq<Track>> {
        entries_map(self.recent)
    }

    /// Tracks by artist.
    pub open spec fn artist_map(self) -> Map<Seq<char>, Seq<Track>> {
        entries_map(self.artists)
    }

    /// Each key occurs once.
    pub open spec fn wf(self) -> bool {
        keys_distinct(self.recent) && keys_distinct(self.artists)
    }

    /// All counts of the cache fit a `usize`.
    pub open spec fn counts_fit(self) -> bool {
        entries_total(self.recent) + entries_total(self.artists) <= usize::MAX
    }
}

/// The map of distinct entries holds exactly their keys, each with its tracks.
pub proof fn lemma_entries_map<K>(es: Seq<(K, Seq<Track>)>)
    requires
        keys_distinct(es),
    ensures
        forall|k: K| #[trigger] entries_map(es).contains_key(k) <==> exists|i: int| 0 <= i < es.len() && es[i].0 == k,
        forall|i: int| 0 <= i < es.len() ==> #[trigger] entries_map(es)[es[i].0] == es[i].1,
    decreases es.len(),
{
    if es.len() > 0 {
        let init = es.drop_last();
        assert(keys_distinct(init));
        lemma_entries_map(init);
        assert forall|k: K| #[trigger] entries_map(es).contains_key(k) <==> exists|i: int| 0 <= i < es.len() && es[i].0 == k by {
            if entries_map(es).contains_key(k) {
                if k == es.last().0 {
                    assert(es[es.len() - 1].0 == k);
                } else {
                    assert(entries_map(init).contains_key(k));
                    let i = choose|i: int| 0 <= i < init.len() && init[i].0 == k;
                    assert(es[i].0 == k);
                }
            }
            if exists|i: int| 0 <= i < es.len() && es[i].0 == k {
                let i = choose|i: int| 0 <= i < es.len() && es[i].0 == k;
                if i < es.len() - 1 {
                    assert(init[i].0 == k);
                    assert(entries_map(init).contains_key(k));
                }
            }
        }
        assert forall|i: int| 0 <= i < es.len() implies #[trigger] entries_map(es)[es[i].0] == es[i].1 by {
            if i < es.len() - 1 {
                assert(init[i] == es[i]);
                assert(es[i].0 != es.last().0);
                assert(entries_map(init)[init[i].0] == init[i].1);
            }
        }
    }
}

/// Replacing the tracks of the entry at `i` keeps the keys, sets that key in the map and changes
/// the total by the difference.
pub proof fn lemma_replace_entry<K>(es: Seq<(K, Seq<Track>)>, i: int, t: Seq<Track>)
    requires
        keys_distinct(es),
        0 <= i < es.len(),
    ensures
        keys_distinct(es.update(i, (es[i].0, t))),
        entries_map(es.update(i, (es[i].0, t))) == entries_map(es).insert(es[i].0, t),
        entries_total(es.update(i, (es[i].0, t))) + es[i].1.len() == entries_total(es) + t.len(),
    decreases es.len(),
{
    let es2 = es.update(i, (es[i].0, t));
    if i == es.len() - 1 {
        assert(es2.drop_last() =~= es.drop_last());
    } else {
        let init = es.drop_last();
        assert(keys_distinct(init));
        lemma_replace_entry(init, i, t);
        assert(es2.drop_last() =~= init.update(i, (es[i].0, t)));
        assert(init[i].0 != es.last().0);
        assert(entries_map(es2) =~= entries_map(es).insert(es[i].0, t));
    }
}

/// Removing the entry at `i` keeps the keys distinct, drops that key from the map and its tracks
/// from the total.
pub proof fn lemma_remove_entry<K>(es: Seq<(K, Seq<Track>)>, i: int)
    requires
        keys_distinct(es),
        0 <= i < es.len(),
    ensures
        keys_distinct(es.remove(i)),
        entries_map(es.remove(i)) == entries_map(es).remove(es[i].0),
        entries_total(es.remove(i)) + es[i].1.len() == entries_total(es),
    decreases es.len(),
{
    let es2 = es.remove(i);
    lemma_entries_map(es);
    if i == es.len() - 1 {
        assert(es2 =~= es.drop_last());
        let init = es.drop_last();
        assert(keys_distinct(init));
        lemma_entries_map(init);
        if entries_map(init).contains_key(es[i].0) {
            let j = choose|j: int| 0 <= j < init.len() && init[j].0 == es[i].0;
            assert(es[j].0 == es[i].0);
        }
        assert(entries_map(es2) =~= entries_map(es).remove(es[i].0));
    } else {
        let init = es.drop_last();
        assert(keys_distinct(init));
        lemma_remove_entry(init, i);
        assert(es2.drop_last() =~= init.remove(i));
        assert(es2.last() == es.last());
        assert(init[i].0 != es.last().0);
        assert(entries_map(es2) =~= entries_map(es).remove(es[i].0));
    }
}

/// Appending an entry with a new key keeps the keys distinct.
pub proof fn lemma_push_entry<K>(es: Seq<(K, Seq<Track>)>, k: K, t: Seq<Track>)
    requires
        keys_distinct(es),
        forall|i: int| 0 <= i < es.len() ==> es[i].0 != k,
    ensures
        keys_distinct(es.push((k, t))),
        entries_map(es.push((k, t))) == entries_map(es).insert(k, t),
        entries_total(es.push((k, t))) == entries_total(es) + t.len(),
{
    assert(es.push((k, t)).drop_last() =~= es);
}

/// The total number of tracks of entries with distinct keys depends on their map alone, not on
/// the order the entries are kept in.
pub proof fn lemma_total_determined_by_map<K>(a: Seq<(K, Seq<Track>)>, b: Seq<(K, Seq<Track>)>)
    requires
        keys_distinct(a),
        keys_distinct(b),
        entries_map(a) == entries_map(b),
    ensures
        entries_total(a) == entries_total(b),
    decreases a.len(),
{
    lemma_entries_map(a);
    lemma_entries_map(b);
    if a.len() == 0 {
        if b.len() > 0 {
            assert(entries_map(b).contains_key(b[0].0));
            assert(entries_map(a) =~= Map::<K, Seq<Track>>::empty());
        }
    } else {
        let last = a.len() - 1;
        let k = a[last].0;
        assert(entries_map(a).contains_key(k));
        let j = choose|j: int| 0 <= j < b.len() && b[j].0 == k;
        assert(entries_map(b)[b[j].0] == b[j].1);
        assert(entries_map(a)[a[last].0] == a[last].1);
        lemma_remove_entry(a, last);
        lemma_remove_entry(b, j);
        assert(a.remove(last) =~= a.drop_last());
        lemma_total_determined_by_map(a.drop_last(), b.remove(j));
    }
}

/// The total after a key is set to `t`: the key's former tracks, if any, are replaced by `t`.
pub proof fn lemma_total_after_insert<K>(es: Seq<(K, Seq<Track>)>, after: Seq<(K, Seq<Track>)>, k: K, t: Seq<Track>)
    requires
        keys_distinct(es),
        keys_distinct(after),
        entries_map(after) == entries_map(es).insert(k, t),
    ensures
        entries_total(after) == entries_total(es) + t.len() - (if entries_map(es).contains_key(k) {
            entries_map(es)[k].len() as int
        } else {
            0int
        }),
{
    lemma_entries_map(es);
    if entries_map(es).contains_key(k) {
        let i = choose|i: int| 0 <= i < es.len() && es[i].0 == k;
        assert(entries_map(es)[es[i].0] == es[i].1);
        lemma_replace_entry(es, i, t);
        lemma_total_determined_by_map(after, es.update(i, (es[i].0, t)));
    } else {
        assert forall|i: int| 0 <= i < es.len() implies es[i].0 != k by {
            if es[i].0 == k {
                assert(entries_map(es).contains_key(k));
            }
        }
        lemma_push_entry(es, k, t);
        lemma_total_determined_by_map(after, es.push((k, t)));
    }
}

/// The total after a key is removed: the key's tracks, if any, no longer count.
pub proof fn lemma_total_after_remove<K>(es: Seq<(K, Seq<Track>)>, after: Seq<(K, Seq<Track>)>, k: K)
    requires
        keys_distinct(es),
        keys_distinct(after),
        entries_map(after) == entries_map(es).remove(k),
    ensures
        entries_total(after) == entries_total(es) - (if entries_map(es).contains_key(k) {
            entries_map(es)[k].len() as int
        } else {
            0int
        }),
{
    lemma_entries_map(es);
    if entries_map(es).contains_key(k) {
        let i = choose|i: int| 0 <= i < es.len() && es[i].0 == k;
        assert(entries_map(es)[es[i].0] == es[i].1);
        lemma_remove_entry(es, i);
        lemma_total_determined_by_map(after, es.remove(i));
    } else {
        assert(entries_map(es).remove(k) =~= entries_map(es));
        lemma_total_determined_by_map(after, es);
    }
}

/// Reads the system clock: seconds since the Unix epoch, from `std::time::SystemTime::now`
/// (zero should the clock stand before the epoch). Claims nothing about the value.
#[verifier::external_body]
pub(crate) fn system_unix_seconds() -> (r: u64) {
    std::time::SystemTime::now().duration_since(std::time::UNIX_EPOCH).unwrap_or_default().as_secs()
}

impl Default for TrackCache {
    /// An empty cache of the current format, stamped with the system clock's seconds since the
    /// Unix epoch.
    fn default() -> (r: TrackCache)
        ensures
            r@.recent.len() == 0,
            r@.artists.len() == 0,
            r@.version == 1,
    {
        TrackCache::empty_at(system_unix_seconds())
    }
}

impl TrackCache {
    /// An empty cache of the current format, stamped with `now`.
    pub fn empty_at(now: u64) -> (r: TrackCache)
        ensures
            r@.recent.len() == 0,
            r@.artists.len() == 0,
            r@.version == 1,
            r@.last_updated == now,
    {
        TrackCache { recent_tracks: Vec::new(), artist_tracks: Vec::new(), metadata: CacheMetadata { last_updated: now, version: 1 } }
    }
}

impl TrackCache {
    /// Where a page stands in the recent entries.
    fn find_page(&self, page: u32) -> (r: Option<usize>)
        ensures
            match r {
                Some(i) => i < self.recent_tracks@.len() && self.recent_tracks@[i as int].0 == page,
                None => forall|i: int| 0 <= i < self.recent_tracks@.len() ==> self.recent_tracks@[i].0 != page,
            },
    {
        let mut i: usize = 0;
        while i < self.recent_tracks.len()
            invariant
                i <= self.recent_tracks@.len(),
                forall|j: int| 0 <= j < i ==> self.recent_tracks@[j].0 != page,
            decreases self.recent_tracks@.len() - i,
        {
            if self.recent_tracks[i].0 == page {
                return Some(i);
            }
            i = i + 1;
        }
        None
    }

    /// Where an artist stands in the artist entries.
    fn find_artist(&self, artist: &str) -> (r: Option<usize>)
        ensures
            match r {
                Some(i) => i < self.artist_tracks@.len() && self.artist_tracks@[i as int].0@ == artist@,
                None => forall|i: int| 0 <= i < self.artist_tracks@.len() ==> self.artist_tracks@[i].0@ != artist@,
            },
    {
        let mut i: usize = 0;
        while i < self.artist_tracks.len()
            invariant
                i <= self.artist_tracks@.len(),
                forall|j: int| 0 <= j < i ==> self.artist_tracks@[j].0@ != artist@,
            decreases self.artist_tracks@.len() - i,
        {
            if same_text(self.artist_tracks[i].0.as_str(), artist) {
                return Some(i);
            }
            i = i + 1;
        }
        None
    }

    /// The cached recent tracks of a page, if any.
    pub fn get_recent_tracks(&self, page: u32) -> (r: Option<&Vec<Track>>)
        requires
            self@.wf(),
        ensures
            match r {
                Some(v) => self@.recent_map().contains_key(page) && v@ == self@.recent_map()[page],
                None => !self@.recent_map().contains_key(page),
            },
    {
        proof {
            lemma_entries_map(self@.recent);
        }
        match self.find_page(page) {
            Some(i) => {
                proof {
                    assert(self@.recent[i as int].0 == page);
                }
                Some(&self.recent_tracks[i].1)
            },
            None => {
                proof {
                    assert forall|j: int| 0 <= j < self@.recent.len() implies self@.recent[j].0 != page by {
                        assert(self@.recent[j].0 == self.recent_tracks@[j].0);
                    }
                }
                None
            },
        }
    }

    /// Caches the recent tracks of a page, replacing what the page held; stamps the cache with
    /// `now`.
    pub fn cache_recent_tracks_at(&mut self, page: u32, tracks: Vec<Track>, now: u64)
        requires
            old(self)@.wf(),
        ensures
            final(self)@.wf(),
            final(self)@.recent_map() == old(self)@.recent_map().insert(page, tracks@),
            final(self)@.artists == old(self)@.artists,
            final(self)@.version == old(self)@.version,
            final(self)@.last_updated == now,
    {
        let ghost t = tracks@;
        match self.find_page(page) {
            Some(i) => {
                proof {
                    lemma_replace_entry(self@.recent, i as int, t);
                }
                self.recent_tracks.set(i, (page, tracks));
                proof {
                    assert(self@.recent =~= old(self)@.recent.update(i as int, (page, t)));
                }
            },
            None => {
                proof {
                    lemma_push_entry(self@.recent, page, t);
                }
                self.recent_tracks.push((page, tracks));
                proof {
                    assert(self@.recent =~= old(self)@.recent.push((page, t)));
                }
            },
        }
        self.stamp(now);
    }

    /// Caches the recent tracks of a page, replacing what the page held; stamps the cache with
    /// the system clock's seconds since the Unix epoch.
    pub fn cache_recent_tracks(&mut self, page: u32, tracks: Vec<Track>)
        requires
            old(self)@.wf(),
        ensures
            final(self)@.wf(),
            final(self)@.recent_map() == old(self)@.recent_map().insert(page, tracks@),
            final(self)@.artists == old(self)@.artists,
            final(self)@.version == old(self)@.version,
    {
        let now = system_unix_seconds();
        self.cache_recent_tracks_at(page, tracks, now);
    }

    /// The cached tracks of an artist, if any.
    pub fn get_artist_tracks(&self, artist: &str) -> (r: Option<&Vec<Track>>)
        requires
            self@.wf(),
        ensures
            match r {
                Some(v) => self@.artist_map().contains_key(artist@) && v@ == self@.artist_map()[artist@],
                None => !self@.artist_map().contains_key(artist@),
            },
    {
        proof {
            lemma_entries_map(self@.artists);
        }
        match self.find_artist(artist) {
            Some(i) => {
                proof {
                    assert(self@.artists[i as int].0 == artist@);
                }
                Some(&self.artist_tracks[i].1)
            },
            None => {
                proof {
                    assert forall|j: int| 0 <= j < self@.artists.len() implies self@.artists[j].0 != artist@ by {
                        assert(self@.artists[j].0 == self.artist_tracks@[j].0@);
                    }
                }
                None
            },
        }
    }

    /// Caches the tracks of an artist, replacing what the artist held; stamps the cache with
    /// `now`.
    pub fn cache_artist_tracks_at(&mut self, artist: String, tracks: Vec<Track>, now: u64)
        requires
            old(self)@.wf(),
        ensures
            final(self)@.wf(),
            final(self)@.artist_map() == old(self)@.artist_map().insert(artist@, tracks@),
            final(self)@.recent == old(self)@.recent,
            final(self)@.version == old(self)@.version,
            final(self)@.last_updated == now,
    {
        let ghost t = tracks@;
        let ghost a = artist@;
        match self.find_artist(artist.as_str()) {
            Some(i) => {
                proof {
                    lemma_replace_entry(self@.artists, i as int, t);
                }
                self.artist_tracks.set(i, (artist, tracks));
                proof {
                    assert(self@.artists =~= old(self)@.artists.update(i as int, (a, t)));
                }
            },
            None => {
                proof {
                    assert forall|j: int| 0 <= j < self@.artists.len() implies self@.artists[j].0 != a by {
                        assert(self@.artists[j].0 == self.artist_tracks@[j].0@);
                    }
                    lemma_push_entry(self@.artists, a, t);
                }
                self.artist_tracks.push((artist, tracks));
                proof {
                    assert(self@.artists =~= old(self)@.artists.push((a, t)));
                }
            },
        }
        self.stamp(now);
    }

    /// Caches the tracks of an artist, replacing what the artist held; stamps the cache with the
    /// system clock's seconds since the Unix epoch.
    pub fn cache_artist_tracks(&mut self, artist: String, tracks: Vec<Track>)
        requires
            old(self)@.wf(),
        ensures
            final(self)@.wf(),
            final(self)@.artist_map() == old(self)@.artist_map().insert(artist@, tracks@),
            final(self)@.recent == old(self)@.recent,
            final(self)@.version == old(self)@.version,
    {
        let now = system_unix_seconds();
        self.cache_artist_tracks_at(artist, tracks, now);
    }

    /// Removes everything cached; stamps the cache with `now`.
    pub fn clear_at(&mut self, now: u64)
        ensures
            final(self)@.recent.len() == 0,
            final(self)@.artists.len() == 0,
            final(self)@.version == old(self)@.version,
            final(self)@.last_updated == now,
    {
        self.recent_tracks.clear();
        self.artist_tracks.clear();
        self.stamp(now);
    }

    /// Removes everything cached; stamps the cache with the system clock's seconds since the
    /// Unix epoch.
    pub fn clear(&mut self)
        ensures
            final(self)@.recent.len() == 0,
            final(self)@.artists.len() == 0,
            final(self)@.version == old(self)@.version,
    {
        let now = system_unix_seconds();
        self.clear_at(now);
    }

    /// Removes what is cached for one artist; stamps the cache with `now`.
    pub fn clear_artist_at(&mut self, artist: &str, now: u64)
        requires
            old(self)@.wf(),
        ensures
            final(self)@.wf(),
            final(self)@.artist_map() == old(self)@.artist_map().remove(artist@),
            final(self)@.recent == old(self)@.recent,
            final(self)@.version == old(self)@.version,
            final(self)@.last_updated == now,
    {
        match self.find_artist(artist) {
            Some(i) => {
                proof {
                    lemma_remove_entry(self@.artists, i as int);
                }
                self.artist_tracks.remove(i);
                proof {
                    assert(self@.artists =~= old(self)@.artists.remove(i as int));
                }
            },
            None => {
                proof {
                    lemma_entries_map(self@.artists);
                    assert forall|j: int| 0 <= j < self@.artists.len() implies self@.artists[j].0 != artist@ by {
                        assert(self@.artists[j].0 == self.artist_tracks@[j].0@);
                    }
                    assert(self@.artist_map() =~= old(self)@.artist_map().remove(artist@));
                }
            },
        }
        self.stamp(now);
    }

    /// Removes what is cached for one artist; stamps the cache with the system clock's seconds
    /// since the Unix epoch.
    pub fn clear_artist(&mut self, artist: &str)
        requires
            old(self)@.wf(),
        ensures
            final(self)@.wf(),
            final(self)@.artist_map() == old(self)@.artist_map().remove(artist@),
            final(self)@.recent == old(self)@.recent,
            final(self)@.version == old(self)@.version,
    {
        let now = system_unix_seconds();
        self.clear_artist_at(artist, now);
    }

    /// Stamps the cache with `now`; nothing else changes.
    pub fn stamp(&mut self, now: u64)
        ensures
            final(self)@.recent == old(self)@.recent,
            final(self)@.artists == old(self)@.artists,
            final(self)@.version == old(self)@.version,
            final(self)@.last_updated == now,
    {
        self.metadata.last_updated = now;
    }

    /// Stamps the cache with the system clock's seconds since the Unix epoch (zero should the
    /// clock stand before it) and gives back the stamp; nothing else changes.
    pub fn update_timestamp(&mut self) -> (stamped: u64)
        ensures
            final(self)@.recent == old(self)@.recent,
            final(self)@.artists == old(self)@.artists,
            final(self)@.version == old(self)@.version,
            final(self)@.last_updated == stamped,
    {
        let now = system_unix_seconds();
        self.stamp(now);
        now
    }

    /// Counts of pages, artists and tracks.
    pub fn stats(&self) -> (r: CacheStats)
        requires
            self@.counts_fit(),
        ensures
            r.recent_pages == self@.recent.len(),
            r.recent_track_count == entries_total(self@.recent),
            r.artist_count == self@.artists.len(),
            r.artist_track_count == entries_total(self@.artists),
            r.total_tracks == entries_total(self@.recent) + entries_total(self@.artists),
            r.last_updated == self@.last_updated,
    {
        let mut recent: usize = 0;
        let mut i: usize = 0;
        while i < self.recent_tracks.len()
            invariant
                i <= self.recent_tracks@.len(),
                self@.counts_fit(),
                recent == entries_total(self@.recent.subrange(0, i as int)),
            decreases self.recent_tracks@.len() - i,
        {
            proof {
                let es = self@.recent;
                assert(es.subrange(0, i + 1).drop_last() =~= es.subrange(0, i as int));
                lemma_total_prefix(es, i + 1);
            }
            recent = recent + self.recent_tracks[i].1.len();
            i = i + 1;
        }
        proof {
            assert(self@.recent.subrange(0, i as int) =~= self@.recent);
        }
        let mut artist: usize = 0;
        let mut j: usize = 0;
        while j < self.artist_tracks.len()
            invariant
                j <= self.artist_tracks@.len(),
                self@.counts_fit(),
                recent == entries_total(self@.recent),
                artist == entries_total(self@.artists.subrange(0, j as int)),
            decreases self.artist_tracks@.len() - j,
        {
            proof {
                let es = self@.artists;
                assert(es.subrange(0, j + 1).drop_last() =~= es.subrange(0, j as int));
                lemma_total_prefix(es, j + 1);
            }
            artist = artist + self.artist_tracks[j].1.len();
            j = j + 1;
        }
        proof {
            assert(self@.artists.subrange(0, j as int) =~= self@.artists);
        }
        CacheStats {
            recent_pages: self.recent_tracks.len(),
            recent_track_count: recent,
            artist_count: self.artist_tracks.len(),
            artist_track_count: artist,
            total_tracks: recent + artist,
            last_updated: self.metadata.last_updated,
        }
    }
}

/// The total of a prefix never exceeds the total of the whole list.
pub proof fn lemma_total_prefix<K>(es: Seq<(K, Seq<Track>)>, n: int)
    requires
        0 <= n <= es.len(),
    ensures
        entries_total(es.subrange(0, n)) <= entries_total(es),
    decreases es.len() - n,
{
    if n < es.len() {
        lemma_total_prefix(es, n + 1);
        assert(es.subrange(0, n + 1).drop_last() =~= es.subrange(0, n));
    } else {
        assert(es.subrange(0, n) =~= es);
    }
}

/// The one-line summary of cache counts.
pub open spec fn stats_text(s: CacheStats) -> Seq<char> {
    "Cache: "@ + decimal(s.recent_pages as nat) + " recent pages ("@ + decimal(s.recent_track_count as nat)
        + " tracks), "@ + decimal(s.artist_count as nat) + " artists ("@ + decimal(
        s.artist_track_count as nat,
    ) + " tracks), total: "@ + decimal(s.total_tracks as nat) + " tracks"@
}

impl CacheStats {
    /// The one-line summary the UI shows.
    pub fn to_display_string(&self) -> (r: String)
        ensures
            r@ == stats_text(*self),
    {
        let mut s = string_of("Cache: ");
        push_decimal(&mut s, self.recent_pages as u64);
        push_str(&mut s, " recent pages (");
        push_decimal(&mut s, self.recent_track_count as u64);
        push_str(&mut s, " tracks), ");
        push_decimal(&mut s, self.artist_count as u64);
        push_str(&mut s, " artists (");
        push_decimal(&mut s, self.artist_track_count as u64);
        push_str(&mut s, " tracks), total: ");
        push_decimal(&mut s, self.total_tracks as u64);
        push_str(&mut s, " tracks");
        proof {
            assert(s@ =~= stats_text(*self));
        }
        s
    }
}

/// The recent tracks of all cached pages, page after page in the order they are kept.
pub open spec fn concat_pages(es: Seq<(u32, Seq<Track>)>) -> Seq<Track>
    decreases es.len(),
{
    if es.len() == 0 {
        Seq::empty()
    } else {
        concat_pages(es.drop_last()) + es.last().1
    }
}

impl TrackCache {
    /// The recent tracks of all cached pages, page after page in the order they are kept.
    pub fn all_recent_tracks(&self) -> (r: Vec<Track>)
        ensures
            r@ == concat_pages(self@.recent),
    {
        let mut all: Vec<Track> = Vec::new();
        let mut i: usize = 0;
        while i < self.recent_tracks.len()
            invariant
                i <= self.recent_tracks@.len(),
                all@ == concat_pages(self@.recent.subrange(0, i as int)),
            decreases self.recent_tracks@.len() - i,
        {
            let mut page = copy_tracks(&self.recent_tracks[i].1);
            all.append(&mut page);
            proof {
                let es = self@.recent;
                assert(es.subrange(0, i + 1).drop_last() =~= es.subrange(0, i as int));
                assert(es.subrange(0, i + 1).last() == es[i as int]);
            }
            i = i + 1;
        }
        proof {
            assert(self@.recent.subrange(0, i as int) =~= self@.recent);
        }
        all
    }
}

} // verus!
