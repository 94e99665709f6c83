use vstd::prelude::*;

verus! {

/// A scrobbled track as the library sees it: the plain fields of a Last.fm track.
#[derive(Debug, Clone, PartialEq)]
pub struct Track {
    pub name: String,
    pub artist: String,
    pub playcount: u32,
    pub timestamp: Option<u64>,
    pub album: Option<String>,
    pub album_artist: Option<String>,
}

/// The name the on-disk cache gives the same record.
pub type SerializableTrack = Track;

/// An exact copy of an optional string.
pub fn copy_opt_string(s: &Option<String>) -> (r: Option<String>)
    ensures
        r == *s,
{
    match s {
        Some(v) => Some(v.clone()),
        None => None,
    }
}

impl Track {
    /// An exact copy of the track.
    pub fn duplicate(&self) -> (r: Track)
        ensures
            r == *self,
    {
        Track {
            name: self.name.clone(),
            artist: self.artist.clone(),
            playcount: self.playcount,
            timestamp: self.timestamp,
            album: copy_opt_string(&self.album),
            album_artist: copy_opt_string(&self.album_artist),
        }
    }
}

/// An exact copy of a list of tracks.
pub fn copy_tracks(v: &Vec<Track>) -> (r: Vec<Track>)
    ensures
        r@ == v@,
{
    let mut r: Vec<Track> = Vec::new();
    let mut i: usize = 0;
    while i < v.len()
        invariant
            i <= v.len(),
            r@ == v@.subrange(0, i as int),
        decreases v.len() - i,
    {
        r.push(v[i].duplicate());
        i = i + 1;
    }
    r
}

} // verus!
