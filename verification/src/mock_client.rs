use vstd::prelude::*;
use crate::rules::opt_view;
use crate::text::string_of;

verus! {

/// A track as the browser client hands it out.
#[derive(Debug, Clone, PartialEq)]
pub struct LastFmTrack {
    pub name: String,
    pub artist: String,
    pub album: Option<String>,
    pub playcount: u32,
    pub timestamp: Option<u64>,
}

/// The answer to an authentication test.
#[derive(Debug, Clone, PartialEq)]
pub struct LastFmAuthResult {
    pub success: bool,
    pub message: String,
    pub session_key: Option<String>,
}

/// The browser-side client, which only holds credentials and serves sample data.
pub struct LastFmClient {
    username: Option<String>,
    password: Option<String>,
    session_key: Option<String>,
}

/// The sample recent tracks: title, artist, album, play count, scrobble time.
pub open spec fn sample_recent(i: int) -> (Seq<char>, Seq<char>, Seq<char>, u32, u64) {
    if i == 0 {
        ("Bohemian Rhapsody (2011 Remaster)"@, "Queen"@, "A Night at the Opera (Deluxe Edition)"@, 42u32, 1640995200u64)
    } else if i == 1 {
        ("Stairway to Heaven - 2012 Remaster"@, "Led Zeppelin"@, "Led Zeppelin IV (Deluxe Edition)"@, 89u32, 1640991600u64)
    } else if i == 2 {
        ("Hotel California (2013 Remaster)"@, "Eagles"@, "Hotel California (40th Anniversary Deluxe Edition)"@, 67u32, 1640988000u64)
    } else if i == 3 {
        ("Sweet Child O' Mine (feat. Axl Rose)"@, "Guns N' Roses"@, "Appetite for Destruction"@, 156u32, 1640984400u64)
    } else {
        ("Thunderstruck - Live 1991"@, "AC/DC"@, "Live (Collector's Edition)"@, 203u32, 1640980800u64)
    }
}

/// The sample catalogue of an artist: title and album.
pub open spec fn sample_artist(i: int) -> (Seq<char>, Seq<char>) {
    if i == 0 {
        ("Track One (2009 Remaster)"@, "Album One (Deluxe Edition)"@)
    } else if i == 1 {
        ("Track Two - Remastered"@, "Album Two (Special Edition)"@)
    } else if i == 2 {
        ("Track Three (feat. Other Artist)"@, "Album Three"@)
    } else if i == 3 {
        ("Track Four - Live Version"@, "Live Album (Collector's Edition)"@)
    } else {
        ("Track Five (Radio Edit)"@, "Greatest Hits"@)
    }
}

fn sample_recent_exec(i: usize) -> (r: (&'static str, &'static str, &'static str, u32, u64))
    requires
        i < 5,
    ensures
        (r.0@, r.1@, r.2@, r.3, r.4) == sample_recent(i as int),
{
    match i {
        0 => ("Bohemian Rhapsody (2011 Remaster)", "Queen", "A Night at the Opera (Deluxe Edition)", 42, 1640995200),
        1 => ("Stairway to Heaven - 2012 Remaster", "Led Zeppelin", "Led Zeppelin IV (Deluxe Edition)", 89, 1640991600),
        2 => ("Hotel California (2013 Remaster)", "Eagles", "Hotel California (40th Anniversary Deluxe Edition)", 67, 1640988000),
        3 => ("Sweet Child O' Mine (feat. Axl Rose)", "Guns N' Roses", "Appetite for Destruction", 156, 1640984400),
        _ => ("Thunderstruck - Live 1991", "AC/DC", "Live (Collector's Edition)", 203, 1640980800),
    }
}

fn sample_artist_exec(i: usize) -> (r: (&'static str, &'static str))
    requires
        i < 5,
    ensures
        (r.0@, r.1@) == sample_artist(i as int),
{
    match i {
        0 => ("Track One (2009 Remaster)", "Album One (Deluxe Edition)"),
        1 => ("Track Two - Remastered", "Album Two (Special Edition)"),
        2 => ("Track Three (feat. Other Artist)", "Album Three"),
        3 => ("Track Four - Live Version", "Live Album (Collector's Edition)"),
        _ => ("Track Five (Radio Edit)", "Greatest Hits"),
    }
}

/// How many sample tracks a request for `count` gets: at most five.
pub open spec fn sample_count(count: u32) -> int {
    if count < 5 { count as int } else { 5 }
}

impl LastFmClient {
    /// Whether both a user name and a password were given.
    pub closed spec fn has_credentials(self) -> bool {
        self.username is Some && self.password is Some
    }

    /// A client without credentials.
    pub fn new() -> (r: LastFmClient)
        ensures
            !r.has_credentials(),
    {
        LastFmClient { username: None, password: None, session_key: None }
    }

    /// Stores the credentials.
    pub fn set_credentials(&mut self, username: String, password: String)
        ensures
            final(self).has_credentials(),
    {
        self.username = Some(username);
        self.password = Some(password);
    }

    /// A sample authentication: it succeeds exactly when credentials were given.
    pub fn test_auth(&self) -> (r: LastFmAuthResult)
        ensures
            r.success == self.has_credentials(),
            !r.success ==> r.message@ == "Username and password are required"@ && r.session_key is None,
            r.success ==> r.message@
                == "Mock authentication successful (real auth requires server-side implementation)"@
                && opt_view(r.session_key) == Some("mock_session_key"@),
    {
        if self.username.is_none() || self.password.is_none() {
            return LastFmAuthResult {
                success: false,
                message: string_of("Username and password are required"),
                session_key: None,
            };
        }
        LastFmAuthResult {
            success: true,
            message: string_of("Mock authentication successful (real auth requires server-side implementation)"),
            session_key: Some(string_of("mock_session_key")),
        }
    }

    /// The first `count` of five sample recent tracks.
    pub fn get_mock_recent_tracks(&self, count: u32) -> (r: Vec<LastFmTrack>)
        ensures
            r@.len() == sample_count(count),
            forall|i: int|
                0 <= i < r@.len() ==> {
                    let e = sample_recent(i);
                    &&& (#[trigger] r@[i]).name@ == e.0
                    &&& r@[i].artist@ == e.1
                    &&& opt_view(r@[i].album) == Some(e.2)
                    &&& r@[i].playcount == e.3
                    &&& r@[i].timestamp == Some(e.4)
                },
    {
        let n: usize = if count < 5 { count as usize } else { 5 };
        let mut v: Vec<LastFmTrack> = Vec::new();
        let mut i: usize = 0;
        while i < n
            invariant
                n <= 5,
                n == sample_count(count),
                i <= n,
                v@.len() == i,
                forall|j: int|
                    0 <= j < i ==> {
                        let e = sample_recent(j);
                        &&& (#[trigger] v@[j]).name@ == e.0
                        &&& v@[j].artist@ == e.1
                        &&& opt_view(v@[j].album) == Some(e.2)
                        &&& v@[j].playcount == e.3
                        &&& v@[j].timestamp == Some(e.4)
                    },
            decreases n - i,
        {
            let e = sample_recent_exec(i);
            v.push(
                LastFmTrack {
                    name: string_of(e.0),
                    artist: string_of(e.1),
                    album: Some(string_of(e.2)),
                    playcount: e.3,
                    timestamp: Some(e.4),
                },
            );
            i = i + 1;
        }
        v
    }

    /// The first `count` of five sample tracks of an artist, play counts rising by five from
    /// ten and scrobbled an hour apart, newest first.
    pub fn get_mock_artist_tracks(&self, artist: &str, count: u32) -> (r: Vec<LastFmTrack>)
        ensures
            r@.len() == sample_count(count),
            forall|i: int|
                0 <= i < r@.len() ==> {
                    let e = sample_artist(i);
                    &&& (#[trigger] r@[i]).name@ == e.0
                    &&& r@[i].artist@ == artist@
                    &&& opt_view(r@[i].album) == Some(e.1)
                    &&& r@[i].playcount == 10 + i * 5
                    &&& r@[i].timestamp == Some((1640995200 - i * 3600) as u64)
                },
    {
        let n: usize = if count < 5 { count as usize } else { 5 };
        let mut v: Vec<LastFmTrack> = Vec::new();
        let mut i: usize = 0;
        while i < n
            invariant
                n <= 5,
                n == sample_count(count),
                i <= n,
                v@.len() == i,
                forall|j: int|
                    0 <= j < i ==> {
                        let e = sample_artist(j);
                        &&& (#[trigger] v@[j]).name@ == e.0
                        &&& v@[j].artist@ == artist@
                        &&& opt_view(v@[j].album) == Some(e.1)
                        &&& v@[j].playcount == 10 + j * 5
                        &&& v@[j].timestamp == Some((1640995200 - j * 3600) as u64)
                    },
            decreases n - i,
        {
            let e = sample_artist_exec(i);
            v.push(
                LastFmTrack {
                    name: string_of(e.0),
                    artist: string_of(artist),
                    album: Some(string_of(e.1)),
                    playcount: 10 + (i as u32) * 5,
                    timestamp: Some(1640995200 - (i as u64) * 3600),
                },
            );
            i = i + 1;
        }
        v
    }
}

} // verus!
