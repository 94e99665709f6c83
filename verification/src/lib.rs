//! A verified library for cleaning up Last.fm scrobbles: the track cache, the scrubber's events
//! and progress, rewrite rules and pending edits, the command line's configuration and output,
//! and the terminal rule workshop.

pub mod cache;
pub mod config;
pub mod events;
pub mod lastfm;
pub mod laws;
pub mod mock_client;
pub mod musicbrainz;
pub mod paging;
pub mod pattern;
pub mod pending;
pub mod progress;
pub mod rules;
pub mod scrubber;
pub mod session;
pub mod sources;
pub mod text;
pub mod timefmt;
pub mod track;
pub mod tui;
pub mod workshop;
