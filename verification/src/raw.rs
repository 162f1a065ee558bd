//! Raw, catalog-shaped records.
//!
//! These are the plain-value shapes the catalog's JSON bodies decode into.
//! The surrounding application performs the decode and normalizes every
//! number-or-string wire field to a `String` before a record enters the
//! library; inside the library the fields are opaque tokens.

use vstd::prelude::*;

verus! {

/// A contributor as the catalog reports it: a name and an optional
/// free-text role string.
pub struct RawArtist {
    pub name: String,
    pub role: Option<String>,
}

/// The lightweight album reference embedded in a track record.
pub struct RawAlbumRef {
    pub id: String,
    pub title: String,
}

/// A full track record from the catalog's track endpoints.
pub struct RawTrack {
    pub id: String,
    pub title: String,
    pub isrc: String,
    pub track_position: String,
    pub duration: String,
    pub bpm: String,
    pub release_date: String,
    pub album: RawAlbumRef,
    pub contributors: Vec<RawArtist>,
    pub artist: RawArtist,
}

/// The lightweight shape the catalog's search endpoint returns. It is never
/// trusted on its own: a surviving candidate is always re-fetched as a full
/// [`RawTrack`] before use.
pub struct RawSearchCandidate {
    pub id: String,
    pub title: String,
    pub duration: String,
}

/// A full album record from the catalog's album endpoint, with the genre
/// list already flattened to plain names.
pub struct RawAlbum {
    pub upc: String,
    pub genres: Vec<String>,
    pub label: String,
    pub nb_tracks: String,
    pub cover_xl: String,
    pub contributors: Vec<RawArtist>,
}

} // verus!
