//! Canonical metadata entities and the mapping from raw catalog records.
//!
//! Everything is a string here because audio metadata works on strings only:
//! numeric-looking catalog fields (durations, track counts, BPM) are opaque
//! tokens, compared for equality and displayed, never used in arithmetic.

use vstd::prelude::*;

use crate::raw::{RawAlbum, RawArtist, RawTrack};

verus! {

/// The single normalized record produced by a successful resolution.
pub struct Metadata {
    pub title: String,
    pub artists: Vec<Artist>,
    pub album: Album,
    pub bpm: Option<String>,
    pub date: String,
    pub isrc: String,
    pub track_position: String,
}

/// The resolved album a track belongs to.
pub struct Album {
    pub title: String,
    pub artists: Vec<Artist>,
    pub genres: Vec<String>,
    pub number_of_tracks: String,
    pub upc: String,
    pub cover_url: String,
    pub label: String,
}

/// One contributing artist, with the role the catalog reported for it.
pub struct Artist {
    pub name: String,
    pub role: ArtistRole,
}

/// Artist roles recognized by the downstream tag writer. Any free-text role
/// other than the two literal strings `"Main"` and `"Featured"` maps to
/// `Unknown`, never to an error.
#[derive(PartialEq, Eq, Structural, Clone, Copy, Debug)]
pub enum ArtistRole {
    Main,
    Featured,
    Unknown,
}

/// What a free-text role string maps to: only the exact strings `"Main"` and
/// `"Featured"` are recognized, case-sensitively.
pub open spec fn spec_role_of(s: Seq<char>) -> ArtistRole {
    if s == "Main"@ {
        ArtistRole::Main
    } else if s == "Featured"@ {
        ArtistRole::Featured
    } else {
        ArtistRole::Unknown
    }
}

impl From<String> for ArtistRole {
    fn from(value: String) -> (r: ArtistRole) {
        if value == "Main".to_owned() {
            ArtistRole::Main
        } else if value == "Featured".to_owned() {
            ArtistRole::Featured
        } else {
            ArtistRole::Unknown
        }
    }
}

impl vstd::std_specs::convert::FromSpecImpl<String> for ArtistRole {
    open spec fn obeys_from_spec() -> bool {
        true
    }

    open spec fn from_spec(value: String) -> ArtistRole {
        spec_role_of(value@)
    }
}

/// What a raw contributor maps to: the name is kept, an absent role becomes
/// `Unknown`, a present one goes through [`spec_role_of`].
pub open spec fn spec_artist_of(raw: RawArtist) -> Artist {
    Artist {
        name: raw.name,
        role: match raw.role {
            Some(role) => spec_role_of(role@),
            None => ArtistRole::Unknown,
        },
    }
}

impl From<RawArtist> for Artist {
    fn from(value: RawArtist) -> (r: Artist) {
        Artist {
            name: value.name,
            role: if let Some(role) = value.role {
                ArtistRole::from(role)
            } else {
                ArtistRole::Unknown
            },
        }
    }
}

impl vstd::std_specs::convert::FromSpecImpl<RawArtist> for Artist {
    open spec fn obeys_from_spec() -> bool {
        true
    }

    open spec fn from_spec(value: RawArtist) -> Artist {
        spec_artist_of(value)
    }
}

/// [`spec_artist_of`], mapped over a whole contributor list in order.
pub open spec fn spec_artists_of(raws: Seq<RawArtist>) -> Seq<Artist> {
    raws.map_values(|a: RawArtist| spec_artist_of(a))
}

/// Maps a raw contributor without consuming it.
pub fn artist_from_raw(raw: &RawArtist) -> (r: Artist)
    ensures
        r == spec_artist_of(*raw),
{
    let role = match &raw.role {
        Some(role) => ArtistRole::from(role.clone()),
        None => ArtistRole::Unknown,
    };
    Artist { name: raw.name.clone(), role }
}

/// Maps a whole contributor list, preserving provider order.
pub fn map_artists(raws: &Vec<RawArtist>) -> (r: Vec<Artist>)
    ensures
        r@ == spec_artists_of(raws@),
{
    let mut artists: Vec<Artist> = Vec::new();
    let mut i: usize = 0;
    while i < raws.len()
        invariant
            i <= raws@.len(),
            artists@.len() == i,
            forall|j: int| 0 <= j < i ==> artists@[j] == spec_artist_of(raws@[j]),
        decreases raws@.len() - i,
    {
        artists.push(artist_from_raw(&raws[i]));
        i = i + 1;
    }
    proof {
        assert(artists@ =~= spec_artists_of(raws@));
    }
    artists
}

/// What a raw BPM token maps to: the catalog reports `"0"` for "no BPM
/// known", and only that exact string becomes `None`; every other token,
/// numeric-looking or not, passes through unchanged.
pub open spec fn spec_bpm_of(bpm: String) -> Option<String> {
    if bpm@ == "0"@ {
        None
    } else {
        Some(bpm)
    }
}

pub fn map_bpm(bpm: String) -> (r: Option<String>)
    ensures
        r == spec_bpm_of(bpm),
{
    if bpm == "0".to_owned() {
        None
    } else {
        Some(bpm)
    }
}

impl Metadata {
    /// What the downstream consumer relies on: the date has at least a
    /// 4-digit year prefix to slice off.
    pub open spec fn wf(&self) -> bool {
        self.date@.len() >= 4
    }
}

/// Builds the canonical record from the resolved track, its resolved album,
/// and the query ISRC. Every field is a direct copy except the contributor
/// roles, the BPM token, and the query ISRC, which the record keeps in place
/// of the track's own.
pub fn map_metadata(track: RawTrack, album: RawAlbum, isrc: String) -> (r: Metadata)
    requires
        track.release_date@.len() >= 4,
    ensures
        r.title == track.title,
        r.artists@ == spec_artists_of(track.contributors@),
        r.album.title == track.album.title,
        r.album.artists@ == spec_artists_of(album.contributors@),
        r.album.genres == album.genres,
        r.album.number_of_tracks == album.nb_tracks,
        r.album.upc == album.upc,
        r.album.cover_url == album.cover_xl,
        r.album.label == album.label,
        r.bpm == spec_bpm_of(track.bpm),
        r.date == track.release_date,
        r.isrc == isrc,
        r.track_position == track.track_position,
        r.wf(),
{
    Metadata {
        title: track.title,
        artists: map_artists(&track.contributors),
        album: Album {
            title: track.album.title,
            artists: map_artists(&album.contributors),
            genres: album.genres,
            number_of_tracks: album.nb_tracks,
            upc: album.upc,
            cover_url: album.cover_xl,
            label: album.label,
        },
        bpm: map_bpm(track.bpm),
        date: track.release_date,
        isrc,
        track_position: track.track_position,
    }
}

} // verus!
