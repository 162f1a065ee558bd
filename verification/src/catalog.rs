//! The catalog's HTTP surface: request URLs and the search query.
//!
//! The library pins down exactly which URL each resolution step asks for;
//! the surrounding application only performs the GET and decodes the body.

use vstd::prelude::*;
use vstd::string::StringExecFns;

verus! {

/// What `urlencoding::encode` returns for a given string: a pure function
/// of the characters alone.
pub uninterp spec fn percent_encoded(s: Seq<char>) -> Seq<char>;

/// Relies on urlencoding::encode: percent-encodes every byte except ASCII
/// alphanumerics and `-`, `_`, `.`, `~`; the result depends on the input
/// characters alone.
#[verifier::external_body]
fn encode_component(s: &str) -> (r: String)
    ensures
        r@ == percent_encoded(s@),
{
    urlencoding::encode(s).into_owned()
}

/// The primary lookup URL for an ISRC.
pub open spec fn spec_track_isrc_url(isrc: Seq<char>) -> Seq<char> {
    "https://api.deezer.com/track/isrc:"@ + isrc
}

pub fn track_isrc_url(isrc: &String) -> (r: String)
    ensures
        r@ == spec_track_isrc_url(isrc@),
{
    let mut url = "https://api.deezer.com/track/isrc:".to_owned();
    url.append(isrc.as_str());
    url
}

/// The full-track fetch URL used while cross-checking a search candidate.
pub open spec fn spec_track_url(id: Seq<char>) -> Seq<char> {
    "https://api.deezer.com/track/"@ + id
}

pub fn track_url(id: &String) -> (r: String)
    ensures
        r@ == spec_track_url(id@),
{
    let mut url = "https://api.deezer.com/track/".to_owned();
    url.append(id.as_str());
    url
}

/// The album completion URL for the chosen track's album reference.
pub open spec fn spec_album_url(id: Seq<char>) -> Seq<char> {
    "https://api.deezer.com/album/"@ + id
}

pub fn album_url(id: &String) -> (r: String)
    ensures
        r@ == spec_album_url(id@),
{
    let mut url = "https://api.deezer.com/album/".to_owned();
    url.append(id.as_str());
    url
}

/// The exact-match search query before percent-encoding:
/// `artist:"<name>" track:"<title>"`.
pub open spec fn spec_search_query(artist_name: Seq<char>, title: Seq<char>) -> Seq<char> {
    "artist:\""@ + artist_name + "\" track:\""@ + title + "\""@
}

pub fn search_query(artist_name: &String, title: &String) -> (r: String)
    ensures
        r@ == spec_search_query(artist_name@, title@),
{
    let mut q = "artist:\"".to_owned();
    q.append(artist_name.as_str());
    q.append("\" track:\"");
    q.append(title.as_str());
    q.append("\"");
    proof {
        assert(q@ =~= spec_search_query(artist_name@, title@));
    }
    q
}

/// The search URL: the whole query value is percent-encoded and strict
/// (exact-match) search is requested.
pub open spec fn spec_search_url(artist_name: Seq<char>, title: Seq<char>) -> Seq<char> {
    "https://api.deezer.com/search?q="@ + percent_encoded(
        spec_search_query(artist_name, title),
    ) + "&strict=on"@
}

pub fn search_url(artist_name: &String, title: &String) -> (r: String)
    ensures
        r@ == spec_search_url(artist_name@, title@),
{
    let q = search_query(artist_name, title);
    let encoded = encode_component(q.as_str());
    let mut url = "https://api.deezer.com/search?q=".to_owned();
    url.append(encoded.as_str());
    url.append("&strict=on");
    proof {
        assert(url@ =~= spec_search_url(artist_name@, title@));
    }
    url
}

} // verus!
