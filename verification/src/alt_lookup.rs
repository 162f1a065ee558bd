//! Picking an ISRC out of an album on the alternate catalog.
//!
//! The alternate provider is queried per album; an album holds one or more
//! tracks and the caller wants a single ISRC. One track is used directly, an
//! empty album is an error, and several tracks go to the same tie-break
//! [`Selector`] as the main resolver, labelled per track. The album fetch
//! and decode live outside the library.

use vstd::prelude::*;
use vstd::string::StringExecFns;

use crate::select::Selector;

verus! {

/// One track of an alternate-catalog album, as far as the selection reads
/// it: its title, an optional version qualifier, its ISRC, and the name of
/// its performer.
pub struct AltTrack {
    pub title: String,
    pub version: Option<String>,
    pub isrc: String,
    pub performer: String,
}

/// What can go wrong while picking an ISRC out of an album.
#[derive(PartialEq, Eq, Structural, Clone, Copy, Debug)]
pub enum AltLookupError {
    /// The album holds no tracks at all.
    EmptyAlbum,
    /// The interactive selection was aborted or its input stream closed.
    Input,
}

/// A track's display title: the plain title, or `<title> (<version>)` when a
/// version qualifier is present.
pub open spec fn spec_alt_display_title(t: AltTrack) -> Seq<char> {
    match t.version {
        Some(v) => t.title@ + " ("@ + v@ + ")"@,
        None => t.title@,
    }
}

/// The human-readable tie-break label of one album track.
pub open spec fn spec_alt_label(t: AltTrack) -> Seq<char> {
    t.performer@ + " - "@ + spec_alt_display_title(t) + ", ISRC: "@ + t.isrc@
}

pub fn alt_track_label(t: &AltTrack) -> (r: String)
    ensures
        r@ == spec_alt_label(*t),
{
    let mut s = t.performer.clone();
    s.append(" - ");
    s.append(t.title.as_str());
    if let Some(v) = &t.version {
        s.append(" (");
        s.append(v.as_str());
        s.append(")");
    }
    s.append(", ISRC: ");
    s.append(t.isrc.as_str());
    proof {
        assert(s@ =~= spec_alt_label(*t));
    }
    s
}

/// One label per album track, in album order.
pub fn alt_track_labels(tracks: &Vec<AltTrack>) -> (r: Vec<String>)
    ensures
        r@.len() == tracks@.len(),
        forall|i: int| 0 <= i < tracks@.len() ==> r@[i]@ == spec_alt_label(tracks@[i]),
{
    let mut labels: Vec<String> = Vec::new();
    let mut i: usize = 0;
    while i < tracks.len()
        invariant
            i <= tracks@.len(),
            labels@.len() == i,
            forall|j: int| 0 <= j < i ==> labels@[j]@ == spec_alt_label(tracks@[j]),
        decreases tracks@.len() - i,
    {
        labels.push(alt_track_label(&tracks[i]));
        i = i + 1;
    }
    labels
}

/// Picks the ISRC of one track out of an album: an empty album is an error,
/// a single track is used directly, and among several the tie-break selector
/// sees one label per track in album order and its chosen index decides.
pub fn select_isrc<S: Selector>(selector: &mut S, tracks: Vec<AltTrack>) -> (r: Result<
    String,
    AltLookupError,
>)
    ensures
        tracks@.len() == 0 <==> r == Err::<String, AltLookupError>(AltLookupError::EmptyAlbum),
        tracks@.len() == 1 ==> r is Ok && r->Ok_0 == tracks@[0].isrc,
        r is Ok ==> exists|i: int| 0 <= i < tracks@.len() && r->Ok_0 == tracks@[i].isrc,
        tracks@.len() >= 2 && r is Err ==> r->Err_0 == AltLookupError::Input,
{
    let ghost orig = tracks@;
    let mut tracks = tracks;
    if tracks.len() == 0 {
        Err(AltLookupError::EmptyAlbum)
    } else if tracks.len() == 1 {
        let t = tracks.remove(0);
        proof {
            assert(t.isrc == orig[0].isrc);
        }
        Ok(t.isrc)
    } else {
        let labels = alt_track_labels(&tracks);
        let picked = selector.pick(
            "Multiple tracks in the album found. Choose which one to use",
            &labels,
        );
        match picked {
            Ok(index) => {
                let t = tracks.remove(index);
                proof {
                    assert(t.isrc == orig[index as int].isrc);
                }
                Ok(t.isrc)
            },
            Err(_) => Err(AltLookupError::Input),
        }
    }
}

} // verus!
