use isrc_resolver::catalog::album_url;
use isrc_resolver::metadata::map_metadata;
use isrc_resolver::raw::{RawAlbum, RawAlbumRef, RawArtist, RawSearchCandidate, RawTrack};
use isrc_resolver::resolver::{
    prefilter_candidates, settle_survivors, survivor_labels, verified_survivors,
};
use isrc_resolver::select::{ResolveError, ScriptedSelector, Selector};

fn track(id: &str, title: &str, duration: &str, isrc: &str, album_id: &str) -> RawTrack {
    RawTrack {
        id: id.to_string(),
        title: title.to_string(),
        isrc: isrc.to_string(),
        track_position: "1".to_string(),
        duration: duration.to_string(),
        bpm: "0".to_string(),
        release_date: "2020-01-01".to_string(),
        album: RawAlbumRef {
            id: album_id.to_string(),
            title: "Alb".to_string(),
        },
        contributors: vec![RawArtist {
            name: "Artist".to_string(),
            role: Some("Main".to_string()),
        }],
        artist: RawArtist {
            name: "Artist".to_string(),
            role: Some("Main".to_string()),
        },
    }
}

fn candidate(id: &str, title: &str, duration: &str) -> RawSearchCandidate {
    RawSearchCandidate {
        id: id.to_string(),
        title: title.to_string(),
        duration: duration.to_string(),
    }
}

/// A selector that must never be consulted: any pick signals cancellation,
/// so a successful resolution proves the tie-break was not invoked.
fn untouchable() -> ScriptedSelector {
    ScriptedSelector { index: usize::MAX }
}

#[test]
fn prefilter_keeps_exact_duration_and_title() {
    let primary = track("1", "Song", "200", "USABC1234567", "9");
    let cands = vec![
        candidate("10", "Song", "200"),
        candidate("11", "Song", "199"),
        candidate("12", "Other Song", "200"),
        candidate("13", "Song", "200"),
    ];
    let kept = prefilter_candidates(&primary, cands);
    let ids: Vec<&str> = kept.iter().map(|c| c.id.as_str()).collect();
    assert_eq!(ids, vec!["10", "13"]);
}

#[test]
fn survivors_require_exact_isrc() {
    let isrc = "USABC1234567".to_string();
    let fetched = vec![
        Some(track("10", "Song", "200", "USABC1234567", "2")),
        Some(track("11", "Song", "200", "USZZZ9999999", "3")),
    ];
    let survivors = verified_survivors(&isrc, fetched);
    assert_eq!(survivors.len(), 1);
    assert_eq!(survivors[0].id, "10");
}

#[test]
fn failed_fetch_is_dropped_not_fatal() {
    let isrc = "USABC1234567".to_string();
    let fetched = vec![
        None,
        Some(track("11", "Song", "200", "USABC1234567", "3")),
        None,
    ];
    let survivors = verified_survivors(&isrc, fetched);
    assert_eq!(survivors.len(), 1);
    assert_eq!(survivors[0].id, "11");
}

#[test]
fn all_fetches_failed_falls_back_to_primary() {
    let isrc = "USABC1234567".to_string();
    let primary = track("1", "Song", "200", "USABC1234567", "9");
    let survivors = verified_survivors(&isrc, vec![None, None]);
    assert_eq!(survivors.len(), 0);
    let mut selector = untouchable();
    let settled = settle_survivors(&mut selector, primary, survivors).unwrap();
    assert_eq!(settled.id, "1");
}

#[test]
fn zero_survivors_settle_on_primary() {
    let primary = track("1", "Song", "200", "USABC1234567", "9");
    let mut selector = untouchable();
    let settled = settle_survivors(&mut selector, primary, vec![]).unwrap();
    assert_eq!(settled.id, "1");
    assert_eq!(settled.album.id, "9");
}

#[test]
fn single_survivor_wins_over_primary() {
    let primary = track("1", "Song", "200", "USABC1234567", "9");
    let survivor = track("10", "Song", "200", "USABC1234567", "2");
    let mut selector = untouchable();
    let settled = settle_survivors(&mut selector, primary, vec![survivor]).unwrap();
    assert_eq!(settled.id, "10");
    assert_eq!(settled.album.id, "2");
}

#[test]
fn tie_break_uses_chosen_index() {
    let primary = track("1", "Song", "200", "USABC1234567", "9");
    let survivors = vec![
        track("10", "Song", "200", "USABC1234567", "2"),
        track("11", "Song", "200", "USABC1234567", "3"),
        track("12", "Song", "200", "USABC1234567", "4"),
    ];
    let mut selector = ScriptedSelector { index: 1 };
    let settled = settle_survivors(&mut selector, primary, survivors).unwrap();
    assert_eq!(settled.id, "11");
}

#[test]
fn cancelled_tie_break_is_input_error() {
    let primary = track("1", "Song", "200", "USABC1234567", "9");
    let survivors = vec![
        track("10", "Song", "200", "USABC1234567", "2"),
        track("11", "Song", "200", "USABC1234567", "3"),
    ];
    let mut selector = untouchable();
    let r = settle_survivors(&mut selector, primary, survivors);
    assert!(matches!(r, Err(ResolveError::Input)));
}

#[test]
fn labels_follow_survivor_order() {
    let survivors = vec![
        track("10", "Song", "200", "USABC1234567", "2"),
        track("11", "Song", "200", "USABC1234567", "3"),
    ];
    let labels = survivor_labels(&survivors);
    assert_eq!(
        labels,
        vec![
            "Deezer ID: 10, in album: Alb".to_string(),
            "Deezer ID: 11, in album: Alb".to_string(),
        ]
    );
}

#[test]
fn scripted_selector_returns_its_index() {
    let labels = vec!["a".to_string(), "b".to_string()];
    let mut s = ScriptedSelector { index: 1 };
    assert_eq!(s.pick("prompt", &labels), Ok(1));
    let mut out_of_range = ScriptedSelector { index: 2 };
    assert_eq!(out_of_range.pick("prompt", &labels), Err(ResolveError::Input));
}

#[test]
fn end_to_end_single_verified_survivor() {
    // Primary lookup answers the ISRC query.
    let isrc = "USABC1234567".to_string();
    let primary = track("1", "Song", "200", "USABC1234567", "1");

    // The search returns two candidates; the second one's duration differs,
    // so it is filtered out before any fetch.
    let cands = vec![candidate("10", "Song", "200"), candidate("11", "Song", "199")];
    let to_fetch = prefilter_candidates(&primary, cands);
    assert_eq!(to_fetch.len(), 1);
    assert_eq!(to_fetch[0].id, "10");

    // Fetching the surviving candidate reveals the queried ISRC.
    let full = track("10", "Song", "200", "USABC1234567", "2");
    let survivors = verified_survivors(&isrc, vec![Some(full)]);
    assert_eq!(survivors.len(), 1);

    // One survivor: no selector invocation, the fetched candidate wins.
    let mut selector = untouchable();
    let settled = settle_survivors(&mut selector, primary, survivors).unwrap();
    assert_eq!(settled.id, "10");

    // Album completion is keyed by the chosen track's album reference.
    assert_eq!(album_url(&settled.album.id), "https://api.deezer.com/album/2");

    let album = RawAlbum {
        upc: "0".to_string(),
        genres: vec![],
        label: "Label".to_string(),
        nb_tracks: "12".to_string(),
        cover_xl: "https://cdn.example/xl.jpg".to_string(),
        contributors: vec![],
    };
    let m = map_metadata(settled, album, isrc);
    assert_eq!(m.title, "Song");
    assert_eq!(m.isrc, "USABC1234567");
}

#[test]
fn error_messages_name_the_stage() {
    assert_eq!(
        ResolveError::NotFound.message(),
        "no track found for the given ISRC"
    );
    assert_eq!(ResolveError::Network.message(), "a catalog request failed");
    assert_eq!(
        ResolveError::Decode.message(),
        "a catalog response had an unexpected shape"
    );
    assert_eq!(
        ResolveError::Input.message(),
        "the interactive selection was cancelled"
    );
}
