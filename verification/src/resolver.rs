//! The candidate resolver: the three-stage filter that narrows the catalog's
//! search results down to one track.
//!
//! The catalog has no ISRC-based search, only exact-title/artist search with
//! possible false positives and possibly several genuinely different
//! recordings sharing one ISRC. The filter keeps a search candidate only if
//! its duration and title equal the primary track's, re-fetches each keeper
//! as a full record (a failed fetch drops that candidate, never the whole
//! resolution), keeps only those whose fetched ISRC equals the query ISRC,
//! and finally settles by cardinality: zero survivors fall back to the
//! primary track, one survivor wins outright, two or more go to the
//! tie-break [`Selector`].

use vstd::prelude::*;
use vstd::string::StringExecFns;

use crate::raw::{RawSearchCandidate, RawTrack};
use crate::select::{ResolveError, Selector};

verus! {

/// Whether a search candidate passes the pre-fetch filter: both its duration
/// and its title are string-equal to the primary track's.
pub open spec fn candidate_matches(primary: RawTrack, c: RawSearchCandidate) -> bool {
    c.duration@ == primary.duration@ && c.title@ == primary.title@
}

/// The candidates that pass the pre-fetch filter, in search order.
pub open spec fn spec_prefilter(primary: RawTrack, cands: Seq<RawSearchCandidate>) -> Seq<
    RawSearchCandidate,
>
    decreases cands.len(),
{
    if cands.len() == 0 {
        Seq::empty()
    } else {
        let rest = spec_prefilter(primary, cands.drop_first());
        if candidate_matches(primary, cands.first()) {
            seq![cands.first()] + rest
        } else {
            rest
        }
    }
}

/// Keeps the search candidates whose duration and title equal the primary
/// track's; only these are worth a full fetch.
pub fn prefilter_candidates(primary: &RawTrack, cands: Vec<RawSearchCandidate>) -> (r: Vec<
    RawSearchCandidate,
>)
    ensures
        r@ == spec_prefilter(*primary, cands@),
{
    let ghost all = cands@;
    let mut cands = cands;
    let mut kept: Vec<RawSearchCandidate> = Vec::new();
    while cands.len() > 0
        invariant
            kept@ + spec_prefilter(*primary, cands@) == spec_prefilter(*primary, all),
        decreases cands.len(),
    {
        let ghost pre = cands@;
        let c = cands.remove(0);
        proof {
            assert(cands@ =~= pre.drop_first());
            assert(c == pre.first());
        }
        if c.duration == primary.duration && c.title == primary.title {
            proof {
                assert((kept@ + seq![c]) + spec_prefilter(*primary, cands@) =~= kept@ + (seq![c]
                    + spec_prefilter(*primary, cands@)));
            }
            kept.push(c);
        }
    }
    proof {
        assert(kept@ + spec_prefilter(*primary, cands@) =~= kept@);
    }
    kept
}

/// The verified survivors of the cross-check: for each candidate fetch that
/// came back at all, the full record is kept exactly when its ISRC equals
/// the query ISRC; failed fetches contribute nothing.
pub open spec fn spec_survivors(isrc: Seq<char>, fetched: Seq<Option<RawTrack>>) -> Seq<RawTrack>
    decreases fetched.len(),
{
    if fetched.len() == 0 {
        Seq::empty()
    } else {
        let rest = spec_survivors(isrc, fetched.drop_first());
        match fetched.first() {
            Some(t) => if t.isrc@ == isrc {
                seq![t] + rest
            } else {
                rest
            },
            None => rest,
        }
    }
}

/// Applies the cross-check to the fetch outcomes, one per prefiltered
/// candidate in order: a `None` (failed fetch) is dropped silently, a full
/// record survives exactly when its ISRC equals the query ISRC.
pub fn verified_survivors(isrc: &String, fetched: Vec<Option<RawTrack>>) -> (r: Vec<RawTrack>)
    ensures
        r@ == spec_survivors(isrc@, fetched@),
{
    let ghost all = fetched@;
    let mut fetched = fetched;
    let mut kept: Vec<RawTrack> = Vec::new();
    while fetched.len() > 0
        invariant
            kept@ + spec_survivors(isrc@, fetched@) == spec_survivors(isrc@, all),
        decreases fetched.len(),
    {
        let ghost pre = fetched@;
        let outcome = fetched.remove(0);
        proof {
            assert(fetched@ =~= pre.drop_first());
            assert(outcome == pre.first());
        }
        if let Some(t) = outcome {
            if t.isrc == *isrc {
                proof {
                    assert((kept@ + seq![t]) + spec_survivors(isrc@, fetched@) =~= kept@ + (
                    seq![t] + spec_survivors(isrc@, fetched@)));
                }
                kept.push(t);
            }
        }
    }
    proof {
        assert(kept@ + spec_survivors(isrc@, fetched@) =~= kept@);
    }
    kept
}

/// What the cardinality rule settles on, given the tie-break choice that
/// would be made when two or more survivors remain.
pub open spec fn spec_settle(primary: RawTrack, survivors: Seq<RawTrack>, choice: int) -> RawTrack {
    if survivors.len() == 0 {
        primary
    } else if survivors.len() == 1 {
        survivors[0]
    } else {
        survivors[choice]
    }
}

/// The human-readable tie-break label of one survivor.
pub open spec fn spec_label(t: RawTrack) -> Seq<char> {
    "Deezer ID: "@ + t.id@ + ", in album: "@ + t.album.title@
}

pub fn survivor_label(t: &RawTrack) -> (r: String)
    ensures
        r@ == spec_label(*t),
{
    let mut s = "Deezer ID: ".to_owned();
    s.append(t.id.as_str());
    s.append(", in album: ");
    s.append(t.album.title.as_str());
    proof {
        assert(s@ =~= spec_label(*t));
    }
    s
}

/// One label per survivor, in survivor order.
pub fn survivor_labels(survivors: &Vec<RawTrack>) -> (r: Vec<String>)
    ensures
        r@.len() == survivors@.len(),
        forall|i: int| 0 <= i < survivors@.len() ==> r@[i]@ == spec_label(survivors@[i]),
{
    let mut labels: Vec<String> = Vec::new();
    let mut i: usize = 0;
    while i < survivors.len()
        invariant
            i <= survivors@.len(),
            labels@.len() == i,
            forall|j: int| 0 <= j < i ==> labels@[j]@ == spec_label(survivors@[j]),
        decreases survivors@.len() - i,
    {
        labels.push(survivor_label(&survivors[i]));
        i = i + 1;
    }
    labels
}

/// Settles the cardinality of the verified survivor set: zero survivors
/// fall back to the primary lookup's track, one survivor is used directly
/// (discarding the primary), and two or more go to the tie-break selector,
/// which sees one label per survivor in survivor order and whose chosen
/// index decides the outcome.
pub fn settle_survivors<S: Selector>(
    selector: &mut S,
    primary: RawTrack,
    survivors: Vec<RawTrack>,
) -> (r: Result<RawTrack, ResolveError>)
    ensures
        survivors@.len() == 0 ==> r is Ok && r->Ok_0 == primary,
        survivors@.len() == 1 ==> r is Ok && r->Ok_0 == survivors@[0],
        survivors@.len() >= 2 && r is Ok ==> exists|choice: int|
            0 <= choice < survivors@.len() && r->Ok_0 == spec_settle(primary, survivors@, choice),
        r is Err ==> survivors@.len() >= 2 && r->Err_0 == ResolveError::Input,
{
    let ghost orig = survivors@;
    let mut survivors = survivors;
    if survivors.len() == 0 {
        Ok(primary)
    } else if survivors.len() == 1 {
        let t = survivors.remove(0);
        Ok(t)
    } else {
        let labels = survivor_labels(&survivors);
        let picked = selector.pick(
            "Multiple tracks with the same ISRC found. Choose which one to use",
            &labels,
        );
        match picked {
            Ok(index) => {
                let t = survivors.remove(index);
                proof {
                    assert(t == spec_settle(primary, orig, index as int));
                }
                Ok(t)
            },
            Err(e) => Err(e),
        }
    }
}

/// When the search returns zero matches, the whole filter yields zero
/// survivors and resolution settles on exactly the primary track, so the
/// album completion is keyed by the primary track's album reference.
pub proof fn lemma_zero_matches_falls_back(primary: RawTrack, isrc: Seq<char>, choice: int)
    ensures
        spec_prefilter(primary, Seq::empty()) == Seq::<RawSearchCandidate>::empty(),
        spec_survivors(isrc, Seq::empty()) == Seq::<RawTrack>::empty(),
        spec_settle(primary, spec_survivors(isrc, Seq::empty()), choice) == primary,
        spec_settle(primary, spec_survivors(isrc, Seq::empty()), choice).album.id
            == primary.album.id,
{
}

/// When every candidate fetch that came back carries an ISRC different from
/// the query ISRC, the cross-check leaves zero survivors and resolution
/// falls back to the primary track.
pub proof fn lemma_no_true_isrc_falls_back(
    primary: RawTrack,
    isrc: Seq<char>,
    fetched: Seq<Option<RawTrack>>,
    choice: int,
)
    requires
        forall|i: int|
            0 <= i < fetched.len() ==> (#[trigger] fetched[i] matches Some(t) ==> t.isrc@
                != isrc),
    ensures
        spec_survivors(isrc, fetched) == Seq::<RawTrack>::empty(),
        spec_settle(primary, spec_survivors(isrc, fetched), choice) == primary,
    decreases fetched.len(),
{
    if fetched.len() > 0 {
        assert(fetched[0] == fetched.first());
        assert(forall|i: int|
            0 <= i < fetched.drop_first().len() ==> fetched.drop_first()[i] == fetched[i + 1]);
        lemma_no_true_isrc_falls_back(primary, isrc, fetched.drop_first(), choice);
    }
}

/// With exactly one verified survivor, resolution settles on that survivor
/// and never on the primary track, whatever the primary track holds.
pub proof fn lemma_single_survivor_wins(primary: RawTrack, survivors: Seq<RawTrack>, choice: int)
    requires
        survivors.len() == 1,
    ensures
        spec_settle(primary, survivors, choice) == survivors[0],
{
}

/// With two or more verified survivors, the tie-break sees one label per
/// survivor in survivor order, and the settled track is exactly the survivor
/// at the chosen index.
pub proof fn lemma_tie_break_picks_chosen(
    primary: RawTrack,
    survivors: Seq<RawTrack>,
    labels: Seq<Seq<char>>,
    choice: int,
)
    requires
        survivors.len() >= 2,
        0 <= choice < survivors.len(),
        labels.len() == survivors.len(),
        forall|i: int| 0 <= i < survivors.len() ==> labels[i] == spec_label(survivors[i]),
    ensures
        spec_settle(primary, survivors, choice) == survivors[choice],
        labels[choice] == spec_label(survivors[choice]),
{
}

/// A candidate whose cross-check fetch failed contributes nothing: slotting
/// a failed fetch anywhere into the fetch outcomes leaves the verified
/// survivor set unchanged, so resolution proceeds with the remaining
/// survivors or the zero-survivor fallback.
pub proof fn lemma_failed_fetch_dropped(
    isrc: Seq<char>,
    fetched: Seq<Option<RawTrack>>,
    i: int,
)
    requires
        0 <= i <= fetched.len(),
    ensures
        spec_survivors(isrc, fetched.insert(i, None)) == spec_survivors(isrc, fetched),
    decreases i,
{
    let inserted = fetched.insert(i, None);
    if i == 0 {
        assert(inserted.first() == Option::<RawTrack>::None);
        assert(inserted.drop_first() =~= fetched);
    } else {
        assert(inserted.first() == fetched.first());
        assert(inserted.drop_first() =~= fetched.drop_first().insert(i - 1, None));
        lemma_failed_fetch_dropped(isrc, fetched.drop_first(), i - 1);
    }
}

} // verus!
