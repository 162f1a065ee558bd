//! Error taxonomy and the pluggable tie-break selector.
//!
//! When the cross-check leaves two or more verified survivors the resolver
//! cannot pick one on its own: a [`Selector`] breaks the tie. One
//! implementation prompts an interactive user (it lives outside the library,
//! with the rest of the terminal handling); [`ScriptedSelector`] returns a
//! fixed index and makes the whole disambiguation algorithm testable.

use vstd::prelude::*;

verus! {

/// Everything that can go wrong during a resolution.
#[derive(PartialEq, Eq, Structural, Clone, Copy, Debug)]
pub enum ResolveError {
    /// The primary ISRC lookup yielded no track.
    NotFound,
    /// A transport-level failure on any catalog request.
    Network,
    /// A catalog response body did not match the expected shape.
    Decode,
    /// The interactive selection was aborted or its input stream closed.
    Input,
}

impl ResolveError {
    /// The operator-facing description of this error.
    pub open spec fn spec_message(&self) -> Seq<char> {
        match self {
            ResolveError::NotFound => "no track found for the given ISRC"@,
            ResolveError::Network => "a catalog request failed"@,
            ResolveError::Decode => "a catalog response had an unexpected shape"@,
            ResolveError::Input => "the interactive selection was cancelled"@,
        }
    }

    pub fn message(&self) -> (r: String)
        ensures
            r@ == self.spec_message(),
    {
        match self {
            ResolveError::NotFound => "no track found for the given ISRC".to_owned(),
            ResolveError::Network => "a catalog request failed".to_owned(),
            ResolveError::Decode => "a catalog response had an unexpected shape".to_owned(),
            ResolveError::Input => "the interactive selection was cancelled".to_owned(),
        }
    }
}

/// The injectable decision point for ties the algorithm cannot break: given
/// an ordered, non-empty list of human-readable candidate labels, an
/// implementation returns the index of the chosen one, or
/// [`ResolveError::Input`] when the selection is aborted.
pub trait Selector {
    fn pick(&mut self, prompt: &str, labels: &Vec<String>) -> (r: Result<usize, ResolveError>)
        requires
            labels@.len() >= 1,
        ensures
            r is Ok ==> r->Ok_0 < labels@.len(),
            r is Err ==> r->Err_0 == ResolveError::Input,
    ;
}

/// A non-interactive selector that always picks a fixed index; the index
/// counts as a cancelled selection when it is out of range.
pub struct ScriptedSelector {
    pub index: usize,
}

impl Selector for ScriptedSelector {
    fn pick(&mut self, prompt: &str, labels: &Vec<String>) -> (r: Result<usize, ResolveError>)
        ensures
            old(self).index < labels@.len() ==> r == Ok::<usize, ResolveError>(old(self).index),
            old(self).index >= labels@.len() ==> r == Err::<usize, ResolveError>(ResolveError::Input),
    {
        if self.index < labels.len() {
            Ok(self.index)
        } else {
            Err(ResolveError::Input)
        }
    }
}

} // verus!
