//! The resolver: from the text of a reference to its download location.

use crate::reference::{matches_grammar, reading, ComponentReference, Fields};
use crate::target::target_url;
use vstd::prelude::*;

verus! {

/// Why a text was not resolved.
#[derive(Debug, Clone, Copy, PartialEq, Eq)]
pub enum ResolveError {
    /// The text is not of the form `<publisher>.<name>.<version>`.
    InvalidFormat,
}

/// A resolved reference, as mathematical strings.
pub struct Resolved {
    pub fields: Fields,
    pub target: Seq<char>,
}

/// A resolved reference: its fields and its download location.
#[derive(Debug)]
pub struct Resolution {
    pub reference: ComponentReference,
    pub target: String,
}

impl View for Resolution {
    type V = Resolved;

    open spec fn view(&self) -> Resolved {
        Resolved { fields: self.reference@, target: self.target@ }
    }
}

/// What a text resolves to: the texts of the grammar resolve to their reading
/// and its download location, all others to nothing.
pub open spec fn resolution_of(text: Seq<char>) -> Option<Resolved> {
    if matches_grammar(text) {
        Some(Resolved { fields: reading(text), target: target_url(reading(text)) })
    } else {
        None
    }
}

/// Resolves the text of a reference. It fails, with `InvalidFormat`, exactly
/// on the texts outside the grammar.
pub fn resolve(text: &str) -> (result: Result<Resolution, ResolveError>)
    ensures
        match result {
            Ok(resolution) => resolution_of(text@) == Some(resolution@),
            Err(error) => resolution_of(text@) is None && error == ResolveError::InvalidFormat,
        },
{
    match ComponentReference::parse(text) {
        Some(reference) => {
            let target = reference.target_url();
            Ok(Resolution { reference, target })
        },
        None => Err(ResolveError::InvalidFormat),
    }
}

} // verus!
