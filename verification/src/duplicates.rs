//! Removal of duplicate candidates.
use crate::matrix::{Matrix, MatrixView};
use vstd::prelude::*;

verus! {

/// The view of an optional borrowed matrix.
pub open spec fn reference_view(m: Option<&Matrix>) -> Option<MatrixView> {
    match m {
        Some(x) => Some(x@),
        None => None,
    }
}

/// A strategy that removes candidates which are duplicates, exact or near, of
/// one another or of the rows of a reference matrix.
///
/// An implementation promises that what it returns is fixed by the candidates
/// and the reference.
pub trait PopulationCleaner {
    /// The candidates that are left of `candidates`, given `reference`.
    spec fn cleaned(&self, candidates: MatrixView, reference: Option<MatrixView>) -> MatrixView;

    /// Removes from `candidates` the duplicates among them, where there is no
    /// reference, or those of the rows of `reference`.
    fn remove(&self, candidates: Matrix, reference: Option<&Matrix>) -> (out: Matrix)
        ensures
            out@ == self.cleaned(candidates@, reference_view(reference)),
    ;
}

/// The cleaner that removes nothing.
#[derive(Clone, Copy, Debug)]
pub struct NoDuplicatesCleaner;

impl PopulationCleaner for NoDuplicatesCleaner {
    open spec fn cleaned(&self, candidates: MatrixView, reference: Option<MatrixView>) -> MatrixView {
        candidates
    }

    fn remove(&self, candidates: Matrix, reference: Option<&Matrix>) -> (out: Matrix) {
        candidates
    }
}

} // verus!
