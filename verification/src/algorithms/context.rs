//! The parameters of a run that the engine and the operators read.
use vstd::prelude::*;

verus! {

/// The bounds of the variables, as the constraints function reports them.
#[derive(Debug)]
pub struct Bounds {
    /// The lower bounds, where there are any.
    pub lower: Option<Vec<u64>>,
    /// The upper bounds, where there are any.
    pub upper: Option<Vec<u64>>,
}

/// What bounds hold.
pub struct BoundsView {
    pub lower: Option<Seq<u64>>,
    pub upper: Option<Seq<u64>>,
}

/// The view of an optional vector of bounds.
pub open spec fn bound_view(b: Option<Vec<u64>>) -> Option<Seq<u64>> {
    match b {
        Some(v) => Some(v@),
        None => None,
    }
}

impl View for Bounds {
    type V = BoundsView;

    open spec fn view(&self) -> BoundsView {
        BoundsView { lower: bound_view(self.lower), upper: bound_view(self.upper) }
    }
}

/// Copies an optional vector of bounds.
pub fn copy_bound(b: &Option<Vec<u64>>) -> (r: Option<Vec<u64>>)
    ensures
        bound_view(r) == bound_view(*b),
{
    match b {
        None => None,
        Some(v) => {
            let mut out: Vec<u64> = Vec::new();
            let mut i: usize = 0;
            while i < v.len()
                invariant
                    i <= v.len(),
                    out@ == v@.take(i as int),
                decreases v.len() - i,
            {
                out.push(v[i]);
                i += 1;
            }
            assert(v@.take(i as int) =~= v@);
            Some(out)
        },
    }
}

impl Clone for Bounds {
    /// Bounds with the same entries.
    fn clone(&self) -> (r: Bounds)
        ensures
            r@ == self@,
    {
        Bounds { lower: copy_bound(&self.lower), upper: copy_bound(&self.upper) }
    }
}

/// The parameters of a run. Only `current_iteration` changes while it runs.
#[derive(Debug)]
pub struct AlgorithmContext {
    /// The number of variables of a candidate.
    pub num_vars: usize,
    /// The number of individuals of a population.
    pub population_size: usize,
    /// The number of offspring that a generation asks for.
    pub num_offsprings: usize,
    /// The number of generations of a run.
    pub num_iterations: usize,
    /// The number of generations that the run has completed.
    pub current_iteration: usize,
    /// The bounds of the variables.
    pub bounds: Bounds,
}

impl AlgorithmContext {
    /// Whether `other` has the same parameters, whatever its iteration.
    pub open spec fn same_parameters(&self, other: &AlgorithmContext) -> bool {
        &&& self.num_vars == other.num_vars
        &&& self.population_size == other.population_size
        &&& self.num_offsprings == other.num_offsprings
        &&& self.num_iterations == other.num_iterations
        &&& self.bounds@ == other.bounds@
    }

    /// Records that `current_iteration` generations are completed.
    pub fn set_current_iteration(&mut self, current_iteration: usize)
        ensures
            final(self).current_iteration == current_iteration,
            final(self).same_parameters(old(self)),
            final(self).bounds == old(self).bounds,
    {
        self.current_iteration = current_iteration;
    }
}

} // verus!
