//! The population: candidates with their fitness and constraint values.
use crate::matrix::{Matrix, MatrixView};
use vstd::prelude::*;

verus! {

/// A set of evaluated individuals. Row `i` of the genes, of the fitness and of
/// the constraints, where there are any, belongs to individual `i`.
pub struct Population {
    genes: Matrix,
    fitness: Matrix,
    constraints: Option<Matrix>,
}

/// What a population holds.
pub struct PopulationView {
    pub genes: MatrixView,
    pub fitness: MatrixView,
    pub constraints: Option<MatrixView>,
}

impl PopulationView {
    /// The three matrices are well formed and have one row per individual.
    pub open spec fn wf(self) -> bool {
        &&& self.genes.wf()
        &&& self.fitness.wf()
        &&& self.fitness.len() == self.genes.len()
        &&& self.constraints matches Some(c) ==> c.wf() && c.len() == self.genes.len()
    }

    /// The number of individuals.
    pub open spec fn len(self) -> nat {
        self.genes.len()
    }

    /// The individuals whose place in `keep` holds `true`, in their order.
    pub open spec fn retain(self, keep: Seq<bool>) -> PopulationView {
        PopulationView {
            genes: self.genes.retain(keep),
            fitness: self.fitness.retain(keep),
            constraints: match self.constraints {
                Some(c) => Some(c.retain(keep)),
                None => None,
            },
        }
    }

    /// The individuals at `indices`, in the order of `indices`.
    pub open spec fn select(self, indices: Seq<usize>) -> PopulationView {
        PopulationView {
            genes: self.genes.select(indices),
            fitness: self.fitness.select(indices),
            constraints: match self.constraints {
                Some(c) => Some(c.select(indices)),
                None => None,
            },
        }
    }
}

impl View for Population {
    type V = PopulationView;

    closed spec fn view(&self) -> PopulationView {
        PopulationView {
            genes: self.genes@,
            fitness: self.fitness@,
            constraints: match self.constraints {
                Some(c) => Some(c@),
                None => None,
            },
        }
    }
}

/// The view of an optional matrix.
pub open spec fn optional_view(m: Option<Matrix>) -> Option<MatrixView> {
    match m {
        Some(x) => Some(x@),
        None => None,
    }
}

impl Population {
    #[verifier::type_invariant]
    spec fn aligned(self) -> bool {
        self@.wf()
    }

    /// The population of the given genes, fitness and constraints; `None`
    /// where they do not have one row each per individual.
    pub fn new(genes: Matrix, fitness: Matrix, constraints: Option<Matrix>) -> (r: Option<Population>)
        ensures
            r is Some <==> fitness@.len() == genes@.len() && (constraints matches Some(c)
                ==> c@.len() == genes@.len()),
            r matches Some(p) ==> p@.wf() && p@ == (PopulationView {
                genes: genes@,
                fitness: fitness@,
                constraints: optional_view(constraints),
            }),
    {
        let n: usize = genes.nrows();
        let _ = genes.ncols();
        let _ = fitness.ncols();
        if fitness.nrows() != n {
            return None;
        }
        match &constraints {
            Some(c) => {
                let _ = c.ncols();
                if c.nrows() != n {
                    return None;
                }
            },
            None => {},
        }
        Some(Population { genes, fitness, constraints })
    }

    /// The number of individuals.
    pub fn len(&self) -> (n: usize)
        ensures
            n == self@.len(),
            self@.wf(),
    {
        proof {
            use_type_invariant(self);
        }
        self.genes.nrows()
    }

    /// The candidates, one row per individual.
    pub fn genes(&self) -> (m: &Matrix)
        ensures
            m@ == self@.genes,
            self@.wf(),
    {
        proof {
            use_type_invariant(self);
        }
        &self.genes
    }

    /// The fitness values, one row per individual.
    pub fn fitness(&self) -> (m: &Matrix)
        ensures
            m@ == self@.fitness,
            self@.wf(),
    {
        proof {
            use_type_invariant(self);
        }
        &self.fitness
    }

    /// The constraint values, one row per individual, where there are any.
    pub fn constraints(&self) -> (m: Option<&Matrix>)
        ensures
            m is Some <==> self@.constraints is Some,
            m matches Some(c) ==> Some(c@) == self@.constraints,
            self@.wf(),
    {
        proof {
            use_type_invariant(self);
        }
        match &self.constraints {
            Some(c) => Some(c),
            None => None,
        }
    }

    /// The individuals whose place in `keep` holds `true`, in their order.
    pub(crate) fn retain(&self, keep: &Vec<bool>) -> (r: Population)
        requires
            keep.len() == self@.len(),
        ensures
            r@ == self@.retain(keep@),
            r@.wf(),
    {
        proof {
            use_type_invariant(self);
        }
        let genes = self.genes.retain(keep);
        let fitness = self.fitness.retain(keep);
        let constraints = match &self.constraints {
            Some(c) => Some(c.retain(keep)),
            None => None,
        };
        Population { genes, fitness, constraints }
    }

    /// The individuals at `indices`, in the order of `indices`; `None` where
    /// an index lies outside the population or there are more indices than
    /// individuals.
    pub fn selected(&self, indices: &Vec<usize>) -> (r: Option<Population>)
        ensures
            r is Some <==> indices.len() <= self@.len() && forall|k: int|
                0 <= k < indices.len() ==> indices[k] < self@.len(),
            r matches Some(p) ==> p@ == self@.select(indices@) && p@.wf(),
    {
        proof {
            use_type_invariant(self);
        }
        let genes = match self.genes.select(indices) {
            Some(m) => m,
            None => {
                return None;
            },
        };
        let fitness = match self.fitness.select(indices) {
            Some(m) => m,
            None => {
                return None;
            },
        };
        let constraints = match &self.constraints {
            Some(c) => match c.select(indices) {
                Some(m) => Some(m),
                None => {
                    return None;
                },
            },
            None => None,
        };
        Some(Population { genes, fitness, constraints })
    }
}

} // verus!
