//! The genetic operators and the offspring pipeline that drives them.
use crate::algorithms::context::{Bounds, BoundsView};
use crate::algorithms::error::EvolveError;
use crate::duplicates::PopulationCleaner;
use crate::genetic::{Population, PopulationView};
use crate::matrix::{can_stack, Matrix, MatrixView};
use vstd::prelude::*;

verus! {

/// A strategy that makes the candidates of a first population.
///
/// An implementation promises that its arguments and the state of the random
/// generator fix what it returns and the state in which it leaves the
/// generator. The operators below promise the same of theirs.
pub trait SamplingOperator<R> {
    /// The candidates sampled, and the generator afterwards.
    spec fn sampled(&self, count: usize, num_vars: usize, bounds: BoundsView, rng: R) -> (MatrixView, R);

    /// Samples `count` candidates of `num_vars` variables inside `bounds`.
    fn operate(&self, count: usize, num_vars: usize, bounds: &Bounds, rng: &mut R) -> (out: Matrix)
        ensures
            (out@, *final(rng)) == self.sampled(count, num_vars, bounds@, *old(rng)),
    ;
}

/// A strategy that picks the parents of the next candidates.
pub trait SelectionOperator<R> {
    /// The first and the second parent of each mating, and the generator afterwards.
    spec fn selected(&self, population: PopulationView, count: usize, rng: R) -> (MatrixView, MatrixView, R);

    /// Picks parents from `population` for a mating pool of `count` candidates.
    fn operate(&self, population: &Population, count: usize, rng: &mut R) -> (out: (Matrix, Matrix))
        ensures
            (out.0@, out.1@, *final(rng)) == self.selected(population@, count, *old(rng)),
    ;
}

/// A strategy that combines parents into children.
pub trait CrossoverOperator<R> {
    /// The children, and the generator afterwards.
    spec fn crossed(
        &self,
        parents_a: MatrixView,
        parents_b: MatrixView,
        crossover_rate: u64,
        bounds: BoundsView,
        rng: R,
    ) -> (MatrixView, R);

    /// Crosses each pair of parents with probability `crossover_rate`, inside `bounds`.
    fn operate(
        &self,
        parents_a: &Matrix,
        parents_b: &Matrix,
        crossover_rate: u64,
        bounds: &Bounds,
        rng: &mut R,
    ) -> (out: Matrix)
        ensures
            (out@, *final(rng)) == self.crossed(
                parents_a@,
                parents_b@,
                crossover_rate,
                bounds@,
                *old(rng),
            ),
    ;
}

/// A strategy that perturbs candidates.
pub trait MutationOperator<R> {
    /// The candidates after mutation, and the generator afterwards.
    spec fn mutated(&self, candidates: MatrixView, mutation_rate: u64, bounds: BoundsView, rng: R) -> (MatrixView, R);

    /// Perturbs each entry of `candidates` with probability `mutation_rate`, inside `bounds`.
    fn operate(&self, candidates: Matrix, mutation_rate: u64, bounds: &Bounds, rng: &mut R) -> (out: Matrix)
        ensures
            (out@, *final(rng)) == self.mutated(candidates@, mutation_rate, bounds@, *old(rng)),
    ;
}

/// A strategy that chooses the individuals of the next population. It may
/// keep a state of its own from one call to the next.
pub trait SurvivalOperator<R>: Sized {
    /// The strategy afterwards, the survivors, and the generator afterwards.
    spec fn survived(&self, population: PopulationView, count: usize, rng: R) -> (Self, PopulationView, R);

    /// Chooses `count` survivors among `population`.
    fn operate(&mut self, population: Population, count: usize, rng: &mut R) -> (out: Population)
        ensures
            (*final(self), out@, *final(rng)) == old(self).survived(population@, count, *old(rng)),
    ;
}

/// Why the accepted candidates could not take a batch, if they could not.
pub open spec fn accepted_after(accepted: MatrixView, batch: MatrixView, target: usize) -> Result<
    MatrixView,
    EvolveError,
> {
    let room: nat = if accepted.len() < target {
        (target - accepted.len()) as nat
    } else {
        0
    };
    let part = batch.head(if batch.len() <= room { batch.len() } else { room });
    if batch.width != accepted.width {
        Err(EvolveError::ColumnMismatch)
    } else if !can_stack(accepted, part) {
        Err(EvolveError::TooLarge)
    } else {
        Ok(accepted.stack(part))
    }
}

/// What the pipeline hands out at its end: the accepted candidates, unless
/// there are none.
pub open spec fn finished(accepted: MatrixView) -> Result<MatrixView, EvolveError> {
    if accepted.len() == 0 {
        Err(EvolveError::EmptyMatingResult)
    } else {
        Ok(accepted)
    }
}

/// The view of what the pipeline hands out.
pub open spec fn offspring_view(r: Result<Matrix, EvolveError>) -> Result<MatrixView, EvolveError> {
    match r {
        Ok(m) => Ok(m@),
        Err(e) => Err(e),
    }
}

/// Adds to the accepted candidates the first rows of a batch, as many as are
/// still wanted to reach `target`. It fails where the batch has another
/// number of columns, or where the result can no longer be held.
pub fn accept(accepted: Matrix, batch: &Matrix, target: usize) -> (r: Result<Matrix, EvolveError>)
    ensures
        offspring_view(r) == accepted_after(accepted@, batch@, target),
        r matches Ok(m) ==> m@.wf(),
{
    let have: usize = accepted.nrows();
    let room: usize = if have < target {
        target - have
    } else {
        0
    };
    if batch.ncols() != accepted.ncols() {
        return Err(EvolveError::ColumnMismatch);
    }
    let part = batch.head(room);
    match accepted.stack(&part) {
        Some(m) => Ok(m),
        None => Err(EvolveError::TooLarge),
    }
}

/// Hands out the accepted candidates, unless there are none.
pub fn finish(accepted: Matrix) -> (r: Result<Matrix, EvolveError>)
    ensures
        offspring_view(r) == finished(accepted@),
{
    if accepted.nrows() == 0 {
        Err(EvolveError::EmptyMatingResult)
    } else {
        Ok(accepted)
    }
}

/// The offspring pipeline: selection, crossover, mutation and the removal of
/// duplicates, repeated until enough candidates are accepted.
pub struct Evolve<Sel, Cross, Mut, DC> {
    /// The strategy that picks the parents.
    pub selection: Sel,
    /// The strategy that combines parents into children.
    pub crossover: Cross,
    /// The strategy that perturbs the children.
    pub mutation: Mut,
    /// The strategy that removes duplicates.
    pub duplicates_cleaner: DC,
    /// The probability with which a candidate's entry is mutated.
    pub mutation_rate: u64,
    /// The probability with which a pair of parents is crossed.
    pub crossover_rate: u64,
    /// The bounds of the variables.
    pub bounds: Bounds,
}

impl<Sel, Cross, Mut, DC: PopulationCleaner> Evolve<Sel, Cross, Mut, DC> {
    /// The candidates that one attempt offers, and the generator afterwards:
    /// parents are selected for the `wanted` candidates that are missing,
    /// crossed and mutated; then the duplicates among the children, those of
    /// the population and those of the candidates accepted so far are removed.
    pub open spec fn batch<R>(
        &self,
        population: PopulationView,
        accepted: MatrixView,
        wanted: usize,
        rng: R,
    ) -> (MatrixView, R) where
        Sel: SelectionOperator<R>,
        Cross: CrossoverOperator<R>,
        Mut: MutationOperator<R>,
     {
        let parents = self.selection.selected(population, wanted, rng);
        let children = self.crossover.crossed(
            parents.0,
            parents.1,
            self.crossover_rate,
            self.bounds@,
            parents.2,
        );
        let mutants = self.mutation.mutated(children.0, self.mutation_rate, self.bounds@, children.1);
        let distinct = self.duplicates_cleaner.cleaned(mutants.0, None);
        let fresh = self.duplicates_cleaner.cleaned(distinct, Some(population.genes));
        (self.duplicates_cleaner.cleaned(fresh, Some(accepted)), mutants.1)
    }

    /// What the pipeline hands out, and the generator afterwards, when
    /// `attempts` attempts are left and `accepted` holds what is accepted so far.
    pub open spec fn evolved_from<R>(
        &self,
        population: PopulationView,
        target: usize,
        attempts: nat,
        accepted: MatrixView,
        rng: R,
    ) -> (Result<MatrixView, EvolveError>, R) where
        Sel: SelectionOperator<R>,
        Cross: CrossoverOperator<R>,
        Mut: MutationOperator<R>,

        decreases attempts,
    {
        if accepted.len() >= target || attempts == 0 {
            (finished(accepted), rng)
        } else {
            let offer = self.batch(population, accepted, (target - accepted.len()) as usize, rng);
            match accepted_after(accepted, offer.0, target) {
                Err(e) => (Err(e), offer.1),
                Ok(more) => self.evolved_from(population, target, (attempts - 1) as nat, more, offer.1),
            }
        }
    }

    /// What the pipeline hands out for `population`, and the generator
    /// afterwards: it starts with no candidate accepted.
    pub open spec fn evolved<R>(
        &self,
        population: PopulationView,
        target: usize,
        max_attempts: usize,
        rng: R,
    ) -> (Result<MatrixView, EvolveError>, R) where
        Sel: SelectionOperator<R>,
        Cross: CrossoverOperator<R>,
        Mut: MutationOperator<R>,
     {
        self.evolved_from(population, target, max_attempts as nat, population.genes.head(0), rng)
    }

    /// Makes up to `target` new candidates from `population` in at most
    /// `max_attempts` attempts. Candidates that the cleaner lets through are
    /// accepted until there are `target` of them. With none accepted at the
    /// end the result is `EmptyMatingResult`; with some but fewer than
    /// `target`, those are handed out.
    pub fn evolve<R>(
        &self,
        population: &Population,
        target: usize,
        max_attempts: usize,
        rng: &mut R,
    ) -> (r: Result<Matrix, EvolveError>) where
        Sel: SelectionOperator<R>,
        Cross: CrossoverOperator<R>,
        Mut: MutationOperator<R>,

        ensures
            (offspring_view(r), *final(rng)) == self.evolved(
                population@,
                target,
                max_attempts,
                *old(rng),
            ),
            r matches Ok(m) ==> m@.wf() && m@.width == population@.genes.width && 0 < m@.len()
                <= target,
    {
        let mut accepted: Matrix = population.genes().head(0);
        let mut attempts: usize = 0;
        while accepted.nrows() < target && attempts < max_attempts
            invariant
                attempts <= max_attempts,
                accepted@.wf(),
                accepted@.width == population@.genes.width,
                accepted@.len() <= target,
                self.evolved_from(
                    population@,
                    target,
                    (max_attempts - attempts) as nat,
                    accepted@,
                    *rng,
                ) == self.evolved(population@, target, max_attempts, *old(rng)),
            decreases max_attempts - attempts,
        {
            let wanted: usize = target - accepted.nrows();
            let parents = self.selection.operate(population, wanted, rng);
            let children = self.crossover.operate(
                &parents.0,
                &parents.1,
                self.crossover_rate,
                &self.bounds,
                rng,
            );
            let mutants = self.mutation.operate(children, self.mutation_rate, &self.bounds, rng);
            let distinct = self.duplicates_cleaner.remove(mutants, None);
            let fresh = self.duplicates_cleaner.remove(distinct, Some(population.genes()));
            let offer = self.duplicates_cleaner.remove(fresh, Some(&accepted));
            match accept(accepted, &offer, target) {
                Ok(more) => {
                    accepted = more;
                },
                Err(e) => {
                    return Err(e);
                },
            }
            attempts += 1;
        }
        finish(accepted)
    }
}

} // verus!
