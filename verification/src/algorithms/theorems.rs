//! What holds of every configuration and of every run.
use crate::algorithms::builder::{
    progress_line,
    AlgorithmBuilder,
    GeneticAlgorithm,
    GeneticAlgorithmParams,
    ReportView,
    RunOutcome,
    RunState,
    Setup,
    MAX_ATTEMPTS,
};
use crate::algorithms::error::{AlgorithmError, EvolveError};
use crate::duplicates::PopulationCleaner;
use crate::evaluator::{
    feasibility,
    lemma_only_feasible_stay,
    row_feasible,
    ConstraintsFn,
    Evaluator,
    FitnessFn,
};
use crate::genetic::PopulationView;
use crate::ieee::is_probability;
use crate::matrix::{axis_weight, can_stack, kept, MatrixView};
use crate::operators::{
    accepted_after,
    CrossoverOperator,
    Evolve,
    MutationOperator,
    SamplingOperator,
    SelectionOperator,
    SurvivalOperator,
};
use crate::random::RandomGenerator;
use vstd::prelude::*;

verus! {

/// A builder with a mutation rate or a crossover rate outside the closed
/// interval from 0 to 1 is refused with a validation error.
pub proof fn lemma_rates_outside_unit_interval_are_refused<S, Sel, Sur, Cross, Mut, F, G: ConstraintsFn, DC>(
    builder: AlgorithmBuilder<S, Sel, Sur, Cross, Mut, F, G, DC>,
)
    requires
        (builder.mutation_rate is Some && !is_probability(builder.mutation_rate->0)) || (
        builder.crossover_rate is Some && !is_probability(builder.crossover_rate->0)),
    ensures
        builder.refusal() is Some,
        builder.refusal()->0 is ValidationError,
{
}

/// A builder with a number of variables, a population size, a number of
/// offspring or a number of iterations of zero is refused with a validation
/// error.
pub proof fn lemma_zero_counts_are_refused<S, Sel, Sur, Cross, Mut, F, G: ConstraintsFn, DC>(
    builder: AlgorithmBuilder<S, Sel, Sur, Cross, Mut, F, G, DC>,
)
    requires
        builder.num_vars == Some(0usize) || builder.population_size == Some(0usize)
            || builder.num_offsprings == Some(0usize) || builder.num_iterations == Some(0usize),
    ensures
        builder.refusal() is Some,
        builder.refusal()->0 is ValidationError,
{
}

/// Where infeasible individuals are not kept and there is a constraints
/// function, no individual of an evaluated population breaks a constraint.
pub proof fn lemma_evaluated_population_is_feasible<F: FitnessFn, G: ConstraintsFn>(
    evaluator: Evaluator<F, G>,
    genes: MatrixView,
    i: int,
)
    requires
        !evaluator.keep_infeasible,
        evaluator.constraints is Some,
        evaluator.constraints_of(genes)->0.len() <= usize::MAX,
        evaluator.evaluated(genes) is Ok,
        0 <= i < evaluator.evaluated(genes)->Ok_0.len(),
    ensures
        evaluator.evaluated(genes)->Ok_0.constraints is Some,
        row_feasible(evaluator.evaluated(genes)->Ok_0.constraints->0.rows[i]),
{
    lemma_only_feasible_stay(
        genes,
        evaluator.fitness.fitness_of(genes),
        evaluator.constraints_of(genes)->0,
        i,
    );
}

/// A population that was evaluated has the columns of its candidates: the
/// evaluation removes rows at most.
pub proof fn lemma_evaluation_keeps_columns<F: FitnessFn, G: ConstraintsFn>(
    evaluator: Evaluator<F, G>,
    genes: MatrixView,
)
    ensures
        evaluator.evaluated(genes) matches Ok(population) ==> population.genes.width
            == genes.width && population.len() <= genes.len(),
        evaluator.keep_infeasible || evaluator.constraints is None ==> (evaluator.evaluated(
            genes,
        ) matches Ok(population) ==> population.genes == genes),
{
    if evaluator.constraints is Some {
        kept_is_short(feasibility(evaluator.constraints_of(genes)->0));
    }
}

/// A mask keeps no more places than it has.
proof fn kept_is_short(keep: Seq<bool>)
    ensures
        kept(keep).len() <= keep.len(),
    decreases keep.len(),
{
    if keep.len() > 0 {
        kept_is_short(keep.drop_last());
    }
}

/// After a generation that succeeded, and after an initialization that
/// succeeded, the population has as many columns as there are variables.
pub proof fn lemma_population_keeps_columns<S, Sel, Sur, Cross, Mut, F, G, DC, R>(
    setup: Setup<S, Sel, Cross, Mut, F, G, DC>,
    state: RunState<Sur, R>,
) where
    S: SamplingOperator<R>,
    Sel: SelectionOperator<R>,
    Sur: SurvivalOperator<R>,
    Cross: CrossoverOperator<R>,
    Mut: MutationOperator<R>,
    F: FitnessFn,
    G: ConstraintsFn,
    DC: PopulationCleaner,

    ensures
        setup.initialized(state).1 is Ok ==> setup.initialized(state).0.population is Some
            && setup.initialized(state).0.population->0.genes.width == setup.num_vars,
        setup.generation(state).1 is Ok ==> setup.generation(state).0.population is Some
            && setup.generation(state).0.population->0.genes.width == setup.num_vars,
        setup.generation(state).1 is Err ==> setup.generation(state).0.population
            == state.population,
{
}

/// Through any number of generations, a population that has as many columns
/// as there are variables stays one, however the generations end.
pub proof fn lemma_generations_keep_columns<S, Sel, Sur, Cross, Mut, F, G, DC, R>(
    setup: Setup<S, Sel, Cross, Mut, F, G, DC>,
    state: RunState<Sur, R>,
    completed: nat,
    minima: Seq<Seq<u64>>,
    left: nat,
) where
    Sel: SelectionOperator<R>,
    Sur: SurvivalOperator<R>,
    Cross: CrossoverOperator<R>,
    Mut: MutationOperator<R>,
    F: FitnessFn,
    G: ConstraintsFn,
    DC: PopulationCleaner,

    requires
        state.population is Some,
        state.population->0.genes.width == setup.num_vars,
    ensures
        setup.generations(state, completed, minima, left).0.population is Some,
        setup.generations(state, completed, minima, left).0.population->0.genes.width
            == setup.num_vars,
    decreases left,
{
    if left > 0 {
        let step = setup.generation(state);
        if step.1 is Ok {
            lemma_generations_keep_columns(
                setup,
                step.0,
                completed + 1,
                if setup.verbose {
                    minima.push(progress_line(step.0.population))
                } else {
                    minima
                },
                (left - 1) as nat,
            );
        }
    }
}

/// After a run that did not fail, the population has as many columns as
/// there are variables.
pub proof fn lemma_run_keeps_columns<S, Sel, Sur, Cross, Mut, F, G, DC, R>(
    setup: Setup<S, Sel, Cross, Mut, F, G, DC>,
    state: RunState<Sur, R>,
) where
    S: SamplingOperator<R>,
    Sel: SelectionOperator<R>,
    Sur: SurvivalOperator<R>,
    Cross: CrossoverOperator<R>,
    Mut: MutationOperator<R>,
    F: FitnessFn,
    G: ConstraintsFn,
    DC: PopulationCleaner,

    ensures
        setup.ran(state).1 is Ok ==> setup.ran(state).0.population is Some && setup.ran(
            state,
        ).0.population->0.genes.width == setup.num_vars,
{
    let first = setup.initialized(state);
    if first.1 is Ok {
        lemma_generations_keep_columns(
            setup,
            first.0,
            0,
            Seq::empty(),
            setup.num_iterations as nat,
        );
    }
}

/// Whether the survivor strategy, in whatever state it is, hands out as many
/// individuals as it is asked for.
pub open spec fn survivors_are_counted<Sur: SurvivalOperator<R>, R>(count: usize) -> bool {
    forall|survivor: Sur, population: PopulationView, rng: R|
        (#[trigger] survivor.survived(population, count, rng)).1.len() == count
}

/// With a survivor strategy that hands out as many individuals as it is asked
/// for, the population has the configured size after every generation that
/// succeeded, and after an initialization that succeeded.
pub proof fn lemma_population_keeps_size<S, Sel, Sur, Cross, Mut, F, G, DC, R>(
    setup: Setup<S, Sel, Cross, Mut, F, G, DC>,
    state: RunState<Sur, R>,
) where
    S: SamplingOperator<R>,
    Sel: SelectionOperator<R>,
    Sur: SurvivalOperator<R>,
    Cross: CrossoverOperator<R>,
    Mut: MutationOperator<R>,
    F: FitnessFn,
    G: ConstraintsFn,
    DC: PopulationCleaner,

    requires
        survivors_are_counted::<Sur, R>(setup.population_size),
    ensures
        setup.initialized(state).1 is Ok ==> setup.initialized(state).0.population->0.len()
            == setup.population_size,
        setup.generation(state).1 is Ok ==> setup.generation(state).0.population->0.len()
            == setup.population_size,
{
}

/// With such a survivor strategy, a population of the configured size stays
/// one through any number of generations, however they end.
pub proof fn lemma_generations_keep_size<S, Sel, Sur, Cross, Mut, F, G, DC, R>(
    setup: Setup<S, Sel, Cross, Mut, F, G, DC>,
    state: RunState<Sur, R>,
    completed: nat,
    minima: Seq<Seq<u64>>,
    left: nat,
) where
    Sel: SelectionOperator<R>,
    Sur: SurvivalOperator<R>,
    Cross: CrossoverOperator<R>,
    Mut: MutationOperator<R>,
    F: FitnessFn,
    G: ConstraintsFn,
    DC: PopulationCleaner,

    requires
        survivors_are_counted::<Sur, R>(setup.population_size),
        state.population is Some,
        state.population->0.len() == setup.population_size,
    ensures
        setup.generations(state, completed, minima, left).0.population is Some,
        setup.generations(state, completed, minima, left).0.population->0.len()
            == setup.population_size,
    decreases left,
{
    if left > 0 {
        let step = setup.generation(state);
        if step.1 is Ok {
            lemma_generations_keep_size(
                setup,
                step.0,
                completed + 1,
                if setup.verbose {
                    minima.push(progress_line(step.0.population))
                } else {
                    minima
                },
                (left - 1) as nat,
            );
        }
    }
}

/// With such a survivor strategy, the population has the configured size
/// after a run that did not fail.
pub proof fn lemma_run_keeps_size<S, Sel, Sur, Cross, Mut, F, G, DC, R>(
    setup: Setup<S, Sel, Cross, Mut, F, G, DC>,
    state: RunState<Sur, R>,
) where
    S: SamplingOperator<R>,
    Sel: SelectionOperator<R>,
    Sur: SurvivalOperator<R>,
    Cross: CrossoverOperator<R>,
    Mut: MutationOperator<R>,
    F: FitnessFn,
    G: ConstraintsFn,
    DC: PopulationCleaner,

    requires
        survivors_are_counted::<Sur, R>(setup.population_size),
    ensures
        setup.ran(state).1 is Ok ==> setup.ran(state).0.population is Some && setup.ran(
            state,
        ).0.population->0.len() == setup.population_size,
{
    lemma_population_keeps_size(setup, state);
    let first = setup.initialized(state);
    if first.1 is Ok {
        lemma_generations_keep_size(setup, first.0, 0, Seq::empty(), setup.num_iterations as nat);
    }
}

/// What the offspring pipeline hands out has the population's number of
/// columns, at least one row, and no more rows than were asked for.
pub proof fn lemma_offspring_fit_the_population<Sel, Cross, Mut, DC, R>(
    evolve: Evolve<Sel, Cross, Mut, DC>,
    population: PopulationView,
    target: usize,
    attempts: nat,
    accepted: MatrixView,
    rng: R,
) where
    Sel: SelectionOperator<R>,
    Cross: CrossoverOperator<R>,
    Mut: MutationOperator<R>,
    DC: PopulationCleaner,

    requires
        accepted.width == population.genes.width,
        accepted.len() <= target,
    ensures
        evolve.evolved_from(population, target, attempts, accepted, rng).0 matches Ok(offspring)
            ==> offspring.width == population.genes.width && 0 < offspring.len() <= target,
    decreases attempts,
{
    if !(accepted.len() >= target || attempts == 0) {
        let offer = evolve.batch(population, accepted, (target - accepted.len()) as usize, rng);
        match accepted_after(accepted, offer.0, target) {
            Err(_) => {},
            Ok(more) => {
                lemma_offspring_fit_the_population(
                    evolve,
                    population,
                    target,
                    (attempts - 1) as nat,
                    more,
                    offer.1,
                );
            },
        }
    }
}

/// Whether two pipelines hold the same operators and rates and equal bounds.
pub open spec fn same_pipeline<Sel, Cross, Mut, DC>(
    a: Evolve<Sel, Cross, Mut, DC>,
    b: Evolve<Sel, Cross, Mut, DC>,
) -> bool {
    &&& a.selection == b.selection
    &&& a.crossover == b.crossover
    &&& a.mutation == b.mutation
    &&& a.duplicates_cleaner == b.duplicates_cleaner
    &&& a.mutation_rate == b.mutation_rate
    &&& a.crossover_rate == b.crossover_rate
    &&& a.bounds@ == b.bounds@
}

/// Whether two setups hold the same operators, functions and numbers.
pub open spec fn same_configuration<S, Sel, Cross, Mut, F, G, DC>(
    a: Setup<S, Sel, Cross, Mut, F, G, DC>,
    b: Setup<S, Sel, Cross, Mut, F, G, DC>,
) -> bool {
    &&& a.sampler == b.sampler
    &&& same_pipeline(a.evolve, b.evolve)
    &&& a.evaluator == b.evaluator
    &&& a.num_vars == b.num_vars
    &&& a.population_size == b.population_size
    &&& a.num_offsprings == b.num_offsprings
    &&& a.num_iterations == b.num_iterations
    &&& a.verbose == b.verbose
    &&& a.bounds == b.bounds
}

/// Two pipelines with the same operators, rates and bounds hand out the same
/// offspring and leave the generator in the same state.
pub proof fn lemma_pipelines_agree<Sel, Cross, Mut, DC, R>(
    a: Evolve<Sel, Cross, Mut, DC>,
    b: Evolve<Sel, Cross, Mut, DC>,
    population: PopulationView,
    target: usize,
    attempts: nat,
    accepted: MatrixView,
    rng: R,
) where
    Sel: SelectionOperator<R>,
    Cross: CrossoverOperator<R>,
    Mut: MutationOperator<R>,
    DC: PopulationCleaner,

    requires
        same_pipeline(a, b),
    ensures
        a.evolved_from(population, target, attempts, accepted, rng) == b.evolved_from(
            population,
            target,
            attempts,
            accepted,
            rng,
        ),
    decreases attempts,
{
    if !(accepted.len() >= target || attempts == 0) {
        let offer = a.batch(population, accepted, (target - accepted.len()) as usize, rng);
        assert(offer == b.batch(population, accepted, (target - accepted.len()) as usize, rng));
        match accepted_after(accepted, offer.0, target) {
            Err(_) => {},
            Ok(more) => {
                lemma_pipelines_agree(
                    a,
                    b,
                    population,
                    target,
                    (attempts - 1) as nat,
                    more,
                    offer.1,
                );
            },
        }
    }
}

/// Two setups with the same configuration take a state through a generation
/// in the same way.
pub proof fn lemma_generations_agree_once<S, Sel, Sur, Cross, Mut, F, G, DC, R>(
    a: Setup<S, Sel, Cross, Mut, F, G, DC>,
    b: Setup<S, Sel, Cross, Mut, F, G, DC>,
    state: RunState<Sur, R>,
) where
    Sel: SelectionOperator<R>,
    Sur: SurvivalOperator<R>,
    Cross: CrossoverOperator<R>,
    Mut: MutationOperator<R>,
    F: FitnessFn,
    G: ConstraintsFn,
    DC: PopulationCleaner,

    requires
        same_configuration(a, b),
    ensures
        a.generation(state) == b.generation(state),
{
    if state.population is Some {
        let population = state.population->0;
        lemma_pipelines_agree(
            a.evolve,
            b.evolve,
            population,
            a.num_offsprings,
            MAX_ATTEMPTS as nat,
            population.genes.head(0),
            state.rng,
        );
    }
}

/// Two setups with the same configuration take a state through any number of
/// generations in the same way.
pub proof fn lemma_generations_agree<S, Sel, Sur, Cross, Mut, F, G, DC, R>(
    a: Setup<S, Sel, Cross, Mut, F, G, DC>,
    b: Setup<S, Sel, Cross, Mut, F, G, DC>,
    state: RunState<Sur, R>,
    completed: nat,
    minima: Seq<Seq<u64>>,
    left: nat,
) where
    Sel: SelectionOperator<R>,
    Sur: SurvivalOperator<R>,
    Cross: CrossoverOperator<R>,
    Mut: MutationOperator<R>,
    F: FitnessFn,
    G: ConstraintsFn,
    DC: PopulationCleaner,

    requires
        same_configuration(a, b),
    ensures
        a.generations(state, completed, minima, left) == b.generations(
            state,
            completed,
            minima,
            left,
        ),
    decreases left,
{
    if left > 0 {
        lemma_generations_agree_once(a, b, state);
        let step = a.generation(state);
        if step.1 is Ok {
            lemma_generations_agree(
                a,
                b,
                step.0,
                completed + 1,
                if a.verbose {
                    minima.push(progress_line(step.0.population))
                } else {
                    minima
                },
                (left - 1) as nat,
            );
        }
    }
}

/// Two engines that were built of the same configuration and of the same
/// seed run alike: they reach the same population after the initialization
/// and after each number of generations, and their whole runs end in the same
/// state with the same report.
pub proof fn lemma_runs_repeat<S, Sel, Sur, Cross, Mut, F, G, DC, R>(
    a: GeneticAlgorithm<S, Sel, Sur, Cross, Mut, F, G, DC, R>,
    b: GeneticAlgorithm<S, Sel, Sur, Cross, Mut, F, G, DC, R>,
    params: GeneticAlgorithmParams<S, Sel, Sur, Cross, Mut, F, G, DC>,
    seed: u64,
) where
    S: SamplingOperator<R>,
    Sel: SelectionOperator<R>,
    Sur: SurvivalOperator<R>,
    Cross: CrossoverOperator<R>,
    Mut: MutationOperator<R>,
    F: FitnessFn,
    G: ConstraintsFn,
    DC: PopulationCleaner,
    R: RandomGenerator,

    requires
        a.built_from(params),
        b.built_from(params),
        a.rng == R::seeded(seed),
        b.rng == R::seeded(seed),
    ensures
        a.state() == b.state(),
        a.setup().initialized(a.state()) == b.setup().initialized(b.state()),
        forall|k: nat|
            a.setup().generations(a.setup().initialized(a.state()).0, 0, Seq::empty(), k)
                == #[trigger] b.setup().generations(
                b.setup().initialized(b.state()).0,
                0,
                Seq::empty(),
                k,
            ),
        a.setup().ran(a.state()) == b.setup().ran(b.state()),
{
    assert(same_configuration(a.setup(), b.setup()));
    assert forall|k: nat|
        a.setup().generations(a.setup().initialized(a.state()).0, 0, Seq::empty(), k)
            == #[trigger] b.setup().generations(
            b.setup().initialized(b.state()).0,
            0,
            Seq::empty(),
            k,
        ) by {
        lemma_generations_agree(
            a.setup(),
            b.setup(),
            a.setup().initialized(a.state()).0,
            0,
            Seq::empty(),
            k,
        );
    }
}

/// Whether the cleaner lets no candidate through, whatever it is given.
pub open spec fn cleaner_rejects_all<DC: PopulationCleaner>(cleaner: DC) -> bool {
    forall|candidates: MatrixView, reference: Option<MatrixView>|
        (#[trigger] cleaner.cleaned(candidates, reference)).len() == 0
}

/// Whether every batch that the pipeline can offer for `population` has the
/// population's number of columns.
pub open spec fn batches_keep_columns<Sel, Cross, Mut, DC, R>(
    evolve: Evolve<Sel, Cross, Mut, DC>,
    population: PopulationView,
) -> bool where
    Sel: SelectionOperator<R>,
    Cross: CrossoverOperator<R>,
    Mut: MutationOperator<R>,
    DC: PopulationCleaner,
 {
    forall|accepted: MatrixView, wanted: usize, rng: R|
        (#[trigger] evolve.batch(population, accepted, wanted, rng)).0.width
            == population.genes.width
}

/// With a cleaner that lets no candidate through, the pipeline accepts none,
/// however many attempts it gets, and ends with an empty mating result.
pub proof fn lemma_pipeline_finds_nothing<Sel, Cross, Mut, DC, R>(
    evolve: Evolve<Sel, Cross, Mut, DC>,
    population: PopulationView,
    target: usize,
    attempts: nat,
    rng: R,
) where
    Sel: SelectionOperator<R>,
    Cross: CrossoverOperator<R>,
    Mut: MutationOperator<R>,
    DC: PopulationCleaner,

    requires
        population.genes.wf(),
        cleaner_rejects_all(evolve.duplicates_cleaner),
        batches_keep_columns::<Sel, Cross, Mut, DC, R>(evolve, population),
    ensures
        evolve.evolved_from(population, target, attempts, population.genes.head(0), rng).0 == Err::<
            MatrixView,
            _,
        >(EvolveError::EmptyMatingResult),
    decreases attempts,
{
    let none = population.genes.head(0);
    assert(none.rows.len() == 0);
    if !(none.len() >= target || attempts == 0) {
        let offer = evolve.batch(population, none, (target - none.len()) as usize, rng);
        assert(offer.0.len() == 0);
        assert(offer.0.width == population.genes.width);
        let part = offer.0.head(0);
        assert(axis_weight(population.genes.width) <= axis_weight(
            population.genes.len(),
        ) * axis_weight(population.genes.width)) by (nonlinear_arith)
            requires
                axis_weight(population.genes.len()) >= 1,
        ;
        assert(can_stack(none, part));
        assert(none.stack(part).rows =~= none.rows);
        assert(accepted_after(none, offer.0, target) == Ok::<MatrixView, EvolveError>(none));
        lemma_pipeline_finds_nothing(evolve, population, target, (attempts - 1) as nat, offer.1);
    }
}

/// With a cleaner that lets no candidate through, a run ends early at its
/// next generation: it has not failed, the population stays, and the report
/// counts the generations completed before.
pub proof fn lemma_run_ends_early<S, Sel, Sur, Cross, Mut, F, G, DC, R>(
    setup: Setup<S, Sel, Cross, Mut, F, G, DC>,
    state: RunState<Sur, R>,
    completed: nat,
    minima: Seq<Seq<u64>>,
    left: nat,
) where
    Sel: SelectionOperator<R>,
    Sur: SurvivalOperator<R>,
    Cross: CrossoverOperator<R>,
    Mut: MutationOperator<R>,
    F: FitnessFn,
    G: ConstraintsFn,
    DC: PopulationCleaner,

    requires
        left > 0,
        state.population is Some,
        state.population->0.genes.wf(),
        cleaner_rejects_all(setup.evolve.duplicates_cleaner),
        batches_keep_columns::<Sel, Cross, Mut, DC, R>(setup.evolve, state.population->0),
    ensures
        setup.generation(state).1 == Err::<(), _>(
            AlgorithmError::Evolve(EvolveError::EmptyMatingResult),
        ),
        setup.generations(state, completed, minima, left).1 == Ok::<ReportView, AlgorithmError>(
            ReportView { outcome: RunOutcome::EarlyStopped, generations: completed, minima },
        ),
        setup.generations(state, completed, minima, left).0.population == state.population,
{
    lemma_pipeline_finds_nothing(
        setup.evolve,
        state.population->0,
        setup.num_offsprings,
        MAX_ATTEMPTS as nat,
        state.rng,
    );
}

} // verus!
