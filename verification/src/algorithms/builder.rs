//! The builder of a configuration and the engine that it builds.
//!
//! An [`AlgorithmBuilder`] collects the operators, the functions and the
//! numbers of a run; [`AlgorithmBuilder::build`] checks them and makes a
//! [`GeneticAlgorithm`]. The engine holds a [`Setup`], which never changes,
//! and a [`RunState`], which [`GeneticAlgorithm::initialize`] and
//! [`GeneticAlgorithm::next`] move on. Whether the problem has one objective
//! or several shows in the number of columns of the fitness matrix only.
use crate::algorithms::context::{AlgorithmContext, Bounds, BoundsView};
use crate::algorithms::error::{AlgorithmBuilderError, AlgorithmError, EvolveError, Field};
use crate::algorithms::validators::{
    bounds_agree,
    validate_bounds,
    validate_positive,
    validate_probability,
};
use crate::duplicates::PopulationCleaner;
use crate::evaluator::{ConstraintsFn, Evaluator, FitnessFn};
use crate::genetic::{Population, PopulationView};
use crate::ieee::is_probability;
use crate::matrix::{can_stack, Matrix, MatrixView};
use crate::operators::{
    CrossoverOperator,
    Evolve,
    MutationOperator,
    SamplingOperator,
    SelectionOperator,
    SurvivalOperator,
};
use crate::random::RandomGenerator;
use vstd::prelude::*;

verus! {

/// The bit pattern of `0.2`, the mutation rate of a builder that was given none.
pub const DEFAULT_MUTATION_RATE: u64 = 0x3FC9_9999_9999_999A;

/// The bit pattern of `0.9`, the crossover rate of a builder that was given none.
pub const DEFAULT_CROSSOVER_RATE: u64 = 0x3FEC_CCCC_CCCC_CCCD;

/// The number of attempts that the offspring pipeline gets in one generation.
pub const MAX_ATTEMPTS: usize = 200;

/// A checked configuration.
pub struct GeneticAlgorithmParams<S, Sel, Sur, Cross, Mut, F, G, DC> {
    pub sampler: S,
    pub selector: Sel,
    pub survivor: Sur,
    pub crossover: Cross,
    pub mutation: Mut,
    pub duplicates_cleaner: DC,
    pub fitness_fn: F,
    pub constraints_fn: Option<G>,
    pub num_vars: usize,
    pub population_size: usize,
    pub num_offsprings: usize,
    pub num_iterations: usize,
    pub mutation_rate: u64,
    pub crossover_rate: u64,
    pub keep_infeasible: bool,
    pub verbose: bool,
    pub seed: Option<u64>,
}

/// A configuration in the making: each field is set or not yet set.
pub struct AlgorithmBuilder<S, Sel, Sur, Cross, Mut, F, G, DC> {
    pub sampler: Option<S>,
    pub selector: Option<Sel>,
    pub survivor: Option<Sur>,
    pub crossover: Option<Cross>,
    pub mutation: Option<Mut>,
    pub duplicates_cleaner: Option<DC>,
    pub fitness_fn: Option<F>,
    pub constraints_fn: Option<G>,
    pub num_vars: Option<usize>,
    pub population_size: Option<usize>,
    pub num_offsprings: Option<usize>,
    pub num_iterations: Option<usize>,
    pub mutation_rate: Option<u64>,
    pub crossover_rate: Option<u64>,
    pub keep_infeasible: Option<bool>,
    pub verbose: Option<bool>,
    pub seed: Option<u64>,
}

/// The bounds that an optional constraints function reports.
pub open spec fn bounds_of<G: ConstraintsFn>(constraints: Option<G>) -> BoundsView {
    match constraints {
        Some(g) => g.bounds(),
        None => BoundsView { lower: None, upper: None },
    }
}

/// Whether bounds have a lower and an upper vector that do not agree.
pub open spec fn bounds_clash(bounds: BoundsView) -> bool {
    bounds.lower is Some && bounds.upper is Some && !bounds_agree(
        bounds.lower->0,
        bounds.upper->0,
    )
}

impl<S, Sel, Sur, Cross, Mut, F, G: ConstraintsFn, DC> AlgorithmBuilder<
    S,
    Sel,
    Sur,
    Cross,
    Mut,
    F,
    G,
    DC,
> {
    /// The first field, in the order of the checks, that is set to a value
    /// which is not allowed: a count that is zero, a rate outside the closed
    /// interval from 0 to 1, or bounds that do not agree.
    pub open spec fn problem(&self) -> Option<Field> {
        if self.num_vars == Some(0usize) {
            Some(Field::NumVars)
        } else if self.population_size == Some(0usize) {
            Some(Field::PopulationSize)
        } else if self.crossover_rate is Some && !is_probability(self.crossover_rate->0) {
            Some(Field::CrossoverRate)
        } else if self.mutation_rate is Some && !is_probability(self.mutation_rate->0) {
            Some(Field::MutationRate)
        } else if self.num_offsprings == Some(0usize) {
            Some(Field::NumOffsprings)
        } else if self.num_iterations == Some(0usize) {
            Some(Field::NumIterations)
        } else if bounds_clash(bounds_of(self.constraints_fn)) {
            Some(Field::Bounds)
        } else {
            None
        }
    }

    /// The first required field, in the order of their declaration, that is
    /// not set.
    pub open spec fn missing(&self) -> Option<Field> {
        if self.sampler is None {
            Some(Field::Sampler)
        } else if self.selector is None {
            Some(Field::Selector)
        } else if self.survivor is None {
            Some(Field::Survivor)
        } else if self.crossover is None {
            Some(Field::Crossover)
        } else if self.mutation is None {
            Some(Field::Mutation)
        } else if self.duplicates_cleaner is None {
            Some(Field::DuplicatesCleaner)
        } else if self.fitness_fn is None {
            Some(Field::FitnessFn)
        } else if self.num_vars is None {
            Some(Field::NumVars)
        } else if self.population_size is None {
            Some(Field::PopulationSize)
        } else if self.num_offsprings is None {
            Some(Field::NumOffsprings)
        } else if self.num_iterations is None {
            Some(Field::NumIterations)
        } else {
            None
        }
    }

    /// Why the configuration is refused, if it is: a value that is not
    /// allowed comes before a field that is not set.
    pub open spec fn refusal(&self) -> Option<AlgorithmBuilderError> {
        if self.problem() is Some {
            Some(AlgorithmBuilderError::ValidationError(self.problem()->0))
        } else if self.missing() is Some {
            Some(AlgorithmBuilderError::UninitializedField(self.missing()->0))
        } else {
            None
        }
    }

    /// The configuration that the builder stands for, where it is not refused.
    pub open spec fn params(self) -> GeneticAlgorithmParams<S, Sel, Sur, Cross, Mut, F, G, DC> {
        GeneticAlgorithmParams {
            sampler: self.sampler->0,
            selector: self.selector->0,
            survivor: self.survivor->0,
            crossover: self.crossover->0,
            mutation: self.mutation->0,
            duplicates_cleaner: self.duplicates_cleaner->0,
            fitness_fn: self.fitness_fn->0,
            constraints_fn: self.constraints_fn,
            num_vars: self.num_vars->0,
            population_size: self.population_size->0,
            num_offsprings: self.num_offsprings->0,
            num_iterations: self.num_iterations->0,
            mutation_rate: if self.mutation_rate is Some {
                self.mutation_rate->0
            } else {
                DEFAULT_MUTATION_RATE
            },
            crossover_rate: if self.crossover_rate is Some {
                self.crossover_rate->0
            } else {
                DEFAULT_CROSSOVER_RATE
            },
            keep_infeasible: if self.keep_infeasible is Some {
                self.keep_infeasible->0
            } else {
                true
            },
            verbose: if self.verbose is Some {
                self.verbose->0
            } else {
                false
            },
            seed: self.seed,
        }
    }

    /// Checks the values that are set. The counts have to be positive, the
    /// rates have to lie in the closed interval from 0 to 1, and where the
    /// constraints function reports lower and upper bounds, these have to
    /// agree. The error names the first field that fails.
    pub fn validate(&self) -> (r: Result<(), AlgorithmBuilderError>)
        ensures
            r is Ok <==> self.problem() is None,
            r matches Err(e) ==> self.problem() is Some && e
                == AlgorithmBuilderError::ValidationError(self.problem()->0),
    {
        if let Some(num_vars) = self.num_vars {
            validate_positive(num_vars, Field::NumVars)?;
        }
        if let Some(population_size) = self.population_size {
            validate_positive(population_size, Field::PopulationSize)?;
        }
        if let Some(crossover_rate) = self.crossover_rate {
            validate_probability(crossover_rate, Field::CrossoverRate)?;
        }
        if let Some(mutation_rate) = self.mutation_rate {
            validate_probability(mutation_rate, Field::MutationRate)?;
        }
        if let Some(num_offsprings) = self.num_offsprings {
            validate_positive(num_offsprings, Field::NumOffsprings)?;
        }
        if let Some(num_iterations) = self.num_iterations {
            validate_positive(num_iterations, Field::NumIterations)?;
        }
        if let Some(cf) = &self.constraints_fn {
            if let (Some(lower), Some(upper)) = (cf.lower_bound(), cf.upper_bound()) {
                validate_bounds(&lower, &upper)?;
            }
        }
        Ok(())
    }

    /// Checks the configuration and hands it out with the defaults filled in:
    /// a mutation rate of 0.2, a crossover rate of 0.9, infeasible individuals
    /// kept, no progress reported, no seed.
    pub fn build_params(self) -> (r: Result<
        GeneticAlgorithmParams<S, Sel, Sur, Cross, Mut, F, G, DC>,
        AlgorithmBuilderError,
    >)
        ensures
            r is Ok <==> self.refusal() is None,
            r matches Err(e) ==> self.refusal() == Some(e),
            r matches Ok(p) ==> p == self.params(),
    {
        self.validate()?;
        let sampler = match self.sampler {
            Some(value) => value,
            None => {
                return Err(AlgorithmBuilderError::UninitializedField(Field::Sampler));
            },
        };
        let selector = match self.selector {
            Some(value) => value,
            None => {
                return Err(AlgorithmBuilderError::UninitializedField(Field::Selector));
            },
        };
        let survivor = match self.survivor {
            Some(value) => value,
            None => {
                return Err(AlgorithmBuilderError::UninitializedField(Field::Survivor));
            },
        };
        let crossover = match self.crossover {
            Some(value) => value,
            None => {
                return Err(AlgorithmBuilderError::UninitializedField(Field::Crossover));
            },
        };
        let mutation = match self.mutation {
            Some(value) => value,
            None => {
                return Err(AlgorithmBuilderError::UninitializedField(Field::Mutation));
            },
        };
        let duplicates_cleaner = match self.duplicates_cleaner {
            Some(value) => value,
            None => {
                return Err(AlgorithmBuilderError::UninitializedField(Field::DuplicatesCleaner));
            },
        };
        let fitness_fn = match self.fitness_fn {
            Some(value) => value,
            None => {
                return Err(AlgorithmBuilderError::UninitializedField(Field::FitnessFn));
            },
        };
        let num_vars = match self.num_vars {
            Some(value) => value,
            None => {
                return Err(AlgorithmBuilderError::UninitializedField(Field::NumVars));
            },
        };
        let population_size = match self.population_size {
            Some(value) => value,
            None => {
                return Err(AlgorithmBuilderError::UninitializedField(Field::PopulationSize));
            },
        };
        let num_offsprings = match self.num_offsprings {
            Some(value) => value,
            None => {
                return Err(AlgorithmBuilderError::UninitializedField(Field::NumOffsprings));
            },
        };
        let num_iterations = match self.num_iterations {
            Some(value) => value,
            None => {
                return Err(AlgorithmBuilderError::UninitializedField(Field::NumIterations));
            },
        };
        Ok(
            GeneticAlgorithmParams {
                sampler,
                selector,
                survivor,
                crossover,
                mutation,
                duplicates_cleaner,
                fitness_fn,
                constraints_fn: self.constraints_fn,
                num_vars,
                population_size,
                num_offsprings,
                num_iterations,
                mutation_rate: match self.mutation_rate {
                    Some(value) => value,
                    None => DEFAULT_MUTATION_RATE,
                },
                crossover_rate: match self.crossover_rate {
                    Some(value) => value,
                    None => DEFAULT_CROSSOVER_RATE,
                },
                keep_infeasible: match self.keep_infeasible {
                    Some(value) => value,
                    None => true,
                },
                verbose: match self.verbose {
                    Some(value) => value,
                    None => false,
                },
                seed: self.seed,
            },
        )
    }

    /// Checks the configuration and builds the engine: either a whole engine
    /// that is ready to run, or the reason why there is none. The engine has no
    /// population yet, and its random generator is made from the seed.
    pub fn build<R>(self) -> (r: Result<
        GeneticAlgorithm<S, Sel, Sur, Cross, Mut, F, G, DC, R>,
        AlgorithmBuilderError,
    >) where
        S: SamplingOperator<R>,
        Sel: SelectionOperator<R>,
        Sur: SurvivalOperator<R>,
        Cross: CrossoverOperator<R>,
        Mut: MutationOperator<R>,
        F: FitnessFn,
        DC: PopulationCleaner,
        R: RandomGenerator,

        ensures
            r is Ok <==> self.refusal() is None,
            r matches Err(e) ==> self.refusal() == Some(e),
            r matches Ok(engine) ==> engine.built_from(self.params()),
            r matches Ok(engine) ==> (self.seed matches Some(seed) ==> engine.rng == R::seeded(seed)),
    {
        let params = self.build_params()?;
        let bounds = match &params.constraints_fn {
            Some(cf) => Bounds { lower: cf.lower_bound(), upper: cf.upper_bound() },
            None => Bounds { lower: None, upper: None },
        };
        let evaluator = Evaluator {
            fitness: params.fitness_fn,
            constraints: params.constraints_fn,
            keep_infeasible: params.keep_infeasible,
        };
        let evolve = Evolve {
            selection: params.selector,
            crossover: params.crossover,
            mutation: params.mutation,
            duplicates_cleaner: params.duplicates_cleaner,
            mutation_rate: params.mutation_rate,
            crossover_rate: params.crossover_rate,
            bounds: bounds.clone(),
        };
        let context = AlgorithmContext {
            num_vars: params.num_vars,
            population_size: params.population_size,
            num_offsprings: params.num_offsprings,
            num_iterations: params.num_iterations,
            current_iteration: 0,
            bounds,
        };
        let rng = R::new_from_seed(params.seed);
        Ok(
            GeneticAlgorithm {
                population: None,
                sampler: params.sampler,
                survivor: params.survivor,
                evolve,
                evaluator,
                context,
                verbose: params.verbose,
                rng,
            },
        )
    }
}

impl<S, Sel, Sur, Cross, Mut, F, G, DC> AlgorithmBuilder<S, Sel, Sur, Cross, Mut, F, G, DC> {
    /// A builder with no field set.
    pub fn new() -> (r: Self)
        ensures
            r.is_blank(),
    {
        AlgorithmBuilder {
            sampler: None,
            selector: None,
            survivor: None,
            crossover: None,
            mutation: None,
            duplicates_cleaner: None,
            fitness_fn: None,
            constraints_fn: None,
            num_vars: None,
            population_size: None,
            num_offsprings: None,
            num_iterations: None,
            mutation_rate: None,
            crossover_rate: None,
            keep_infeasible: None,
            verbose: None,
            seed: None,
        }
    }

    /// Whether no field is set.
    pub open spec fn is_blank(&self) -> bool {
        &&& self.sampler is None
        &&& self.selector is None
        &&& self.survivor is None
        &&& self.crossover is None
        &&& self.mutation is None
        &&& self.duplicates_cleaner is None
        &&& self.fitness_fn is None
        &&& self.constraints_fn is None
        &&& self.num_vars is None
        &&& self.population_size is None
        &&& self.num_offsprings is None
        &&& self.num_iterations is None
        &&& self.mutation_rate is None
        &&& self.crossover_rate is None
        &&& self.keep_infeasible is None
        &&& self.verbose is None
        &&& self.seed is None
    }

    /// Sets `sampler`: the strategy that makes the first candidates.
    pub fn sampler(self, value: S) -> (r: Self)
        ensures
            r == (AlgorithmBuilder { sampler: Some(value), ..self }),
    {
        AlgorithmBuilder { sampler: Some(value), ..self }
    }

    /// Sets `selector`: the strategy that picks the parents.
    pub fn selector(self, value: Sel) -> (r: Self)
        ensures
            r == (AlgorithmBuilder { selector: Some(value), ..self }),
    {
        AlgorithmBuilder { selector: Some(value), ..self }
    }

    /// Sets `survivor`: the strategy that chooses the next population.
    pub fn survivor(self, value: Sur) -> (r: Self)
        ensures
            r == (AlgorithmBuilder { survivor: Some(value), ..self }),
    {
        AlgorithmBuilder { survivor: Some(value), ..self }
    }

    /// Sets `crossover`: the strategy that combines parents into children.
    pub fn crossover(self, value: Cross) -> (r: Self)
        ensures
            r == (AlgorithmBuilder { crossover: Some(value), ..self }),
    {
        AlgorithmBuilder { crossover: Some(value), ..self }
    }

    /// Sets `mutation`: the strategy that perturbs the children.
    pub fn mutation(self, value: Mut) -> (r: Self)
        ensures
            r == (AlgorithmBuilder { mutation: Some(value), ..self }),
    {
        AlgorithmBuilder { mutation: Some(value), ..self }
    }

    /// Sets `duplicates_cleaner`: the strategy that removes duplicates.
    pub fn duplicates_cleaner(self, value: DC) -> (r: Self)
        ensures
            r == (AlgorithmBuilder { duplicates_cleaner: Some(value), ..self }),
    {
        AlgorithmBuilder { duplicates_cleaner: Some(value), ..self }
    }

    /// Sets `fitness_fn`: the fitness function.
    pub fn fitness_fn(self, value: F) -> (r: Self)
        ensures
            r == (AlgorithmBuilder { fitness_fn: Some(value), ..self }),
    {
        AlgorithmBuilder { fitness_fn: Some(value), ..self }
    }

    /// Sets `constraints_fn`: the constraints function; a problem without constraints sets none.
    pub fn constraints_fn(self, value: G) -> (r: Self)
        ensures
            r == (AlgorithmBuilder { constraints_fn: Some(value), ..self }),
    {
        AlgorithmBuilder { constraints_fn: Some(value), ..self }
    }

    /// Sets `num_vars`: the number of variables of a candidate.
    pub fn num_vars(self, value: usize) -> (r: Self)
        ensures
            r == (AlgorithmBuilder { num_vars: Some(value), ..self }),
    {
        AlgorithmBuilder { num_vars: Some(value), ..self }
    }

    /// Sets `population_size`: the number of individuals of a population.
    pub fn population_size(self, value: usize) -> (r: Self)
        ensures
            r == (AlgorithmBuilder { population_size: Some(value), ..self }),
    {
        AlgorithmBuilder { population_size: Some(value), ..self }
    }

    /// Sets `num_offsprings`: the number of offspring that a generation asks for.
    pub fn num_offsprings(self, value: usize) -> (r: Self)
        ensures
            r == (AlgorithmBuilder { num_offsprings: Some(value), ..self }),
    {
        AlgorithmBuilder { num_offsprings: Some(value), ..self }
    }

    /// Sets `num_iterations`: the number of generations of a run.
    pub fn num_iterations(self, value: usize) -> (r: Self)
        ensures
            r == (AlgorithmBuilder { num_iterations: Some(value), ..self }),
    {
        AlgorithmBuilder { num_iterations: Some(value), ..self }
    }

    /// Sets `mutation_rate`: the probability with which a candidate's entry is mutated, as the bit pattern of a double.
    pub fn mutation_rate(self, value: u64) -> (r: Self)
        ensures
            r == (AlgorithmBuilder { mutation_rate: Some(value), ..self }),
    {
        AlgorithmBuilder { mutation_rate: Some(value), ..self }
    }

    /// Sets `crossover_rate`: the probability with which a pair of parents is crossed, as the bit pattern of a double.
    pub fn crossover_rate(self, value: u64) -> (r: Self)
        ensures
            r == (AlgorithmBuilder { crossover_rate: Some(value), ..self }),
    {
        AlgorithmBuilder { crossover_rate: Some(value), ..self }
    }

    /// Sets `keep_infeasible`: whether individuals that break a constraint stay in the population.
    pub fn keep_infeasible(self, value: bool) -> (r: Self)
        ensures
            r == (AlgorithmBuilder { keep_infeasible: Some(value), ..self }),
    {
        AlgorithmBuilder { keep_infeasible: Some(value), ..self }
    }

    /// Sets `verbose`: whether a run records its progress.
    pub fn verbose(self, value: bool) -> (r: Self)
        ensures
            r == (AlgorithmBuilder { verbose: Some(value), ..self }),
    {
        AlgorithmBuilder { verbose: Some(value), ..self }
    }

    /// Sets `seed`: the seed of the random generator.
    pub fn seed(self, value: u64) -> (r: Self)
        ensures
            r == (AlgorithmBuilder { seed: Some(value), ..self }),
    {
        AlgorithmBuilder { seed: Some(value), ..self }
    }
}

impl<S, Sel, Sur, Cross, Mut, F, G, DC> Default for AlgorithmBuilder<S, Sel, Sur, Cross, Mut, F, G, DC> {
    /// A builder with no field set.
    fn default() -> (r: Self)
        ensures
            r.is_blank(),
    {
        AlgorithmBuilder::new()
    }
}

/// The engine. It holds at most one population: none before it is
/// initialized, one from then on.
pub struct GeneticAlgorithm<S, Sel, Sur, Cross, Mut, F, G, DC, R> {
    /// The current population.
    pub population: Option<Population>,
    /// The strategy that makes the first candidates.
    pub sampler: S,
    /// The strategy that chooses the next population.
    pub survivor: Sur,
    /// The offspring pipeline.
    pub evolve: Evolve<Sel, Cross, Mut, DC>,
    /// The evaluation pipeline.
    pub evaluator: Evaluator<F, G>,
    /// The parameters of the run.
    pub context: AlgorithmContext,
    /// Whether a run records its progress.
    pub verbose: bool,
    /// The random generator, which the engine alone holds.
    pub rng: R,
}

/// The part of an engine that a run does not change.
pub struct Setup<S, Sel, Cross, Mut, F, G, DC> {
    pub sampler: S,
    pub evolve: Evolve<Sel, Cross, Mut, DC>,
    pub evaluator: Evaluator<F, G>,
    pub num_vars: usize,
    pub population_size: usize,
    pub num_offsprings: usize,
    pub num_iterations: usize,
    pub verbose: bool,
    pub bounds: BoundsView,
}

/// The part of an engine that a run moves on.
pub struct RunState<Sur, R> {
    /// The current population.
    pub population: Option<PopulationView>,
    /// The survivor strategy, with what it remembers.
    pub survivor: Sur,
    /// The random generator.
    pub rng: R,
}

/// How a run ended, where it did not fail.
#[derive(Clone, Copy, Debug, PartialEq, Eq, Structural)]
pub enum RunOutcome {
    /// All generations were completed.
    Completed,
    /// A generation found no offspring, and the run ended there.
    EarlyStopped,
}

/// What a run reports.
#[derive(Debug)]
pub struct RunReport {
    /// How the run ended.
    pub outcome: RunOutcome,
    /// The number of generations that were completed.
    pub generations: usize,
    /// Where progress is recorded: for each completed generation, the least
    /// value of each objective in its population.
    pub minima: Vec<Vec<u64>>,
}

/// What a report holds.
pub struct ReportView {
    pub outcome: RunOutcome,
    pub generations: nat,
    pub minima: Seq<Seq<u64>>,
}

/// The views of a vector of vectors.
pub open spec fn lines_view(lines: Seq<Vec<u64>>) -> Seq<Seq<u64>> {
    Seq::new(lines.len(), |i: int| lines[i]@)
}

impl View for RunReport {
    type V = ReportView;

    open spec fn view(&self) -> ReportView {
        ReportView {
            outcome: self.outcome,
            generations: self.generations as nat,
            minima: lines_view(self.minima@),
        }
    }
}

/// The view of the outcome of a run.
pub open spec fn run_view(r: Result<RunReport, AlgorithmError>) -> Result<ReportView, AlgorithmError> {
    match r {
        Ok(report) => Ok(report@),
        Err(e) => Err(e),
    }
}

/// The view of an optional population.
pub open spec fn population_view(p: Option<Population>) -> Option<PopulationView> {
    match p {
        Some(x) => Some(x@),
        None => None,
    }
}

/// The candidates of a generation: those of the population followed by the
/// offspring. Both have to have `num_vars` columns.
pub open spec fn combined(genes: MatrixView, offspring: MatrixView, num_vars: usize) -> Result<
    MatrixView,
    AlgorithmError,
> {
    if offspring.width != num_vars || genes.width != num_vars {
        Err(AlgorithmError::ColumnMismatch)
    } else if !can_stack(genes, offspring) {
        Err(AlgorithmError::TooLarge)
    } else {
        Ok(genes.stack(offspring))
    }
}

/// The view of an optional matrix or the error in its place.
pub open spec fn combination_view(r: Result<Matrix, AlgorithmError>) -> Result<
    MatrixView,
    AlgorithmError,
> {
    match r {
        Ok(m) => Ok(m@),
        Err(e) => Err(e),
    }
}

/// Puts the offspring below the candidates of the population. It fails where
/// one of the two does not have `num_vars` columns, or where the result can no
/// longer be held.
pub fn combine(genes: &Matrix, offspring: &Matrix, num_vars: usize) -> (r: Result<
    Matrix,
    AlgorithmError,
>)
    ensures
        combination_view(r) == combined(genes@, offspring@, num_vars),
        r matches Ok(m) ==> m@.wf() && m@.width == num_vars,
{
    if offspring.ncols() != num_vars || genes.ncols() != num_vars {
        return Err(AlgorithmError::ColumnMismatch);
    }
    match genes.stack(offspring) {
        Some(m) => Ok(m),
        None => Err(AlgorithmError::TooLarge),
    }
}

/// The least value of each objective in a population, where there is one.
pub open spec fn progress_line(population: Option<PopulationView>) -> Seq<u64> {
    match population {
        Some(p) => p.fitness.minima(),
        None => Seq::empty(),
    }
}

impl<S, Sel, Cross, Mut, F: FitnessFn, G: ConstraintsFn, DC: PopulationCleaner> Setup<
    S,
    Sel,
    Cross,
    Mut,
    F,
    G,
    DC,
> {
    /// The state after the survivor strategy has chosen among `evaluated`.
    /// Survivors that do not have `num_vars` columns are refused, and the
    /// population stays as it was.
    pub open spec fn settled<Sur, R>(&self, evaluated: PopulationView, state: RunState<Sur, R>) -> (
        RunState<Sur, R>,
        Result<(), AlgorithmError>,
    ) where Sur: SurvivalOperator<R> {
        let chosen = state.survivor.survived(evaluated, self.population_size, state.rng);
        if chosen.1.genes.width != self.num_vars {
            (
                RunState { population: state.population, survivor: chosen.0, rng: chosen.2 },
                Err(AlgorithmError::ColumnMismatch),
            )
        } else {
            (RunState { population: Some(chosen.1), survivor: chosen.0, rng: chosen.2 }, Ok(()))
        }
    }

    /// The state after the first population is made: candidates are sampled,
    /// the duplicates among them removed, the rest evaluated, and the survivor
    /// strategy chooses the population among them.
    pub open spec fn initialized<Sur, R>(&self, state: RunState<Sur, R>) -> (
        RunState<Sur, R>,
        Result<(), AlgorithmError>,
    ) where S: SamplingOperator<R>, Sur: SurvivalOperator<R> {
        let sample = self.sampler.sampled(
            self.population_size,
            self.num_vars,
            self.bounds,
            state.rng,
        );
        let distinct = self.evolve.duplicates_cleaner.cleaned(sample.0, None);
        let drawn = RunState { population: state.population, survivor: state.survivor, rng: sample.1 };
        match self.evaluator.evaluated(distinct) {
            Err(e) => (drawn, Err(AlgorithmError::Evaluator(e))),
            Ok(evaluated) => self.settled(evaluated, drawn),
        }
    }

    /// The state after one generation: the offspring pipeline makes up to
    /// `num_offsprings` candidates in at most 200 attempts, they are put below
    /// those of the population and evaluated with them, and the survivor
    /// strategy chooses the next population. Where a step fails the population
    /// stays as it was.
    pub open spec fn generation<Sur, R>(&self, state: RunState<Sur, R>) -> (
        RunState<Sur, R>,
        Result<(), AlgorithmError>,
    ) where
        Sel: SelectionOperator<R>,
        Cross: CrossoverOperator<R>,
        Mut: MutationOperator<R>,
        Sur: SurvivalOperator<R>,
     {
        match state.population {
            None => (state, Err(AlgorithmError::NotInitialized)),
            Some(population) => {
                let bred = self.evolve.evolved(
                    population,
                    self.num_offsprings,
                    MAX_ATTEMPTS,
                    state.rng,
                );
                let after = RunState {
                    population: state.population,
                    survivor: state.survivor,
                    rng: bred.1,
                };
                match bred.0 {
                    Err(e) => (after, Err(AlgorithmError::Evolve(e))),
                    Ok(offspring) => match combined(population.genes, offspring, self.num_vars) {
                        Err(e) => (after, Err(e)),
                        Ok(candidates) => match self.evaluator.evaluated(candidates) {
                            Err(e) => (after, Err(AlgorithmError::Evaluator(e))),
                            Ok(evaluated) => self.settled(evaluated, after),
                        },
                    },
                }
            },
        }
    }

    /// The state and the report after `left` more generations, when
    /// `completed` are completed and `minima` is the progress recorded so far.
    /// A generation that finds no offspring ends the run without failing it;
    /// any other failure ends the run and is handed on.
    pub open spec fn generations<Sur, R>(
        &self,
        state: RunState<Sur, R>,
        completed: nat,
        minima: Seq<Seq<u64>>,
        left: nat,
    ) -> (RunState<Sur, R>, Result<ReportView, AlgorithmError>) where
        Sel: SelectionOperator<R>,
        Cross: CrossoverOperator<R>,
        Mut: MutationOperator<R>,
        Sur: SurvivalOperator<R>,

        decreases left,
    {
        if left == 0 {
            (state, Ok(ReportView { outcome: RunOutcome::Completed, generations: completed, minima }))
        } else {
            let step = self.generation(state);
            match step.1 {
                Ok(()) => self.generations(
                    step.0,
                    completed + 1,
                    if self.verbose {
                        minima.push(progress_line(step.0.population))
                    } else {
                        minima
                    },
                    (left - 1) as nat,
                ),
                Err(AlgorithmError::Evolve(EvolveError::EmptyMatingResult)) => (
                    step.0,
                    Ok(
                        ReportView {
                            outcome: RunOutcome::EarlyStopped,
                            generations: completed,
                            minima,
                        },
                    ),
                ),
                Err(e) => (step.0, Err(e)),
            }
        }
    }

    /// The state and the report after a whole run: the first population is
    /// made, then up to `num_iterations` generations follow.
    pub open spec fn ran<Sur, R>(&self, state: RunState<Sur, R>) -> (
        RunState<Sur, R>,
        Result<ReportView, AlgorithmError>,
    ) where
        S: SamplingOperator<R>,
        Sel: SelectionOperator<R>,
        Cross: CrossoverOperator<R>,
        Mut: MutationOperator<R>,
        Sur: SurvivalOperator<R>,
     {
        let first = self.initialized(state);
        match first.1 {
            Err(e) => (first.0, Err(e)),
            Ok(()) => self.generations(first.0, 0, Seq::empty(), self.num_iterations as nat),
        }
    }
}

impl<S, Sel, Sur, Cross, Mut, F, G, DC, R> GeneticAlgorithm<S, Sel, Sur, Cross, Mut, F, G, DC, R> where
    S: SamplingOperator<R>,
    Sel: SelectionOperator<R>,
    Sur: SurvivalOperator<R>,
    Cross: CrossoverOperator<R>,
    Mut: MutationOperator<R>,
    F: FitnessFn,
    G: ConstraintsFn,
    DC: PopulationCleaner,
    R: RandomGenerator,
 {
    /// Whether the engine is the one that `params` gives: it holds the
    /// operators, functions and numbers of `params`, the bounds that the
    /// constraints function reports, no population, and no generation done.
    pub open spec fn built_from(
        &self,
        params: GeneticAlgorithmParams<S, Sel, Sur, Cross, Mut, F, G, DC>,
    ) -> bool {
        &&& self.population is None
        &&& self.sampler == params.sampler
        &&& self.survivor == params.survivor
        &&& self.evolve.selection == params.selector
        &&& self.evolve.crossover == params.crossover
        &&& self.evolve.mutation == params.mutation
        &&& self.evolve.duplicates_cleaner == params.duplicates_cleaner
        &&& self.evolve.mutation_rate == params.mutation_rate
        &&& self.evolve.crossover_rate == params.crossover_rate
        &&& self.evolve.bounds@ == bounds_of(params.constraints_fn)
        &&& self.evaluator.fitness == params.fitness_fn
        &&& self.evaluator.constraints == params.constraints_fn
        &&& self.evaluator.keep_infeasible == params.keep_infeasible
        &&& self.context.num_vars == params.num_vars
        &&& self.context.population_size == params.population_size
        &&& self.context.num_offsprings == params.num_offsprings
        &&& self.context.num_iterations == params.num_iterations
        &&& self.context.current_iteration == 0
        &&& self.context.bounds@ == bounds_of(params.constraints_fn)
        &&& self.verbose == params.verbose
    }

    /// The part of the engine that a run does not change.
    pub open spec fn setup(&self) -> Setup<S, Sel, Cross, Mut, F, G, DC> {
        Setup {
            sampler: self.sampler,
            evolve: self.evolve,
            evaluator: self.evaluator,
            num_vars: self.context.num_vars,
            population_size: self.context.population_size,
            num_offsprings: self.context.num_offsprings,
            num_iterations: self.context.num_iterations,
            verbose: self.verbose,
            bounds: self.context.bounds@,
        }
    }

    /// The part of the engine that a run moves on.
    pub open spec fn state(&self) -> RunState<Sur, R> {
        RunState {
            population: population_view(self.population),
            survivor: self.survivor,
            rng: self.rng,
        }
    }

    /// Whether the population, where there is one, is well formed and has the
    /// configured number of variables.
    pub open spec fn population_fits(&self) -> bool {
        self.population matches Some(p) ==> p@.wf() && p@.genes.width == self.context.num_vars
    }

    /// The current population, where there is one.
    pub fn population(&self) -> (p: Option<&Population>)
        ensures
            p is Some <==> self.population is Some,
            p matches Some(x) ==> Some(*x) == self.population,
    {
        self.population.as_ref()
    }

    /// The parameters of the run.
    pub fn context(&self) -> (c: &AlgorithmContext)
        ensures
            *c == self.context,
    {
        &self.context
    }

    /// Lets the survivor strategy choose the next population among
    /// `evaluated`, and takes it over where it has the configured number of
    /// variables.
    fn settle(&mut self, evaluated: Population) -> (r: Result<(), AlgorithmError>)
        ensures
            (final(self).state(), r) == old(self).setup().settled(evaluated@, old(self).state()),
            final(self).setup() == old(self).setup(),
            final(self).context == old(self).context,
            r is Ok ==> final(self).population is Some && final(self).population_fits(),
            r is Err ==> final(self).population == old(self).population,
    {
        let survivors = self.survivor.operate(
            evaluated,
            self.context.population_size,
            &mut self.rng,
        );
        let _ = survivors.len();
        if survivors.genes().ncols() != self.context.num_vars {
            return Err(AlgorithmError::ColumnMismatch);
        }
        self.population = Some(survivors);
        Ok(())
    }

    /// Makes the first population: samples `population_size` candidates,
    /// removes the duplicates among them, evaluates the rest and lets the
    /// survivor strategy choose the population among them.
    pub fn initialize(&mut self) -> (r: Result<(), AlgorithmError>)
        ensures
            (final(self).state(), r) == old(self).setup().initialized(old(self).state()),
            final(self).setup() == old(self).setup(),
            final(self).context == old(self).context,
            r is Ok ==> final(self).population is Some && final(self).population_fits(),
            r is Err ==> final(self).population == old(self).population,
    {
        let sample = self.sampler.operate(
            self.context.population_size,
            self.context.num_vars,
            &self.context.bounds,
            &mut self.rng,
        );
        let distinct = self.evolve.duplicates_cleaner.remove(sample, None);
        match self.evaluator.evaluate(distinct) {
            Ok(evaluated) => self.settle(evaluated),
            Err(e) => Err(AlgorithmError::Evaluator(e)),
        }
    }

    /// Runs one generation: makes offspring of the current population,
    /// evaluates them together with it and lets the survivor strategy choose
    /// the next population. Without a population there is nothing to do but
    /// to fail. Where a step fails the population stays as it was.
    pub fn next(&mut self) -> (r: Result<(), AlgorithmError>)
        ensures
            (final(self).state(), r) == old(self).setup().generation(old(self).state()),
            final(self).setup() == old(self).setup(),
            final(self).context == old(self).context,
            r is Ok ==> final(self).population is Some && final(self).population_fits(),
            r is Err ==> final(self).population == old(self).population,
    {
        let candidates = match &self.population {
            None => {
                return Err(AlgorithmError::NotInitialized);
            },
            Some(population) => {
                let offspring = match self.evolve.evolve(
                    population,
                    self.context.num_offsprings,
                    MAX_ATTEMPTS,
                    &mut self.rng,
                ) {
                    Ok(m) => m,
                    Err(e) => {
                        return Err(AlgorithmError::Evolve(e));
                    },
                };
                match combine(population.genes(), &offspring, self.context.num_vars) {
                    Ok(m) => m,
                    Err(e) => {
                        return Err(e);
                    },
                }
            },
        };
        match self.evaluator.evaluate(candidates) {
            Ok(evaluated) => self.settle(evaluated),
            Err(e) => Err(AlgorithmError::Evaluator(e)),
        }
    }

    /// Runs the algorithm: makes the first population, then runs up to
    /// `num_iterations` generations and counts each completed one in the
    /// context. A generation that finds no offspring ends the run early; the
    /// run has not failed then, and the population of the last completed
    /// generation stays. Any other failure ends the run and is handed on.
    pub fn run(&mut self) -> (r: Result<RunReport, AlgorithmError>)
        ensures
            (final(self).state(), run_view(r)) == old(self).setup().ran(old(self).state()),
            final(self).setup() == old(self).setup(),
            r is Ok ==> final(self).population is Some && final(self).population_fits(),
            r matches Ok(report) ==> report.generations <= old(self).context.num_iterations && (
            report.outcome == RunOutcome::Completed ==> report.generations == old(
                self,
            ).context.num_iterations) && final(self).context.current_iteration == (if report.generations
                > 0 {
                report.generations
            } else {
                old(self).context.current_iteration
            }),
    {
        match self.initialize() {
            Ok(()) => {},
            Err(e) => {
                return Err(e);
            },
        }
        let ghost setup = self.setup();
        let ghost whole = setup.ran(old(self).state());
        let total: usize = self.context.num_iterations;
        let mut minima: Vec<Vec<u64>> = Vec::new();
        let mut done: usize = 0;
        assert(lines_view(minima@) =~= Seq::empty());
        while done < total
            invariant
                done <= total,
                setup == old(self).setup(),
                whole == setup.ran(old(self).state()),
                total == self.context.num_iterations,
                self.setup() == setup,
                self.population is Some,
                self.population_fits(),
                setup.generations(
                    self.state(),
                    done as nat,
                    lines_view(minima@),
                    (total - done) as nat,
                ) == whole,
                self.context.current_iteration == (if done > 0 {
                    done
                } else {
                    old(self).context.current_iteration
                }),
            decreases total - done,
        {
            match self.next() {
                Ok(()) => {
                    if self.verbose {
                        let line = match &self.population {
                            Some(p) => p.fitness().column_minima(),
                            None => Vec::new(),
                        };
                        let ghost before = lines_view(minima@);
                        minima.push(line);
                        assert(lines_view(minima@) =~= before.push(
                            progress_line(self.state().population),
                        ));
                    }
                    done += 1;
                    self.context.set_current_iteration(done);
                },
                Err(AlgorithmError::Evolve(EvolveError::EmptyMatingResult)) => {
                    return Ok(
                        RunReport { outcome: RunOutcome::EarlyStopped, generations: done, minima },
                    );
                },
                Err(e) => {
                    return Err(e);
                },
            }
        }
        Ok(RunReport { outcome: RunOutcome::Completed, generations: done, minima })
    }
}

} // verus!
