//! The failures of configuration and of a run.
use vstd::prelude::*;

verus! {

/// A field of the configuration.
#[derive(Clone, Copy, Debug, PartialEq, Eq, Structural)]
pub enum Field {
    Sampler,
    Selector,
    Survivor,
    Crossover,
    Mutation,
    DuplicatesCleaner,
    FitnessFn,
    NumVars,
    PopulationSize,
    NumOffsprings,
    NumIterations,
    MutationRate,
    CrossoverRate,
    Bounds,
}

/// Why a configuration was not accepted.
#[derive(Clone, Copy, Debug, PartialEq, Eq, Structural)]
pub enum AlgorithmBuilderError {
    /// A required field was never set.
    UninitializedField(Field),
    /// A field holds a value that is not allowed.
    ValidationError(Field),
}

/// Why the offspring pipeline gave no offspring.
#[derive(Clone, Copy, Debug, PartialEq, Eq, Structural)]
pub enum EvolveError {
    /// Every attempt ended with no accepted candidate.
    EmptyMatingResult,
    /// A batch of candidates did not have the population's number of columns.
    ColumnMismatch,
    /// The accepted candidates no longer fit in one matrix.
    TooLarge,
}

/// Why a matrix of candidates could not be evaluated.
#[derive(Clone, Copy, Debug, PartialEq, Eq, Structural)]
pub enum EvaluatorError {
    /// The fitness function did not return one row per candidate.
    FitnessRows,
    /// The constraints function did not return one row per candidate.
    ConstraintsRows,
}

/// Why a step of a run failed.
#[derive(Clone, Copy, Debug, PartialEq, Eq, Structural)]
pub enum AlgorithmError {
    /// The offspring pipeline failed.
    Evolve(EvolveError),
    /// The evaluation pipeline failed.
    Evaluator(EvaluatorError),
    /// A generation was asked for before any population existed.
    NotInitialized,
    /// A matrix of candidates did not have the configured number of variables.
    ColumnMismatch,
    /// Population and offspring together no longer fit in one matrix.
    TooLarge,
}

impl Field {
    /// The name under which the field is reported.
    pub fn name(&self) -> (s: &'static str)
        ensures
            s@ == self.label(),
    {
        match self {
            Field::Sampler => "sampler",
            Field::Selector => "selector",
            Field::Survivor => "survivor",
            Field::Crossover => "crossover",
            Field::Mutation => "mutation",
            Field::DuplicatesCleaner => "duplicates_cleaner",
            Field::FitnessFn => "fitness_fn",
            Field::NumVars => "Number of variables",
            Field::PopulationSize => "Population size",
            Field::NumOffsprings => "Number of offsprings",
            Field::NumIterations => "Number of iterations",
            Field::MutationRate => "Mutation rate",
            Field::CrossoverRate => "Crossover rate",
            Field::Bounds => "Bounds",
        }
    }

    /// The characters of the field's name.
    pub open spec fn label(&self) -> Seq<char> {
        match self {
            Field::Sampler => "sampler"@,
            Field::Selector => "selector"@,
            Field::Survivor => "survivor"@,
            Field::Crossover => "crossover"@,
            Field::Mutation => "mutation"@,
            Field::DuplicatesCleaner => "duplicates_cleaner"@,
            Field::FitnessFn => "fitness_fn"@,
            Field::NumVars => "Number of variables"@,
            Field::PopulationSize => "Population size"@,
            Field::NumOffsprings => "Number of offsprings"@,
            Field::NumIterations => "Number of iterations"@,
            Field::MutationRate => "Mutation rate"@,
            Field::CrossoverRate => "Crossover rate"@,
            Field::Bounds => "Bounds"@,
        }
    }
}

impl EvolveError {
    /// Whether a run ends early on this error, without failing.
    pub open spec fn is_recoverable(&self) -> bool {
        *self == EvolveError::EmptyMatingResult
    }
}

} // verus!
