//! The evaluation pipeline: from candidates to a population.
use crate::algorithms::context::{bound_view, BoundsView};
use crate::algorithms::error::EvaluatorError;
use crate::genetic::{optional_view, Population, PopulationView};
use crate::ieee::{is_non_positive, non_positive};
use crate::matrix::{array_get, axis_weight, shape_fits, Matrix, MatrixView};
use vstd::prelude::*;

verus! {

/// A fitness function: one row of objective values for each candidate. With
/// one column the problem has a single objective, with more it has several.
///
/// An implementation promises that the candidates fix what it returns.
pub trait FitnessFn {
    /// The fitness values of `genes`.
    spec fn fitness_of(&self, genes: MatrixView) -> MatrixView;

    /// Computes the fitness values of `genes`.
    fn call(&self, genes: &Matrix) -> (out: Matrix)
        ensures
            out@ == self.fitness_of(genes@),
    ;
}

/// A constraints function: one row of constraint values for each candidate,
/// and the bounds of the variables. A constraint holds of a candidate when
/// its value is at most zero.
///
/// An implementation promises that the candidates fix the values it returns,
/// and that it reports the same bounds each time.
pub trait ConstraintsFn {
    /// The constraint values of `genes`.
    spec fn constraints_of(&self, genes: MatrixView) -> MatrixView;

    /// The bounds of the variables.
    spec fn bounds(&self) -> BoundsView;

    /// Computes the constraint values of `genes`.
    fn call(&self, genes: &Matrix) -> (out: Matrix)
        ensures
            out@ == self.constraints_of(genes@),
    ;

    /// Reports the lower bounds of the variables.
    fn lower_bound(&self) -> (b: Option<Vec<u64>>)
        ensures
            bound_view(b) == self.bounds().lower,
    ;

    /// Reports the upper bounds of the variables.
    fn upper_bound(&self) -> (b: Option<Vec<u64>>)
        ensures
            bound_view(b) == self.bounds().upper,
    ;
}

/// The constraints function of a problem without constraints: no constraint
/// value for any candidate, and no bounds.
#[derive(Clone, Copy, Debug)]
pub struct NoConstraints;

impl ConstraintsFn for NoConstraints {
    open spec fn constraints_of(&self, genes: MatrixView) -> MatrixView {
        MatrixView { rows: Seq::new(genes.len(), |i: int| Seq::empty()), width: 0 }
    }

    open spec fn bounds(&self) -> BoundsView {
        BoundsView { lower: None, upper: None }
    }

    fn call(&self, genes: &Matrix) -> (out: Matrix) {
        let n: usize = genes.nrows();
        proof {
            lemma_shape_without_columns(n as nat, genes@.width);
        }
        match Matrix::from_shape_vec(n, 0, Vec::new()) {
            Some(m) => {
                assert forall|i: int| 0 <= i < n implies #[trigger] m@.rows[i] == Seq::<u64>::empty() by {
                    assert(m@.rows[i].len() == 0);
                    assert(m@.rows[i] =~= Seq::<u64>::empty());
                }
                assert(m@.rows =~= Seq::new(genes@.len(), |i: int| Seq::<u64>::empty()));
                m
            },
            None => genes.head(0),
        }
    }

    fn lower_bound(&self) -> (b: Option<Vec<u64>>) {
        None
    }

    fn upper_bound(&self) -> (b: Option<Vec<u64>>) {
        None
    }
}

/// A shape that can be held can also be held without its columns.
proof fn lemma_shape_without_columns(nrows: nat, ncols: nat)
    requires
        shape_fits(nrows, ncols),
    ensures
        shape_fits(nrows, 0),
        nrows * 0 == 0,
{
    assert(axis_weight(nrows) * 1 <= axis_weight(nrows) * axis_weight(ncols)) by (nonlinear_arith)
        requires
            axis_weight(ncols) >= 1,
    ;
}

/// Whether every constraint value of a row is at most zero.
pub open spec fn row_feasible(row: Seq<u64>) -> bool {
    forall|j: int| 0 <= j < row.len() ==> is_non_positive(#[trigger] row[j])
}

/// For each row of constraint values, whether the row is feasible.
pub open spec fn feasibility(constraints: MatrixView) -> Seq<bool> {
    Seq::new(constraints.len(), |i: int| row_feasible(constraints.rows[i]))
}

/// The population that candidates, their fitness values and their constraint
/// values make. Where infeasible individuals are not kept and there are
/// constraints, only the feasible ones stay.
pub open spec fn assembled(
    genes: MatrixView,
    fitness: MatrixView,
    constraints: Option<MatrixView>,
    keep_infeasible: bool,
) -> Result<PopulationView, EvaluatorError> {
    let all = PopulationView { genes, fitness, constraints };
    if fitness.len() != genes.len() {
        Err(EvaluatorError::FitnessRows)
    } else {
        match constraints {
            None => Ok(all),
            Some(c) => if c.len() != genes.len() {
                Err(EvaluatorError::ConstraintsRows)
            } else if keep_infeasible {
                Ok(all)
            } else {
                Ok(all.retain(feasibility(c)))
            },
        }
    }
}

/// The view of the outcome of an evaluation.
pub open spec fn evaluation_view(r: Result<Population, EvaluatorError>) -> Result<
    PopulationView,
    EvaluatorError,
> {
    match r {
        Ok(p) => Ok(p@),
        Err(e) => Err(e),
    }
}

/// Tells whether every constraint value of row `i` is at most zero.
fn is_row_feasible(constraints: &Matrix, i: usize) -> (r: bool)
    requires
        i < constraints@.len(),
    ensures
        r == row_feasible(constraints@.rows[i as int]),
{
    let width: usize = constraints.ncols();
    let mut j: usize = 0;
    while j < width
        invariant
            j <= width,
            width == constraints@.width,
            i < constraints@.len(),
            constraints@.rows[i as int].len() == width,
            forall|k: int| 0 <= k < j ==> is_non_positive(#[trigger] constraints@.rows[i as int][k]),
        decreases width - j,
    {
        if !non_positive(array_get(constraints, i, j)) {
            return false;
        }
        j += 1;
    }
    true
}

/// Tells of each row of constraint values whether it is feasible.
pub fn feasible_rows(constraints: &Matrix) -> (keep: Vec<bool>)
    ensures
        keep@ == feasibility(constraints@),
{
    let n: usize = constraints.nrows();
    let mut keep: Vec<bool> = Vec::new();
    let mut i: usize = 0;
    while i < n
        invariant
            i <= n,
            n == constraints@.len(),
            keep.len() == i,
            forall|k: int| 0 <= k < i ==> keep[k] == row_feasible(constraints@.rows[k]),
        decreases n - i,
    {
        keep.push(is_row_feasible(constraints, i));
        i += 1;
    }
    assert(keep@ =~= feasibility(constraints@));
    keep
}

/// Makes a population of candidates, their fitness values and their
/// constraint values. It fails where the values do not come one row per
/// candidate. Where infeasible individuals are not kept and there are
/// constraints, the rows of the infeasible ones leave all three matrices.
pub fn assemble(
    genes: Matrix,
    fitness: Matrix,
    constraints: Option<Matrix>,
    keep_infeasible: bool,
) -> (r: Result<Population, EvaluatorError>)
    ensures
        evaluation_view(r) == assembled(
            genes@,
            fitness@,
            optional_view(constraints),
            keep_infeasible,
        ),
        r matches Ok(p) ==> p@.wf(),
{
    let n: usize = genes.nrows();
    if fitness.nrows() != n {
        return Err(EvaluatorError::FitnessRows);
    }
    let keep: Option<Vec<bool>> = match &constraints {
        None => None,
        Some(c) => {
            if c.nrows() != n {
                return Err(EvaluatorError::ConstraintsRows);
            }
            if keep_infeasible {
                None
            } else {
                Some(feasible_rows(c))
            }
        },
    };
    match Population::new(genes, fitness, constraints) {
        Some(all) => match keep {
            Some(k) => Ok(all.retain(&k)),
            None => Ok(all),
        },
        None => Err(EvaluatorError::FitnessRows),
    }
}

/// The evaluation pipeline.
pub struct Evaluator<F, G> {
    /// The fitness function.
    pub fitness: F,
    /// The constraints function, where the problem has constraints.
    pub constraints: Option<G>,
    /// Whether individuals that break a constraint stay in the population.
    pub keep_infeasible: bool,
}

impl<F: FitnessFn, G: ConstraintsFn> Evaluator<F, G> {
    /// The constraint values of `genes`, where the problem has constraints.
    pub open spec fn constraints_of(&self, genes: MatrixView) -> Option<MatrixView> {
        match self.constraints {
            Some(g) => Some(g.constraints_of(genes)),
            None => None,
        }
    }

    /// The population that `genes` evaluate to.
    pub open spec fn evaluated(&self, genes: MatrixView) -> Result<PopulationView, EvaluatorError> {
        assembled(genes, self.fitness.fitness_of(genes), self.constraints_of(genes), self.keep_infeasible)
    }

    /// Evaluates candidates: applies the fitness function and, where there is
    /// one, the constraints function to `genes`, and assembles the population.
    pub fn evaluate(&self, genes: Matrix) -> (r: Result<Population, EvaluatorError>)
        ensures
            evaluation_view(r) == self.evaluated(genes@),
            r matches Ok(p) ==> p@.wf(),
    {
        let fitness = self.fitness.call(&genes);
        let constraints = match &self.constraints {
            Some(g) => Some(g.call(&genes)),
            None => None,
        };
        assemble(genes, fitness, constraints, self.keep_infeasible)
    }
}

/// In a population that was evaluated without keeping infeasible individuals,
/// no individual breaks a constraint: every constraint value is at most zero.
pub proof fn lemma_only_feasible_stay(
    genes: MatrixView,
    fitness: MatrixView,
    constraints: MatrixView,
    i: int,
)
    requires
        constraints.len() <= usize::MAX,
        assembled(genes, fitness, Some(constraints), false) is Ok,
        0 <= i < assembled(genes, fitness, Some(constraints), false)->Ok_0.len(),
    ensures
        assembled(genes, fitness, Some(constraints), false)->Ok_0.constraints is Some,
        row_feasible(
            assembled(genes, fitness, Some(constraints), false)->Ok_0.constraints->0.rows[i],
        ),
{
    let keep = feasibility(constraints);
    crate::matrix::lemma_kept(keep);
}

} // verus!
