use moors::algorithms::builder::{AlgorithmBuilder, RunOutcome};
use moors::algorithms::context::{Bounds, BoundsView};
use moors::duplicates::PopulationCleaner;
use moors::evaluator::{ConstraintsFn, FitnessFn};
use moors::genetic::{Population, PopulationView};
use moors::matrix::{Matrix, MatrixView};
use moors::operators::{
    CrossoverOperator, MutationOperator, SamplingOperator, SelectionOperator, SurvivalOperator,
};
use moors::random::RandomGenerator;

fn to_rows(m: &Matrix) -> Vec<Vec<f64>> {
    (0..m.nrows())
        .map(|i| m.row(i).unwrap().into_iter().map(f64::from_bits).collect())
        .collect()
}

fn to_matrix(rows: &[Vec<f64>], ncols: usize) -> Matrix {
    let cells: Vec<u64> = rows.iter().flat_map(|r| r.iter().map(|x| x.to_bits())).collect();
    Matrix::from_shape_vec(rows.len(), ncols, cells).unwrap()
}

fn clamp(x: f64, bounds: &Bounds, j: usize) -> f64 {
    let mut y = x;
    if let Some(lower) = &bounds.lower {
        y = y.max(f64::from_bits(lower[j]));
    }
    if let Some(upper) = &bounds.upper {
        y = y.min(f64::from_bits(upper[j]));
    }
    y
}

/// SplitMix64.
#[derive(Clone, Debug, PartialEq)]
struct SplitMix {
    state: u64,
}

impl SplitMix {
    fn next_u64(&mut self) -> u64 {
        self.state = self.state.wrapping_add(0x9E37_79B9_7F4A_7C15);
        let mut z = self.state;
        z = (z ^ (z >> 30)).wrapping_mul(0xBF58_476D_1CE4_E5B9);
        z = (z ^ (z >> 27)).wrapping_mul(0x94D0_49BB_1331_11EB);
        z ^ (z >> 31)
    }

    fn unit(&mut self) -> f64 {
        (self.next_u64() >> 11) as f64 / (1u64 << 53) as f64
    }

    fn below(&mut self, n: usize) -> usize {
        (self.next_u64() % n as u64) as usize
    }

    fn normal(&mut self) -> f64 {
        let u = 1.0 - self.unit();
        let v = self.unit();
        (-2.0 * u.ln()).sqrt() * (2.0 * std::f64::consts::PI * v).cos()
    }
}

impl RandomGenerator for SplitMix {
    fn seeded(seed: u64) -> Self {
        SplitMix { state: seed }
    }

    fn new_from_seed(seed: Option<u64>) -> Self {
        SplitMix { state: seed.unwrap_or(0x5EED) }
    }
}

struct RandomSamplingFloat {
    min: f64,
    max: f64,
}

impl RandomSamplingFloat {
    fn new(min: f64, max: f64) -> Self {
        RandomSamplingFloat { min, max }
    }
}

impl SamplingOperator<SplitMix> for RandomSamplingFloat {
    fn sampled(&self, _: usize, _: usize, _: BoundsView, _: SplitMix) -> (MatrixView, SplitMix) {
        unreachable!()
    }

    fn operate(&self, count: usize, num_vars: usize, _bounds: &Bounds, rng: &mut SplitMix) -> Matrix {
        let rows: Vec<Vec<f64>> = (0..count)
            .map(|_| (0..num_vars).map(|_| self.min + (self.max - self.min) * rng.unit()).collect())
            .collect();
        to_matrix(&rows, num_vars)
    }
}

struct RandomSelection;

impl SelectionOperator<SplitMix> for RandomSelection {
    fn selected(&self, _: PopulationView, _: usize, _: SplitMix) -> (MatrixView, MatrixView, SplitMix) {
        unreachable!()
    }

    fn operate(&self, population: &Population, count: usize, rng: &mut SplitMix) -> (Matrix, Matrix) {
        let genes = to_rows(population.genes());
        let width = population.genes().ncols();
        let pairs = count / 2 + 1;
        let a: Vec<Vec<f64>> = (0..pairs).map(|_| genes[rng.below(genes.len())].clone()).collect();
        let b: Vec<Vec<f64>> = (0..pairs).map(|_| genes[rng.below(genes.len())].clone()).collect();
        (to_matrix(&a, width), to_matrix(&b, width))
    }
}

struct SimulatedBinaryCrossover {
    distribution_index: f64,
}

impl SimulatedBinaryCrossover {
    fn new(distribution_index: f64) -> Self {
        SimulatedBinaryCrossover { distribution_index }
    }
}

impl CrossoverOperator<SplitMix> for SimulatedBinaryCrossover {
    fn crossed(&self, _: MatrixView, _: MatrixView, _: u64, _: BoundsView, _: SplitMix) -> (MatrixView, SplitMix) {
        unreachable!()
    }

    fn operate(&self, parents_a: &Matrix, parents_b: &Matrix, crossover_rate: u64, bounds: &Bounds, rng: &mut SplitMix) -> Matrix {
        let rate = f64::from_bits(crossover_rate);
        let width = parents_a.ncols();
        let a = to_rows(parents_a);
        let b = to_rows(parents_b);
        let mut children: Vec<Vec<f64>> = Vec::new();
        for (p, q) in a.iter().zip(b.iter()) {
            let mut c = p.clone();
            let mut d = q.clone();
            if rng.unit() < rate {
                for j in 0..width {
                    if rng.unit() < 0.5 && (p[j] - q[j]).abs() > 1e-14 {
                        let u = rng.unit();
                        let e = 1.0 / (self.distribution_index + 1.0);
                        let beta = if u <= 0.5 { (2.0 * u).powf(e) } else { (1.0 / (2.0 * (1.0 - u))).powf(e) };
                        c[j] = clamp(0.5 * ((1.0 + beta) * p[j] + (1.0 - beta) * q[j]), bounds, j);
                        d[j] = clamp(0.5 * ((1.0 - beta) * p[j] + (1.0 + beta) * q[j]), bounds, j);
                    }
                }
            }
            children.push(c);
            children.push(d);
        }
        to_matrix(&children, width)
    }
}

struct ArithmeticCrossover;

impl CrossoverOperator<SplitMix> for ArithmeticCrossover {
    fn crossed(&self, _: MatrixView, _: MatrixView, _: u64, _: BoundsView, _: SplitMix) -> (MatrixView, SplitMix) {
        unreachable!()
    }

    fn operate(&self, parents_a: &Matrix, parents_b: &Matrix, crossover_rate: u64, bounds: &Bounds, rng: &mut SplitMix) -> Matrix {
        let rate = f64::from_bits(crossover_rate);
        let width = parents_a.ncols();
        let a = to_rows(parents_a);
        let b = to_rows(parents_b);
        let mut children: Vec<Vec<f64>> = Vec::new();
        for (p, q) in a.iter().zip(b.iter()) {
            if rng.unit() < rate {
                let alpha = rng.unit();
                children.push((0..width).map(|j| clamp(alpha * p[j] + (1.0 - alpha) * q[j], bounds, j)).collect());
                children.push((0..width).map(|j| clamp((1.0 - alpha) * p[j] + alpha * q[j], bounds, j)).collect());
            } else {
                children.push(p.clone());
                children.push(q.clone());
            }
        }
        to_matrix(&children, width)
    }
}

struct GaussianMutation {
    gene_mutation_rate: f64,
    sigma: f64,
}

impl GaussianMutation {
    fn new(gene_mutation_rate: f64, sigma: f64) -> Self {
        GaussianMutation { gene_mutation_rate, sigma }
    }
}

impl MutationOperator<SplitMix> for GaussianMutation {
    fn mutated(&self, _: MatrixView, _: u64, _: BoundsView, _: SplitMix) -> (MatrixView, SplitMix) {
        unreachable!()
    }

    fn operate(&self, candidates: Matrix, mutation_rate: u64, bounds: &Bounds, rng: &mut SplitMix) -> Matrix {
        let rate = f64::from_bits(mutation_rate);
        let width = candidates.ncols();
        let mut rows = to_rows(&candidates);
        for row in rows.iter_mut() {
            if rng.unit() < rate {
                for j in 0..width {
                    if rng.unit() < self.gene_mutation_rate {
                        row[j] = clamp(row[j] + self.sigma * rng.normal(), bounds, j);
                    }
                }
            }
        }
        to_matrix(&rows, width)
    }
}

struct UniformRealMutation {
    gene_mutation_rate: f64,
    lower: f64,
    upper: f64,
}

impl UniformRealMutation {
    fn new(gene_mutation_rate: f64, lower: f64, upper: f64) -> Self {
        UniformRealMutation { gene_mutation_rate, lower, upper }
    }
}

impl MutationOperator<SplitMix> for UniformRealMutation {
    fn mutated(&self, _: MatrixView, _: u64, _: BoundsView, _: SplitMix) -> (MatrixView, SplitMix) {
        unreachable!()
    }

    fn operate(&self, candidates: Matrix, mutation_rate: u64, bounds: &Bounds, rng: &mut SplitMix) -> Matrix {
        let rate = f64::from_bits(mutation_rate);
        let width = candidates.ncols();
        let mut rows = to_rows(&candidates);
        for row in rows.iter_mut() {
            if rng.unit() < rate {
                for j in 0..width {
                    if rng.unit() < self.gene_mutation_rate {
                        row[j] = clamp(self.lower + (self.upper - self.lower) * rng.unit(), bounds, j);
                    }
                }
            }
        }
        to_matrix(&rows, width)
    }
}

struct CloseDuplicatesCleaner {
    epsilon: f64,
}

impl CloseDuplicatesCleaner {
    fn new(epsilon: f64) -> Self {
        CloseDuplicatesCleaner { epsilon }
    }

    fn close(&self, a: &[f64], b: &[f64]) -> bool {
        a.iter().zip(b.iter()).map(|(x, y)| (x - y) * (x - y)).sum::<f64>().sqrt() <= self.epsilon
    }
}

impl PopulationCleaner for CloseDuplicatesCleaner {
    fn cleaned(&self, _: MatrixView, _: Option<MatrixView>) -> MatrixView {
        unreachable!()
    }

    fn remove(&self, candidates: Matrix, reference: Option<&Matrix>) -> Matrix {
        let rows = to_rows(&candidates);
        let mut keep: Vec<usize> = Vec::new();
        match reference {
            Some(other) => {
                let seen = to_rows(other);
                for (i, row) in rows.iter().enumerate() {
                    if !seen.iter().any(|s| self.close(row, s)) {
                        keep.push(i);
                    }
                }
            }
            None => {
                for (i, row) in rows.iter().enumerate() {
                    if !keep.iter().any(|&k| self.close(row, &rows[k])) {
                        keep.push(i);
                    }
                }
            }
        }
        candidates.select(&keep).unwrap()
    }
}

/// DTLZ2 for 3 objectives (m = 3) with k = 0 (so num_vars = m−1 = 2):
/// f1 = cos(π/2 ⋅ x0) ⋅ cos(π/2 ⋅ x1)
/// f2 = cos(π/2 ⋅ x0) ⋅ sin(π/2 ⋅ x1)
/// f3 = sin(π/2 ⋅ x0)
struct Dtlz2;

impl FitnessFn for Dtlz2 {
    fn fitness_of(&self, _: MatrixView) -> MatrixView {
        unreachable!()
    }

    fn call(&self, genes: &Matrix) -> Matrix {
        let half_pi = std::f64::consts::PI / 2.0;
        let rows: Vec<Vec<f64>> = to_rows(genes)
            .iter()
            .map(|x| {
                let (c0, s0) = ((x[0] * half_pi).cos(), (x[0] * half_pi).sin());
                let (c1, s1) = ((x[1] * half_pi).cos(), (x[1] * half_pi).sin());
                vec![c0 * c1, c0 * s1, s0]
            })
            .collect();
        to_matrix(&rows, 3)
    }
}

/// Constraints that hold the variables between a lower and an upper bound:
/// for each variable the amount by which it is above the upper bound, and the
/// amount by which it is below the lower bound.
struct MyConstr {
    lower_bound: f64,
    upper_bound: f64,
    num_vars: usize,
}

impl ConstraintsFn for MyConstr {
    fn constraints_of(&self, _: MatrixView) -> MatrixView {
        unreachable!()
    }

    fn bounds(&self) -> BoundsView {
        unreachable!()
    }

    fn call(&self, genes: &Matrix) -> Matrix {
        let rows: Vec<Vec<f64>> = to_rows(genes)
            .iter()
            .map(|x| {
                let mut row: Vec<f64> = x.iter().map(|v| v - self.upper_bound).collect();
                row.extend(x.iter().map(|v| self.lower_bound - v));
                row
            })
            .collect();
        to_matrix(&rows, 2 * genes.ncols())
    }

    fn lower_bound(&self) -> Option<Vec<u64>> {
        Some(vec![self.lower_bound.to_bits(); self.num_vars])
    }

    fn upper_bound(&self) -> Option<Vec<u64>> {
        Some(vec![self.upper_bound.to_bits(); self.num_vars])
    }
}

fn dominates(a: &[f64], b: &[f64]) -> bool {
    a.iter().zip(b.iter()).all(|(x, y)| x <= y) && a.iter().zip(b.iter()).any(|(x, y)| x < y)
}

fn fronts(fitness: &[Vec<f64>]) -> Vec<Vec<usize>> {
    let n = fitness.len();
    let mut dominated_by: Vec<usize> = vec![0; n];
    for i in 0..n {
        for j in 0..n {
            if dominates(&fitness[j], &fitness[i]) {
                dominated_by[i] += 1;
            }
        }
    }
    let mut left: Vec<usize> = (0..n).collect();
    let mut out: Vec<Vec<usize>> = Vec::new();
    while !left.is_empty() {
        let front: Vec<usize> = left.iter().cloned().filter(|&i| dominated_by[i] == 0).collect();
        for &i in &left {
            for &f in &front {
                if dominates(&fitness[f], &fitness[i]) {
                    dominated_by[i] -= 1;
                }
            }
        }
        left.retain(|i| !front.contains(i));
        out.push(front);
    }
    out
}

/// The points of the simplex lattice of Das and Dennis.
struct DanAndDenisReferencePoints {
    n_reference_points: usize,
    n_objectives: usize,
}

impl DanAndDenisReferencePoints {
    fn new(n_reference_points: usize, n_objectives: usize) -> Self {
        DanAndDenisReferencePoints { n_reference_points, n_objectives }
    }

    fn count(partitions: usize, objectives: usize) -> usize {
        let mut c: usize = 1;
        for k in 1..objectives {
            c = c * (partitions + k) / k;
        }
        c
    }

    fn fill(partitions: usize, left: usize, at: usize, point: &mut Vec<f64>, out: &mut Vec<Vec<f64>>) {
        if at + 1 == point.len() {
            point[at] = left as f64 / partitions as f64;
            out.push(point.clone());
            return;
        }
        for k in 0..=left {
            point[at] = k as f64 / partitions as f64;
            Self::fill(partitions, left - k, at + 1, point, out);
        }
    }

    fn generate(&self) -> Vec<Vec<f64>> {
        let mut partitions = 1;
        while Self::count(partitions, self.n_objectives) < self.n_reference_points {
            partitions += 1;
        }
        let mut out = Vec::new();
        Self::fill(partitions, partitions, 0, &mut vec![0.0; self.n_objectives], &mut out);
        out
    }
}

fn ideal(fitness: &[Vec<f64>]) -> Vec<f64> {
    (0..fitness[0].len()).map(|j| fitness.iter().map(|f| f[j]).fold(f64::INFINITY, f64::min)).collect()
}

fn nadir(fitness: &[Vec<f64>]) -> Vec<f64> {
    (0..fitness[0].len()).map(|j| fitness.iter().map(|f| f[j]).fold(f64::NEG_INFINITY, f64::max)).collect()
}

fn norm(v: &[f64]) -> f64 {
    v.iter().map(|x| x * x).sum::<f64>().sqrt()
}

struct Nsga3ReferencePoints {
    points: Vec<Vec<f64>>,
    are_aspirational: bool,
}

impl Nsga3ReferencePoints {
    fn new(points: Vec<Vec<f64>>, are_aspirational: bool) -> Self {
        Nsga3ReferencePoints { points, are_aspirational }
    }
}

struct Nsga3ReferencePointsSurvival {
    reference_points: Nsga3ReferencePoints,
}

impl Nsga3ReferencePointsSurvival {
    fn new(reference_points: Nsga3ReferencePoints) -> Self {
        Nsga3ReferencePointsSurvival { reference_points }
    }

    /// For each individual the nearest reference line and the distance to it.
    fn associate(&self, fitness: &[Vec<f64>]) -> Vec<(usize, f64)> {
        let low = ideal(fitness);
        let high = nadir(fitness);
        fitness
            .iter()
            .map(|f| {
                let z: Vec<f64> = (0..f.len()).map(|j| (f[j] - low[j]) / (high[j] - low[j]).max(1e-12)).collect();
                let mut best = (0, f64::INFINITY);
                for (r, w) in self.reference_points.points.iter().enumerate() {
                    let t = z.iter().zip(w.iter()).map(|(a, b)| a * b).sum::<f64>() / norm(w).powi(2).max(1e-12);
                    let d = norm(&(0..z.len()).map(|j| z[j] - t * w[j]).collect::<Vec<f64>>());
                    if d < best.1 {
                        best = (r, d);
                    }
                }
                best
            })
            .collect()
    }
}

impl SurvivalOperator<SplitMix> for Nsga3ReferencePointsSurvival {
    fn survived(&self, _: PopulationView, _: usize, _: SplitMix) -> (Self, PopulationView, SplitMix) {
        unreachable!()
    }

    fn operate(&mut self, population: Population, count: usize, rng: &mut SplitMix) -> Population {
        assert!(!self.reference_points.are_aspirational);
        if population.len() <= count {
            return population;
        }
        let fitness = to_rows(population.fitness());
        let mut chosen: Vec<usize> = Vec::new();
        let mut last: Vec<usize> = Vec::new();
        for front in fronts(&fitness) {
            if chosen.len() + front.len() <= count {
                chosen.extend(front);
            } else {
                last = front;
                break;
            }
        }
        if chosen.len() < count {
            let near = self.associate(&fitness);
            let mut niche: Vec<usize> = vec![0; self.reference_points.points.len()];
            for &i in &chosen {
                niche[near[i].0] += 1;
            }
            let mut open: Vec<bool> = vec![true; niche.len()];
            while chosen.len() < count {
                let least = (0..niche.len()).filter(|&r| open[r]).map(|r| niche[r]).min().unwrap();
                let ties: Vec<usize> = (0..niche.len()).filter(|&r| open[r] && niche[r] == least).collect();
                let r = ties[rng.below(ties.len())];
                let members: Vec<usize> = last.iter().cloned().filter(|&i| near[i].0 == r).collect();
                if members.is_empty() {
                    open[r] = false;
                    continue;
                }
                let pick = if least == 0 {
                    *members.iter().min_by(|a, b| near[**a].1.partial_cmp(&near[**b].1).unwrap()).unwrap()
                } else {
                    members[rng.below(members.len())]
                };
                niche[r] += 1;
                last.retain(|&i| i != pick);
                chosen.push(pick);
            }
        }
        population.selected(&chosen).unwrap()
    }
}

/// Survival guided by reference vectors, with the angle-penalised distance.
struct ReveaReferencePointsSurvival {
    vectors: Vec<Vec<f64>>,
    initial: Vec<Vec<f64>>,
    alpha: f64,
    frequency: f64,
    num_iterations: usize,
    generation: usize,
}

impl ReveaReferencePointsSurvival {
    fn new(reference_points: Vec<Vec<f64>>, alpha: f64, frequency: f64, num_iterations: usize) -> Self {
        let unit: Vec<Vec<f64>> = reference_points
            .iter()
            .map(|v| v.iter().map(|x| x / norm(v).max(1e-12)).collect())
            .collect();
        ReveaReferencePointsSurvival {
            vectors: unit.clone(),
            initial: unit,
            alpha,
            frequency,
            num_iterations,
            generation: 0,
        }
    }
}

impl SurvivalOperator<SplitMix> for ReveaReferencePointsSurvival {
    fn survived(&self, _: PopulationView, _: usize, _: SplitMix) -> (Self, PopulationView, SplitMix) {
        unreachable!()
    }

    fn operate(&mut self, population: Population, _count: usize, _rng: &mut SplitMix) -> Population {
        if population.len() == 0 {
            return population;
        }
        let fitness = to_rows(population.fitness());
        let low = ideal(&fitness);
        let objectives = low.len();
        let moved: Vec<Vec<f64>> = fitness.iter().map(|f| (0..objectives).map(|j| f[j] - low[j]).collect()).collect();
        let cosine = |a: &[f64], b: &[f64]| -> f64 {
            (a.iter().zip(b.iter()).map(|(x, y)| x * y).sum::<f64>() / (norm(a) * norm(b)).max(1e-12)).clamp(-1.0, 1.0)
        };
        let gamma: Vec<f64> = (0..self.vectors.len())
            .map(|r| {
                (0..self.vectors.len())
                    .filter(|&s| s != r)
                    .map(|s| cosine(&self.vectors[r], &self.vectors[s]).acos())
                    .fold(f64::INFINITY, f64::min)
                    .max(1e-12)
            })
            .collect();
        let progress = (self.generation as f64 / self.num_iterations as f64).min(1.0);
        let mut best: Vec<Option<(usize, f64)>> = vec![None; self.vectors.len()];
        for (i, f) in moved.iter().enumerate() {
            let mut nearest = (0, f64::INFINITY);
            for (r, v) in self.vectors.iter().enumerate() {
                let theta = cosine(f, v).acos();
                if theta < nearest.1 {
                    nearest = (r, theta);
                }
            }
            let apd = (1.0 + objectives as f64 * progress.powf(self.alpha) * nearest.1 / gamma[nearest.0]) * norm(f);
            if best[nearest.0].map_or(true, |(_, d)| apd < d) {
                best[nearest.0] = Some((i, apd));
            }
        }
        let chosen: Vec<usize> = best.iter().filter_map(|b| b.map(|(i, _)| i)).collect();
        self.generation += 1;
        let period = ((self.frequency * self.num_iterations as f64).ceil() as usize).max(1);
        if self.generation % period == 0 {
            let high = nadir(&fitness);
            self.vectors = self
                .initial
                .iter()
                .map(|v| {
                    let scaled: Vec<f64> = (0..objectives).map(|j| v[j] * (high[j] - low[j])).collect();
                    let length = norm(&scaled).max(1e-12);
                    scaled.iter().map(|x| x / length).collect()
                })
                .collect();
        }
        population.selected(&chosen).unwrap()
    }
}

/// Common assertion: the Pareto front must include the entire population
/// and each objective vector must lie on the unit sphere f1² + f2² + f3² = 1
fn assert_full_unit_sphere(pop: &Population) {
    let fitness = to_rows(pop.fitness());
    let front: Vec<Vec<f64>> = fronts(&fitness)[0].iter().map(|&i| fitness[i].clone()).collect();
    assert_eq!(
        front.len(),
        pop.len(),
        "expected full Pareto front, got {} of {}",
        front.len(),
        pop.len()
    );
    for fit in front.iter() {
        let norm2 = fit[0] * fit[0] + fit[1] * fit[1] + fit[2] * fit[2];
        assert!((norm2 - 1.0).abs() < 1e-3, "point {:?} not on unit sphere (norm² = {:.6})", fit, norm2);
    }
}

#[test]
fn test_nsga3_dtlz2_three_objectives() {
    // 1) build 3-objective reference points
    let rp = DanAndDenisReferencePoints::new(100, 3).generate();
    let nsga3_rp = Nsga3ReferencePoints::new(rp, false);
    let survivor = Nsga3ReferencePointsSurvival::new(nsga3_rp);

    // 2) instantiate via builder
    let mut algorithm = AlgorithmBuilder::default()
        .sampler(RandomSamplingFloat::new(0.0, 1.0))
        .selector(RandomSelection)
        .crossover(SimulatedBinaryCrossover::new(20.0))
        .mutation(GaussianMutation::new(0.05, 0.1))
        .survivor(survivor)
        .duplicates_cleaner(CloseDuplicatesCleaner::new(1e-6))
        .fitness_fn(Dtlz2)
        .constraints_fn(MyConstr { lower_bound: 0.0, upper_bound: 1.0, num_vars: 2 })
        .num_vars(2)
        .population_size(100)
        .num_offsprings(100)
        .num_iterations(200)
        .mutation_rate(0.05f64.to_bits())
        .crossover_rate(0.9f64.to_bits())
        .keep_infeasible(false)
        .verbose(false)
        .seed(123)
        .build::<SplitMix>()
        .expect("failed to build NSGA3");

    // 3) run & assert
    let report = algorithm.run().expect("NSGA3 run failed");
    assert_eq!(report.outcome, RunOutcome::Completed);
    assert_eq!(report.generations, 200);
    let population = algorithm.population().expect("population should have been initialized");
    assert_eq!(population.len(), 100);
    assert_eq!(population.genes().ncols(), 2);
    assert_full_unit_sphere(population);
}

#[test]
fn test_revea_dtlz2_three_objectives() {
    // build 3-objective reference points
    let rp = DanAndDenisReferencePoints::new(100, 3).generate();
    let alpha = 2.5;
    let frequency = 0.2;
    let num_iterations = 200;
    let survivor = ReveaReferencePointsSurvival::new(rp, alpha, frequency, num_iterations);

    // instantiate via builder
    let mut algorithm = AlgorithmBuilder::default()
        .sampler(RandomSamplingFloat::new(0.0, 1.0))
        .selector(RandomSelection)
        .crossover(ArithmeticCrossover)
        .mutation(UniformRealMutation::new(0.5, 0.0, 1.0))
        .survivor(survivor)
        .duplicates_cleaner(CloseDuplicatesCleaner::new(1e-6))
        .fitness_fn(Dtlz2)
        .constraints_fn(MyConstr { lower_bound: 0.0, upper_bound: 1.0, num_vars: 2 })
        .num_vars(2)
        .population_size(100)
        .num_offsprings(100)
        .num_iterations(num_iterations)
        .mutation_rate(0.05f64.to_bits())
        .crossover_rate(0.9f64.to_bits())
        .keep_infeasible(false)
        .verbose(false)
        .build::<SplitMix>()
        .expect("failed to build REVEA");

    // 3) run & assert
    algorithm.run().expect("REVEA run failed");
    let population = algorithm.population().expect("population should have been initialized");
    assert_eq!(population.genes().ncols(), 2);
    assert_full_unit_sphere(population);
}
