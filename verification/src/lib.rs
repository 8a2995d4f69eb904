//! An engine for evolutionary optimisation.
//!
//! A population of real-valued candidate vectors is sampled, evaluated and
//! then evolved generation by generation: parents are selected, crossed and
//! mutated, duplicates are removed, the offspring are evaluated together with
//! the current population and a survivor strategy picks the next population.
//! Sampling, selection, crossover, mutation, cleaning, survival, the fitness
//! and constraints functions and the random generator are capabilities that
//! the caller supplies as implementations of the traits of this crate.
//!
//! Real numbers are carried as the bit patterns of IEEE-754 doubles (`u64`),
//! see [`ieee`]; a caller converts with `f64::to_bits` and `f64::from_bits`.
//!
//! Each operation of a capability comes with a ghost function of the same
//! trait that names its result as a function of its arguments, and with the
//! promise that the operation returns just that. The contracts of the engine
//! are stated over these functions. They are never run: an implementation in
//! ordinary Rust gives each of them a body that cannot be reached.
pub mod algorithms;
pub mod duplicates;
pub mod evaluator;
pub mod genetic;
pub mod ieee;
pub mod matrix;
pub mod operators;
pub mod random;
