//! Configuration, validation and the engine that runs the generations.
pub mod builder;
pub mod context;
pub mod error;
pub mod theorems;
pub mod validators;
