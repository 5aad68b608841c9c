//! Parallel execution of a fallible integer callback over an ordered batch of
//! inputs: the batch is fanned out across a thread pool, results come back in
//! input order, and a failure of one element never aborts the rest.

pub mod executor;
pub mod laws;
pub mod outcome;

pub use executor::execute;
pub use outcome::CallError;
