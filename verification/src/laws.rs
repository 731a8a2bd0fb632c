//! What the building blocks of the checker are for, said of their inputs and
//! results.
pub mod constants;
pub mod hierarchies;
pub mod numbers;
pub mod shapes;
pub mod unification;
