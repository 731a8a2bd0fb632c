//! What the steps of the checker are for, said of their inputs and results.
//!
//! Each law is stated in plain terms: of places in lists, of types written out,
//! of the messages that are added and of the tables that are filled.
pub mod annotations;
pub mod calls;
pub mod classes;
pub mod construction;
pub mod control;
pub mod declarations;
pub mod dictionaries;
pub mod dispatch;
pub mod instances;
pub mod loops;
pub mod matches;
pub mod members;
pub mod operators;
pub mod patterns;
pub mod programs;
pub mod recipes;
pub mod records;
pub mod registry;
pub mod sequences;
pub mod typing;
