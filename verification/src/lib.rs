//! Hindley-Milner type inference for the coil language.
use vstd::prelude::*;

pub mod aggregate_arith;
pub mod ast;
pub mod const_eval;
pub mod env;
pub mod generics;
pub mod id;
pub mod infer;
pub mod kind;
pub mod laws;
pub mod maps;
pub mod report;
pub mod soundness;
pub mod subst;
pub mod text;
pub mod tree;
pub mod ty;
pub mod unify;
pub mod virtual_modules;

verus! {

} // verus!
