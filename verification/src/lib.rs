//! Quantifier-aware terms for a trait-and-generics language, with a verified
//! traversal that reports free variables, structural size and universes.

pub mod binder;
pub mod collections;
pub mod fold;
pub mod grammar;
pub mod ids;
pub mod ty;
pub mod variable;
pub mod visit;
