//! A symbolic-expression engine: algebraic expressions as immutable trees,
//! with a bottom-up algebraic simplifier, a symbolic derivative generator,
//! and substitution of expressions for variables.

pub mod derivative;
pub mod laws;
pub mod evaluator;
pub mod math;
pub mod symbol;
