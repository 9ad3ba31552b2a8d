//! The semantic core of a small, weakly-typed interpreted language: the
//! runtime `Value` kinds with their coercion and operator semantics, the
//! abstract syntax of expressions and statements, and a reference evaluator
//! that fixes what each node means when walked.
//!
//! Every operation over values is total — wrong kinds degrade to defined
//! fallbacks, never to an error — and each carries a contract pinning its
//! result to the one the coercion table demands. Numbers are binary64 values
//! carried as their bit patterns; their arithmetic is delegated to a software
//! implementation of IEEE-754 behind the trusted boundary in `number`.

pub mod number;
pub mod syntax;
pub mod runtime;
pub mod eval;
