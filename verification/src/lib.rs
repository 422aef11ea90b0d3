//! An interpreter for a small BASIC: variables of four kinds, arithmetic and
//! conditions, `PRINT`, `IF`, `FOR` and `WHILE` with early exits.
//!
//! A program arrives as a tree ([`syntax`]) and is walked. Expressions are
//! computed in the kind that their place asks for ([`expression`],
//! [`bool_expression`]), statements change the variables ([`scope`]) and the
//! output ([`interpreter`]). Every function states what it computes over a
//! mathematical model of the scope and the output; [`laws`] holds what follows
//! from those statements for all programs.
//!
//! Whole numbers and bytes are the library's own ([`kind`]). The float kind
//! is a parameter: the interpreter works with any [`kind::ScopeValue`].

pub mod bool_expression;
pub mod error;
pub mod expression;
pub mod interpreter;
pub mod kind;
pub mod laws;
pub mod scope;
pub mod syntax;
pub mod text;
pub mod value;

use vstd::prelude::*;
use crate::error::{outcome, InterpreterError};
use crate::interpreter::{ExecutionResult, UNLIMITED};
use crate::kind::ScopeValue;
use crate::syntax::Program;

verus! {

/// Runs a program in a scope of its own, with floats of the kind `F`, and
/// appends what it prints to `stdout`.
pub fn execute<F: ScopeValue>(program: &Program, stdout: &mut String) -> (r: Result<
    ExecutionResult,
    InterpreterError,
>)
    ensures
        final(stdout)@ == program.run::<F>(old(stdout)@, UNLIMITED as nat).output,
        outcome(r) == program.run::<F>(old(stdout)@, UNLIMITED as nat).result,
{
    program.execute::<F>(stdout)
}

} // verus!
