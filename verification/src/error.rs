//! The errors that end a computation or a run.

use vstd::prelude::*;

verus! {

/// Why a computation or a program run was abandoned.
#[derive(Debug)]
pub enum InterpreterError {
    /// A recognised feature of the language that the interpreter does not carry out.
    NotImplemented(String),
    /// An operand of the wrong kind, or a literal that is not a number.
    TypeMismatch,
    /// An operator that the operand's kind does not have, or a control signal
    /// that arrived where it cannot occur.
    OperationUnsupported,
    /// A read of a name that the mapping of the requested kind does not hold.
    UnknownVariable(String),
    /// No statement where one was to run. The interpreter does not yield it.
    StatementNotFound,
    /// A place that no run reaches. The interpreter does not yield it.
    Unreachable,
    /// A division of whole numbers by zero.
    DivisionByZero,
    /// A loop wanted one more round than the caller's allowance.
    IterationLimit,
}

/// The mathematical content of an [`InterpreterError`]: texts by their characters.
pub enum Fault {
    NotImplemented(Seq<char>),
    TypeMismatch,
    OperationUnsupported,
    UnknownVariable(Seq<char>),
    /// No statement where one was to run. The interpreter does not yield it.
    StatementNotFound,
    /// A place that no run reaches. The interpreter does not yield it.
    Unreachable,
    DivisionByZero,
    IterationLimit,
}

impl View for InterpreterError {
    type V = Fault;

    open spec fn view(&self) -> Fault {
        match self {
            InterpreterError::NotImplemented(text) => Fault::NotImplemented(text@),
            InterpreterError::TypeMismatch => Fault::TypeMismatch,
            InterpreterError::OperationUnsupported => Fault::OperationUnsupported,
            InterpreterError::UnknownVariable(name) => Fault::UnknownVariable(name@),
            InterpreterError::StatementNotFound => Fault::StatementNotFound,
            InterpreterError::Unreachable => Fault::Unreachable,
            InterpreterError::DivisionByZero => Fault::DivisionByZero,
            InterpreterError::IterationLimit => Fault::IterationLimit,
        }
    }
}

/// A result with its error taken by its view.
pub open spec fn outcome<T>(r: Result<T, InterpreterError>) -> Result<T, Fault> {
    match r {
        Ok(v) => Ok(v),
        Err(e) => Err(e@),
    }
}

/// The error of a feature that is not carried out, with its description.
pub fn not_implemented(description: &str) -> (e: InterpreterError)
    ensures
        e@ == Fault::NotImplemented(description@),
{
    InterpreterError::NotImplemented(description.to_owned())
}

/// The error of a read of `name` that found nothing.
pub fn unknown_variable(name: &String) -> (e: InterpreterError)
    ensures
        e@ == Fault::UnknownVariable(name@),
{
    InterpreterError::UnknownVariable(name.clone())
}

} // verus!
