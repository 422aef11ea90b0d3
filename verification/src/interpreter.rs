//! What statements do: to the variables, to the output, and to the loop
//! that encloses them.

use vstd::prelude::*;
use vstd::string::*;
use crate::error::{not_implemented, outcome, Fault, InterpreterError};
use crate::kind::{Byte, DataType, Integer, One, ScopeValue};
use crate::scope::{Scope, ScopeView};
use crate::syntax::{
    Assignment, Block, Expression, ForAssignment, ForStatement, IfStatement, NumericVariable,
    PrintListItem, PrintListItemValue, PrintStatement, Program, Statement, StringAssignment,
    TypeDenominator, WhileStatement,
};
use crate::text::{integer_text, natural_text, push_natural, render_integer};
use crate::value::{Value, ValueView};

verus! {

/// The loop that an early exit is meant for.
#[derive(Clone, Copy, Debug, PartialEq, Eq, Structural)]
pub enum ExitReason {
    For,
    While,
}

/// What the execution of a statement or a block asks of what encloses it.
#[derive(Clone, Copy, Debug, PartialEq, Eq, Structural)]
pub enum ExecutionResult {
    /// Go on with the next statement.
    Continue,
    /// A `FOR` has counted past its target. Only the step that counts
    /// yields this.
    ForCompleted,
    /// Leave the nearest enclosing loop of the given kind.
    Exit(ExitReason),
}

/// The state in which an execution ends, and what it asks for.
pub struct Run<F> {
    pub scope: ScopeView<F>,
    pub output: Seq<char>,
    pub result: Result<ExecutionResult, Fault>,
}

/// The run that ends in the given state with the given result.
pub open spec fn ran<F>(
    scope: ScopeView<F>,
    output: Seq<char>,
    result: Result<ExecutionResult, Fault>,
) -> Run<F> {
    Run { scope, output, result }
}

/// The largest allowance of loop rounds, which no run uses up.
pub const UNLIMITED: u64 = 0xffff_ffff_ffff_ffff;

/// The description of the error that a `FOR` over a byte yields.
pub open spec fn byte_loop_description() -> Seq<char> {
    "Loops for other than integers and floats"@
}

/// The text that `PRINT` shows for a value.
pub open spec fn shown<F: ScopeValue>(v: ValueView<F>) -> Seq<char> {
    match v {
        ValueView::String(s) => s,
        ValueView::Integer(i) => integer_text(i as int),
        ValueView::Float(f) => f.spec_render()@,
        ValueView::Byte(b) => natural_text(b as nat),
        ValueView::Boolean(b) => if b {
            "true"@
        } else {
            "false"@
        },
    }
}

/// Appends to `stdout` the text that `PRINT` shows for a value.
pub fn show<F: ScopeValue>(v: &Value<F>, stdout: &mut String)
    ensures
        final(stdout)@ == old(stdout)@ + shown(v@),
{
    match v {
        Value::String(s) => stdout.append(s.as_str()),
        Value::Integer(i) => {
            let text = render_integer(*i);
            stdout.append(text.as_str());
        },
        Value::Float(f) => {
            let text = f.render();
            stdout.append(text.as_str());
        },
        Value::Byte(b) => push_natural(*b as u64, stdout),
        Value::Boolean(b) => if *b {
            stdout.append("true");
        } else {
            stdout.append("false");
        },
    }
}

/// The scope after `value` was computed in the kind of `variable` and stored
/// under its name, or the error of the computation with the scope as it was.
pub open spec fn assigned<F: ScopeValue>(
    variable: &NumericVariable,
    value: &Expression,
    scope: ScopeView<F>,
) -> (ScopeView<F>, Result<ExecutionResult, Fault>) {
    match variable.natural_type() {
        DataType::Byte => match value.byte_value(scope) {
            Ok(v) => (scope.set_byte(variable.name@, v), Ok(ExecutionResult::Continue)),
            Err(e) => (scope, Err(e)),
        },
        DataType::Integer => match value.integer_value(scope) {
            Ok(v) => (scope.set_int(variable.name@, v), Ok(ExecutionResult::Continue)),
            Err(e) => (scope, Err(e)),
        },
        _ => match value.float_value(scope) {
            Ok(v) => (scope.set_float(variable.name@, v), Ok(ExecutionResult::Continue)),
            Err(e) => (scope, Err(e)),
        },
    }
}

/// Computes `value` in the kind of `variable` and stores it under its name.
pub fn assign<F: ScopeValue>(
    variable: &NumericVariable,
    value: &Expression,
    scope: &mut Scope<F>,
) -> (r: Result<ExecutionResult, InterpreterError>)
    ensures
        (final(scope)@, outcome(r)) == assigned(variable, value, old(scope)@),
{
    match &variable.type_dem {
        None => {
            let v = value.compute_float(scope)?;
            scope.set_float(&variable.name, v);
        },
        Some(d) => match d {
            TypeDenominator::ByteDenominator => {
                let v = value.compute_byte(scope)?;
                scope.set_byte(&variable.name, v);
            },
            TypeDenominator::FloatDenominator => {
                let v = value.compute_float(scope)?;
                scope.set_float(&variable.name, v);
            },
            TypeDenominator::IntegerDenominator => {
                let v = value.compute_integer(scope)?;
                scope.set_int(&variable.name, v);
            },
        },
    }
    Ok(ExecutionResult::Continue)
}

impl PrintListItem {
    /// The text that the item shows.
    pub open spec fn text<F: ScopeValue>(&self, scope: ScopeView<F>) -> Result<Seq<char>, Fault> {
        match self.value {
            PrintListItemValue::Expression(e) => match e.value(scope) {
                Ok(v) => Ok(shown(v)),
                Err(e) => Err(e),
            },
            PrintListItemValue::StringLiteral(s) => Ok(s.body@),
            PrintListItemValue::StringVariable(s) => scope.string(s.name@),
        }
    }

    /// What follows the item's text: a new line, unless the item ends in a
    /// separator.
    pub open spec fn ending(&self) -> Seq<char> {
        match self.sep {
            None => "\n"@,
            Some(_) => Seq::empty(),
        }
    }
}

impl PrintStatement {
    /// The output after the items from position `i` on were shown, and the
    /// error of the first item that has no value, at which the output ends.
    pub open spec fn printed_from<F: ScopeValue>(
        &self,
        scope: ScopeView<F>,
        output: Seq<char>,
        i: int,
    ) -> (Seq<char>, Result<ExecutionResult, Fault>)
        decreases self.list@.len() - i,
    {
        if 0 <= i < self.list@.len() {
            match self.list@[i].text(scope) {
                Err(e) => (output, Err(e)),
                Ok(text) => self.printed_from(scope, output + text + self.list@[i].ending(), i + 1),
            }
        } else {
            (output, Ok(ExecutionResult::Continue))
        }
    }

    /// What `PRINT` does: every item is shown in turn.
    pub open spec fn run<F: ScopeValue>(&self, scope: ScopeView<F>, output: Seq<char>) -> Run<F> {
        let (printed, result) = self.printed_from(scope, output, 0);
        ran(scope, printed, result)
    }

    /// Shows every item of the list on `stdout`.
    pub fn execute_stdout<F: ScopeValue>(&self, scope: &mut Scope<F>, stdout: &mut String) -> (r:
        Result<ExecutionResult, InterpreterError>)
        ensures
            ran(final(scope)@, final(stdout)@, outcome(r)) == self.run(old(scope)@, old(stdout)@),
    {
        let mut i: usize = 0;
        while i < self.list.len()
            invariant
                i <= self.list@.len(),
                scope@ == old(scope)@,
                self.printed_from(scope@, stdout@, i as int) == self.printed_from(
                    old(scope)@,
                    old(stdout)@,
                    0,
                ),
            decreases self.list@.len() - i,
        {
            let item = &self.list[i];
            let ghost before = stdout@;
            match &item.value {
                PrintListItemValue::Expression(e) => {
                    let v = e.compute(scope)?;
                    show(&v, stdout);
                },
                PrintListItemValue::StringLiteral(s) => stdout.append(s.body.as_str()),
                PrintListItemValue::StringVariable(s) => {
                    let text = scope.get_string(&s.name)?;
                    stdout.append(text.as_str());
                },
            };
            match item.sep {
                None => stdout.append("\n"),
                Some(_) => {
                    assert(stdout@ + Seq::<char>::empty() =~= stdout@);
                },
            };
            assert(stdout@ =~= before + item.text(scope@)->Ok_0 + item.ending());
            i = i + 1;
        }
        Ok(ExecutionResult::Continue)
    }
}

impl Assignment {
    /// What an assignment does: see [`assigned`].
    pub open spec fn run<F: ScopeValue>(&self, scope: ScopeView<F>, output: Seq<char>) -> Run<F> {
        let (after, result) = assigned(&self.variable, &self.value, scope);
        ran(after, output, result)
    }

    /// Computes the value in the kind of the variable and stores it.
    pub fn execute<F: ScopeValue>(&self, scope: &mut Scope<F>) -> (r: Result<
        ExecutionResult,
        InterpreterError,
    >)
        ensures
            (final(scope)@, outcome(r)) == assigned(&self.variable, &self.value, old(scope)@),
    {
        assign(&self.variable, &self.value, scope)
    }
}

impl ForAssignment {
    /// Computes the first value of the loop variable and stores it.
    pub fn execute<F: ScopeValue>(&self, scope: &mut Scope<F>) -> (r: Result<
        ExecutionResult,
        InterpreterError,
    >)
        ensures
            (final(scope)@, outcome(r)) == assigned(&self.variable, &self.value, old(scope)@),
    {
        assign(&self.variable, &self.value, scope)
    }
}

impl StringAssignment {
    /// What the assignment of a text does: the literal is stored under the
    /// variable's name.
    pub open spec fn run<F: ScopeValue>(&self, scope: ScopeView<F>, output: Seq<char>) -> Run<F> {
        ran(
            scope.set_string(self.variable.name@, self.value.body@),
            output,
            Ok(ExecutionResult::Continue),
        )
    }

    /// Stores the literal under the name of the variable.
    pub fn execute<F: ScopeValue>(&self, scope: &mut Scope<F>) -> (r: Result<
        ExecutionResult,
        InterpreterError,
    >)
        ensures
            final(scope)@ == old(scope)@.set_string(self.variable.name@, self.value.body@),
            outcome(r) == Ok::<ExecutionResult, Fault>(ExecutionResult::Continue),
    {
        let v = self.value.body.clone();
        scope.set_string(&self.variable.name, v);
        Ok(ExecutionResult::Continue)
    }
}

/// What a loop makes of the result of one round of its body. A loop goes on
/// after a round that asks for nothing, ends quietly on the exit that is meant
/// for its own kind, and hands on the exit that is meant for the other kind
/// as it came.
pub open spec fn spec_after_round(own: ExitReason, round: ExecutionResult) -> Option<
    Result<ExecutionResult, Fault>,
> {
    match round {
        ExecutionResult::Continue => None,
        ExecutionResult::ForCompleted => match own {
            ExitReason::For => Some(Ok(ExecutionResult::Continue)),
            ExitReason::While => Some(Err(Fault::OperationUnsupported)),
        },
        ExecutionResult::Exit(reason) => if reason == own {
            Some(Ok(ExecutionResult::Continue))
        } else {
            Some(Ok(ExecutionResult::Exit(reason)))
        },
    }
}

/// What a loop of kind `own` does after a round with the given result:
/// `None` to go on, else the result with which the loop ends.
pub fn after_round(own: ExitReason, round: ExecutionResult) -> (r: Option<
    Result<ExecutionResult, InterpreterError>,
>)
    ensures
        match r {
            None => spec_after_round(own, round) is None,
            Some(end) => spec_after_round(own, round) == Some(outcome(end)),
        },
{
    match round {
        ExecutionResult::Continue => None,
        ExecutionResult::ForCompleted => match own {
            ExitReason::For => Some(Ok(ExecutionResult::Continue)),
            ExitReason::While => Some(Err(InterpreterError::OperationUnsupported)),
        },
        ExecutionResult::Exit(reason) => if reason == own {
            Some(Ok(ExecutionResult::Continue))
        } else {
            Some(Ok(ExecutionResult::Exit(reason)))
        },
    }
}

impl Block {
    /// What the statements from position `i` on do, run in their order. The
    /// first statement that asks for an exit, or that fails, ends the block,
    /// which hands on what that statement yielded; no statement after it runs.
    pub open spec fn run_from<F: ScopeValue>(
        &self,
        scope: ScopeView<F>,
        output: Seq<char>,
        limit: nat,
        i: int,
    ) -> Run<F>
        decreases limit, self, self.statements@.len() - i,
    {
        if 0 <= i < self.statements@.len() {
            let first = self.statements@[i].run(scope, output, limit);
            match first.result {
                Err(_) => first,
                Ok(ExecutionResult::Exit(_)) => first,
                Ok(_) => self.run_from(first.scope, first.output, limit, i + 1),
            }
        } else {
            ran(scope, output, Ok(ExecutionResult::Continue))
        }
    }

    /// What the block does.
    pub open spec fn run<F: ScopeValue>(
        &self,
        scope: ScopeView<F>,
        output: Seq<char>,
        limit: nat,
    ) -> Run<F>
        decreases limit, self, self.statements@.len() + 1,
    {
        self.run_from(scope, output, limit, 0)
    }

    /// Runs the statements in their order, up to the first that asks for an exit.
    pub fn execute_stdout<F: ScopeValue>(
        &self,
        scope: &mut Scope<F>,
        stdout: &mut String,
        limit: u64,
    ) -> (r: Result<ExecutionResult, InterpreterError>)
        ensures
            ran(final(scope)@, final(stdout)@, outcome(r)) == self.run(
                old(scope)@,
                old(stdout)@,
                limit as nat,
            ),
        decreases limit, self, self.statements@.len() + 1,
    {
        let mut i: usize = 0;
        while i < self.statements.len()
            invariant
                i <= self.statements@.len(),
                self.run_from(scope@, stdout@, limit as nat, i as int) == self.run(
                    old(scope)@,
                    old(stdout)@,
                    limit as nat,
                ),
            decreases self.statements@.len() - i,
        {
            let statement = &self.statements[i];
            let result = statement.execute_stdout(scope, stdout, limit)?;
            match result {
                ExecutionResult::Exit(_) => return Ok(result),
                _ => {},
            };
            i = i + 1;
        }
        Ok(ExecutionResult::Continue)
    }
}

impl Statement {
    /// What the statement does to the scope and the output, and what it asks
    /// of the block that holds it.
    pub open spec fn run<F: ScopeValue>(
        &self,
        scope: ScopeView<F>,
        output: Seq<char>,
        limit: nat,
    ) -> Run<F>
        decreases limit, self, 0nat,
    {
        match self {
            Statement::EndStatement => ran(scope, output, Ok(ExecutionResult::Continue)),
            Statement::PrintStatement(s) => s.run(scope, output),
            Statement::Assignment(a) => a.run(scope, output),
            Statement::StringAssignment(a) => a.run(scope, output),
            Statement::ForStatement(f) => f.run(scope, output, limit),
            Statement::IfStatement(i) => i.run(scope, output, limit),
            Statement::ExitForStatement => ran(
                scope,
                output,
                Ok(ExecutionResult::Exit(ExitReason::For)),
            ),
            Statement::WhileStatement(w) => w.run(scope, output, limit),
            Statement::ExitWhileStatement => ran(
                scope,
                output,
                Ok(ExecutionResult::Exit(ExitReason::While)),
            ),
        }
    }

    /// Executes the statement.
    pub fn execute_stdout<F: ScopeValue>(
        &self,
        scope: &mut Scope<F>,
        stdout: &mut String,
        limit: u64,
    ) -> (r: Result<ExecutionResult, InterpreterError>)
        ensures
            ran(final(scope)@, final(stdout)@, outcome(r)) == self.run(
                old(scope)@,
                old(stdout)@,
                limit as nat,
            ),
        decreases limit, self, 0nat,
    {
        match self {
            Statement::EndStatement => Ok(ExecutionResult::Continue),
            Statement::PrintStatement(s) => s.execute_stdout(scope, stdout),
            Statement::Assignment(a) => a.execute(scope),
            Statement::StringAssignment(a) => a.execute(scope),
            Statement::ForStatement(f) => f.execute_stdout(scope, stdout, limit),
            Statement::IfStatement(i) => i.execute_stdout(scope, stdout, limit),
            Statement::ExitForStatement => Ok(ExecutionResult::Exit(ExitReason::For)),
            Statement::WhileStatement(w) => w.execute_stdout(scope, stdout, limit),
            Statement::ExitWhileStatement => Ok(ExecutionResult::Exit(ExitReason::While)),
        }
    }
}

impl IfStatement {
    /// What an `IF` does: the condition is computed once; the first block
    /// runs where it holds, else the second where there is one.
    pub open spec fn run<F: ScopeValue>(
        &self,
        scope: ScopeView<F>,
        output: Seq<char>,
        limit: nat,
    ) -> Run<F>
        decreases limit, self, 0nat,
    {
        match self.condition.truth(scope) {
            Err(e) => ran(scope, output, Err(e)),
            Ok(true) => self.then_block.run(scope, output, limit),
            Ok(false) => match self.else_block {
                None => ran(scope, output, Ok(ExecutionResult::Continue)),
                Some(e) => e.run(scope, output, limit),
            },
        }
    }

    /// Runs the block that the condition chooses.
    pub fn execute_stdout<F: ScopeValue>(
        &self,
        scope: &mut Scope<F>,
        stdout: &mut String,
        limit: u64,
    ) -> (r: Result<ExecutionResult, InterpreterError>)
        ensures
            ran(final(scope)@, final(stdout)@, outcome(r)) == self.run(
                old(scope)@,
                old(stdout)@,
                limit as nat,
            ),
        decreases limit, self, 0nat,
    {
        let c = self.condition.compute_bool(scope)?.as_bool()?;
        if c == true {
            self.then_block.execute_stdout(scope, stdout, limit)
        } else {
            match &self.else_block {
                None => Ok(ExecutionResult::Continue),
                Some(e) => e.execute_stdout(scope, stdout, limit),
            }
        }
    }
}

impl WhileStatement {
    /// What a `WHILE` does. The condition is computed before every round. A
    /// round takes one from the allowance, within which the body then runs;
    /// a round that the allowance does not cover is an error.
    pub open spec fn run<F: ScopeValue>(
        &self,
        scope: ScopeView<F>,
        output: Seq<char>,
        limit: nat,
    ) -> Run<F>
        decreases limit, self, 0nat,
    {
        match self.condition.truth(scope) {
            Err(e) => ran(scope, output, Err(e)),
            Ok(false) => ran(scope, output, Ok(ExecutionResult::Continue)),
            Ok(true) => if limit == 0 {
                ran(scope, output, Err(Fault::IterationLimit))
            } else {
                let round = self.body.run(scope, output, (limit - 1) as nat);
                match round.result {
                    Err(_) => round,
                    Ok(result) => match spec_after_round(ExitReason::While, result) {
                        None => self.run(round.scope, round.output, (limit - 1) as nat),
                        Some(end) => ran(round.scope, round.output, end),
                    },
                }
            },
        }
    }

    /// Runs the body as long as the condition holds.
    pub fn execute_stdout<F: ScopeValue>(
        &self,
        scope: &mut Scope<F>,
        stdout: &mut String,
        limit: u64,
    ) -> (r: Result<ExecutionResult, InterpreterError>)
        ensures
            ran(final(scope)@, final(stdout)@, outcome(r)) == self.run(
                old(scope)@,
                old(stdout)@,
                limit as nat,
            ),
        decreases limit, self, 0nat,
    {
        let mut left = limit;
        loop
            invariant
                left <= limit,
                self.run(scope@, stdout@, left as nat) == self.run(
                    old(scope)@,
                    old(stdout)@,
                    limit as nat,
                ),
            decreases left,
        {
            let c = self.condition.compute_bool(scope)?.as_bool()?;
            if c {
                if left == 0 {
                    return Err(InterpreterError::IterationLimit);
                }
                left = left - 1;
                let r = self.body.execute_stdout(scope, stdout, left)?;
                match after_round(ExitReason::While, r) {
                    None => {},
                    Some(end) => return end,
                }
            } else {
                return Ok(ExecutionResult::Continue);
            }
        }
    }
}

impl ForStatement {
    /// One round of a `FOR` over whole numbers: the body runs; where it asks
    /// for nothing, the variable is read, the step is added, and the sum is
    /// stored unless it lies beyond the target, in which case the variable
    /// keeps its value and the loop has counted to its end. What the body
    /// stored in the variable is what the step is added to.
    pub open spec fn round_integer<F: ScopeValue>(
        &self,
        target: Integer,
        step: Integer,
        scope: ScopeView<F>,
        output: Seq<char>,
        limit: nat,
    ) -> Run<F>
        decreases limit, self, 0nat,
    {
        let body = self.body.run(scope, output, limit);
        match body.result {
            Ok(ExecutionResult::Continue) => match body.scope.integer(
                self.assignment.variable.name@,
            ) {
                Err(e) => ran(body.scope, body.output, Err(e)),
                Ok(current) => {
                    let next = current.spec_plus(step);
                    if target.spec_less_than(next) {
                        ran(body.scope, body.output, Ok(ExecutionResult::ForCompleted))
                    } else {
                        ran(
                            body.scope.set_int(self.assignment.variable.name@, next),
                            body.output,
                            Ok(ExecutionResult::Continue),
                        )
                    }
                },
            },
            Ok(ExecutionResult::ForCompleted) => ran(
                body.scope,
                body.output,
                Err(Fault::OperationUnsupported),
            ),
            _ => body,
        }
    }

    /// One round of a `FOR` over floats: as over whole numbers, with the
    /// float kind's sum and order.
    pub open spec fn round_float<F: ScopeValue>(
        &self,
        target: F,
        step: F,
        scope: ScopeView<F>,
        output: Seq<char>,
        limit: nat,
    ) -> Run<F>
        decreases limit, self, 0nat,
    {
        let body = self.body.run(scope, output, limit);
        match body.result {
            Ok(ExecutionResult::Continue) => match body.scope.float(
                self.assignment.variable.name@,
            ) {
                Err(e) => ran(body.scope, body.output, Err(e)),
                Ok(current) => {
                    let next = current.spec_plus(step);
                    if target.spec_less_than(next) {
                        ran(body.scope, body.output, Ok(ExecutionResult::ForCompleted))
                    } else {
                        ran(
                            body.scope.set_float(self.assignment.variable.name@, next),
                            body.output,
                            Ok(ExecutionResult::Continue),
                        )
                    }
                },
            },
            Ok(ExecutionResult::ForCompleted) => ran(
                body.scope,
                body.output,
                Err(Fault::OperationUnsupported),
            ),
            _ => body,
        }
    }

    /// The rounds of a `FOR` over whole numbers, one after the other, each
    /// taking one from the allowance, until one of them ends the loop.
    pub open spec fn rounds_integer<F: ScopeValue>(
        &self,
        target: Integer,
        step: Integer,
        scope: ScopeView<F>,
        output: Seq<char>,
        limit: nat,
    ) -> Run<F>
        decreases limit, self, 1nat,
    {
        if limit == 0 {
            ran(scope, output, Err(Fault::IterationLimit))
        } else {
            let round = self.round_integer(target, step, scope, output, (limit - 1) as nat);
            match round.result {
                Err(_) => round,
                Ok(result) => match spec_after_round(ExitReason::For, result) {
                    None => self.rounds_integer(
                        target,
                        step,
                        round.scope,
                        round.output,
                        (limit - 1) as nat,
                    ),
                    Some(end) => ran(round.scope, round.output, end),
                },
            }
        }
    }

    /// The rounds of a `FOR` over floats.
    pub open spec fn rounds_float<F: ScopeValue>(
        &self,
        target: F,
        step: F,
        scope: ScopeView<F>,
        output: Seq<char>,
        limit: nat,
    ) -> Run<F>
        decreases limit, self, 1nat,
    {
        if limit == 0 {
            ran(scope, output, Err(Fault::IterationLimit))
        } else {
            let round = self.round_float(target, step, scope, output, (limit - 1) as nat);
            match round.result {
                Err(_) => round,
                Ok(result) => match spec_after_round(ExitReason::For, result) {
                    None => self.rounds_float(
                        target,
                        step,
                        round.scope,
                        round.output,
                        (limit - 1) as nat,
                    ),
                    Some(end) => ran(round.scope, round.output, end),
                },
            }
        }
    }

    /// The step of a `FOR` over whole numbers: one, where none is written.
    pub open spec fn step_integer<F: ScopeValue>(&self, scope: ScopeView<F>) -> Result<
        Integer,
        Fault,
    > {
        match self.step {
            Some(s) => s.value.integer_value(scope),
            None => Ok(Integer::spec_one()),
        }
    }

    /// The step of a `FOR` over floats: one, where none is written.
    pub open spec fn step_float<F: ScopeValue>(&self, scope: ScopeView<F>) -> Result<F, Fault> {
        match self.step {
            Some(s) => s.value.float_value(scope),
            None => Ok(F::spec_one()),
        }
    }

    /// A `FOR` over whole numbers after its first assignment: target and
    /// step are computed once, then the rounds run.
    pub open spec fn loop_integer<F: ScopeValue>(
        &self,
        scope: ScopeView<F>,
        output: Seq<char>,
        limit: nat,
    ) -> Run<F>
        decreases limit, self, 2nat,
    {
        match self.target.integer_value(scope) {
            Err(e) => ran(scope, output, Err(e)),
            Ok(target) => match self.step_integer(scope) {
                Err(e) => ran(scope, output, Err(e)),
                Ok(step) => self.rounds_integer(target, step, scope, output, limit),
            },
        }
    }

    /// A `FOR` over floats after its first assignment.
    pub open spec fn loop_float<F: ScopeValue>(
        &self,
        scope: ScopeView<F>,
        output: Seq<char>,
        limit: nat,
    ) -> Run<F>
        decreases limit, self, 2nat,
    {
        match self.target.float_value(scope) {
            Err(e) => ran(scope, output, Err(e)),
            Ok(target) => match self.step_float(scope) {
                Err(e) => ran(scope, output, Err(e)),
                Ok(step) => self.rounds_float(target, step, scope, output, limit),
            },
        }
    }

    /// What a `FOR` does: the first assignment, then the loop in the kind of
    /// its variable. A loop over a byte is not carried out.
    pub open spec fn run<F: ScopeValue>(
        &self,
        scope: ScopeView<F>,
        output: Seq<char>,
        limit: nat,
    ) -> Run<F>
        decreases limit, self, 3nat,
    {
        let (after, result) = assigned(&self.assignment.variable, &self.assignment.value, scope);
        match result {
            Err(e) => ran(after, output, Err(e)),
            Ok(_) => match self.assignment.variable.natural_type() {
                DataType::Byte => ran(
                    after,
                    output,
                    Err(Fault::NotImplemented(byte_loop_description())),
                ),
                DataType::Integer => self.loop_integer(after, output, limit),
                _ => self.loop_float(after, output, limit),
            },
        }
    }

    /// Runs the loop: the first assignment, then the rounds.
    pub fn execute_stdout<F: ScopeValue>(
        &self,
        scope: &mut Scope<F>,
        stdout: &mut String,
        limit: u64,
    ) -> (r: Result<ExecutionResult, InterpreterError>)
        ensures
            ran(final(scope)@, final(stdout)@, outcome(r)) == self.run(
                old(scope)@,
                old(stdout)@,
                limit as nat,
            ),
        decreases limit, self, 3nat,
    {
        self.assignment.execute(scope)?;
        match &self.assignment.variable.type_dem {
            None => self.do_loop_float(scope, stdout, limit),
            Some(d) => match d {
                TypeDenominator::FloatDenominator => self.do_loop_float(scope, stdout, limit),
                TypeDenominator::IntegerDenominator => self.do_loop_integer(scope, stdout, limit),
                _ => Err(not_implemented("Loops for other than integers and floats")),
            },
        }
    }

    /// Runs a `FOR` over whole numbers, its first assignment done.
    pub fn do_loop_integer<F: ScopeValue>(
        &self,
        scope: &mut Scope<F>,
        stdout: &mut String,
        limit: u64,
    ) -> (r: Result<ExecutionResult, InterpreterError>)
        ensures
            ran(final(scope)@, final(stdout)@, outcome(r)) == self.loop_integer(
                old(scope)@,
                old(stdout)@,
                limit as nat,
            ),
        decreases limit, self, 2nat,
    {
        let target = self.target.compute_integer(scope)?;
        let step: Integer = match &self.step {
            Some(s) => s.value.compute_integer(scope)?,
            None => Integer::one(),
        };
        let mut left = limit;
        loop
            invariant
                left <= limit,
                self.rounds_integer(target, step, scope@, stdout@, left as nat)
                    == self.loop_integer(old(scope)@, old(stdout)@, limit as nat),
            decreases left,
        {
            if left == 0 {
                return Err(InterpreterError::IterationLimit);
            }
            left = left - 1;
            let round = self.iterate_integer(target, step, scope, stdout, left)?;
            match after_round(ExitReason::For, round) {
                None => {},
                Some(end) => return end,
            }
        }
    }

    /// Runs a `FOR` over floats, its first assignment done.
    pub fn do_loop_float<F: ScopeValue>(
        &self,
        scope: &mut Scope<F>,
        stdout: &mut String,
        limit: u64,
    ) -> (r: Result<ExecutionResult, InterpreterError>)
        ensures
            ran(final(scope)@, final(stdout)@, outcome(r)) == self.loop_float(
                old(scope)@,
                old(stdout)@,
                limit as nat,
            ),
        decreases limit, self, 2nat,
    {
        let target = self.target.compute_float(scope)?;
        let step: F = match &self.step {
            Some(s) => s.value.compute_float(scope)?,
            None => F::one(),
        };
        let mut left = limit;
        loop
            invariant
                left <= limit,
                self.rounds_float(target, step, scope@, stdout@, left as nat) == self.loop_float(
                    old(scope)@,
                    old(stdout)@,
                    limit as nat,
                ),
            decreases left,
        {
            if left == 0 {
                return Err(InterpreterError::IterationLimit);
            }
            left = left - 1;
            let round = self.iterate_float(target, step, scope, stdout, left)?;
            match after_round(ExitReason::For, round) {
                None => {},
                Some(end) => return end,
            }
        }
    }

    /// Runs one round of a `FOR` over whole numbers: the body, then the step.
    pub fn iterate_integer<F: ScopeValue>(
        &self,
        target: Integer,
        step: Integer,
        scope: &mut Scope<F>,
        stdout: &mut String,
        limit: u64,
    ) -> (r: Result<ExecutionResult, InterpreterError>)
        ensures
            ran(final(scope)@, final(stdout)@, outcome(r)) == self.round_integer(
                target,
                step,
                old(scope)@,
                old(stdout)@,
                limit as nat,
            ),
        decreases limit, self, 0nat,
    {
        let result = self.body.execute_stdout(scope, stdout, limit)?;
        match result {
            ExecutionResult::Continue => {
                let curr = scope.get_int(&self.assignment.variable.name)?;
                let next = curr.plus(step);
                if target.less_than(next) {
                    return Ok(ExecutionResult::ForCompleted);
                }
                scope.set_int(&self.assignment.variable.name, next);
                Ok(ExecutionResult::Continue)
            },
            ExecutionResult::Exit(reason) => Ok(ExecutionResult::Exit(reason)),
            ExecutionResult::ForCompleted => Err(InterpreterError::OperationUnsupported),
        }
    }

    /// Runs one round of a `FOR` over floats: the body, then the step.
    pub fn iterate_float<F: ScopeValue>(
        &self,
        target: F,
        step: F,
        scope: &mut Scope<F>,
        stdout: &mut String,
        limit: u64,
    ) -> (r: Result<ExecutionResult, InterpreterError>)
        ensures
            ran(final(scope)@, final(stdout)@, outcome(r)) == self.round_float(
                target,
                step,
                old(scope)@,
                old(stdout)@,
                limit as nat,
            ),
        decreases limit, self, 0nat,
    {
        let result = self.body.execute_stdout(scope, stdout, limit)?;
        match result {
            ExecutionResult::Continue => {
                let curr = scope.get_float(&self.assignment.variable.name)?;
                let next = curr.plus(step);
                if target.less_than(next) {
                    return Ok(ExecutionResult::ForCompleted);
                }
                scope.set_float(&self.assignment.variable.name, next);
                Ok(ExecutionResult::Continue)
            },
            ExecutionResult::Exit(reason) => Ok(ExecutionResult::Exit(reason)),
            ExecutionResult::ForCompleted => Err(InterpreterError::OperationUnsupported),
        }
    }
}

impl Program {
    /// What the program does, begun in the empty scope.
    pub open spec fn run<F: ScopeValue>(&self, output: Seq<char>, limit: nat) -> Run<F> {
        self.body.run(ScopeView::<F>::empty(), output, limit)
    }

    /// Runs the program in a scope of its own and appends what it prints to
    /// `stdout`. What was printed before an error stays there. No loop is
    /// cut short: the allowance is [`UNLIMITED`].
    pub fn execute<F: ScopeValue>(&self, stdout: &mut String) -> (r: Result<
        ExecutionResult,
        InterpreterError,
    >)
        ensures
            final(stdout)@ == self.run::<F>(old(stdout)@, UNLIMITED as nat).output,
            outcome(r) == self.run::<F>(old(stdout)@, UNLIMITED as nat).result,
    {
        self.execute_within::<F>(stdout, UNLIMITED)
    }

    /// Runs the program with an allowance of loop rounds. A loop may make as
    /// many rounds as the allowance that it was entered with, and what runs
    /// in its k-th round has k less. A round beyond the allowance ends the run
    /// with [`InterpreterError::IterationLimit`].
    pub fn execute_within<F: ScopeValue>(&self, stdout: &mut String, limit: u64) -> (r: Result<
        ExecutionResult,
        InterpreterError,
    >)
        ensures
            final(stdout)@ == self.run::<F>(old(stdout)@, limit as nat).output,
            outcome(r) == self.run::<F>(old(stdout)@, limit as nat).result,
    {
        let mut scope: Scope<F> = Scope::new();
        self.body.execute_stdout(&mut scope, stdout, limit)
    }
}

} // verus!
