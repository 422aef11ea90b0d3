//! What holds of every program, proved from what the functions of the
//! library state.

use vstd::prelude::*;
use crate::error::Fault;
use crate::expression::convert;
use crate::interpreter::{assigned, ran, spec_after_round, ExecutionResult, ExitReason, Run};
use crate::kind::{DataType, Integer, ScopeValue};
use crate::scope::ScopeView;
use crate::syntax::{
    Block, BoolConjunction, BoolDisjunction, Expression, Factor, ForStatement, IfStatement,
    NumberLiteral, Term, WhileStatement,
};
use crate::text::{
    all_digits, digit_char, digit_value, digits_value, integer_text, is_digit, natural_text,
    parsed_integer,
};

verus! {

/// A literal computed in the kind in which it is not written has the value
/// that it has in its own kind, made a value of the other kind.
pub proof fn lemma_literal_converts<F: ScopeValue>(literal: NumberLiteral)
    ensures
        literal.natural_type() == DataType::Integer ==> literal.float_value::<F>() == convert(
            literal.integer_value::<F>(),
            |v: Integer| F::spec_from_integer(v),
        ),
        literal.natural_type() == DataType::Float ==> literal.integer_value::<F>() == convert(
            literal.float_value::<F>(),
            |v: F| v.spec_to_integer(),
        ),
{
}

/// The digits of a number are digits, there is at least one of them, and
/// they write that number.
pub proof fn lemma_natural_text_writes(n: nat)
    ensures
        natural_text(n).len() > 0,
        all_digits(natural_text(n)),
        digits_value(natural_text(n)) == n,
    decreases n,
{
    if n < 10 {
        let s = natural_text(n);
        assert(s.drop_last() =~= Seq::<char>::empty());
        assert(digits_value(s.drop_last()) == 0);
        assert(is_digit(s[0]));
        assert(digit_value(s[0]) == n);
    } else {
        lemma_natural_text_writes(n / 10);
        let head = natural_text(n / 10);
        let s = head.push(digit_char(n % 10));
        assert(s.drop_last() =~= head);
        assert(is_digit(s.last()));
        assert(digit_value(s.last()) == n % 10);
        assert forall|i: int| 0 <= i < s.len() implies is_digit(#[trigger] s[i]) by {
            if i < head.len() {
                assert(s[i] == head[i]);
            }
        }
    }
}

/// The decimal text of a whole number is read back as that number.
pub proof fn lemma_integer_text_round_trip(i: Integer)
    ensures
        parsed_integer(integer_text(i as int)) == Some(i),
{
    if i < 0 {
        let digits = natural_text((-i) as nat);
        lemma_natural_text_writes((-i) as nat);
        let s = integer_text(i as int);
        assert(s[0] == '-');
        assert(s.skip(1) =~= digits);
    } else {
        let s = integer_text(i as int);
        lemma_natural_text_writes(i as nat);
        assert(is_digit(s[0]));
    }
}

/// The natural kind of an expression is a kind of number, never text.
pub proof fn lemma_natural_type_is_numeric(expression: Expression)
    ensures
        expression.natural_type() != DataType::String,
    decreases expression,
{
    match expression {
        Expression::Add(a) => {
            lemma_natural_type_is_numeric(*a.left);
            lemma_natural_type_is_numeric(*a.right);
        },
        Expression::Sub(s) => {
            lemma_natural_type_is_numeric(*s.left);
            lemma_natural_type_is_numeric(*s.right);
        },
        Expression::Term(t) => lemma_term_type_is_numeric(t),
    }
}

proof fn lemma_term_type_is_numeric(term: Term)
    ensures
        term.natural_type() != DataType::String,
    decreases term,
{
    match term {
        Term::Div(d) => {
            lemma_term_type_is_numeric(*d.left);
            lemma_term_type_is_numeric(*d.right);
        },
        Term::Mul(m) => {
            lemma_term_type_is_numeric(*m.left);
            lemma_term_type_is_numeric(*m.right);
        },
        Term::Factor(f) => {
            assert(term.natural_type() == f.natural_type());
            match f {
                Factor::Group(g) => {
                    lemma_natural_type_is_numeric(*g.body);
                    assert(f.natural_type() == g.natural_type());
                    assert(g.natural_type() == g.body.natural_type());
                },
                Factor::NumberLiteral(l) => {
                    assert(f.natural_type() == l.natural_type());
                },
                Factor::NumericVariable(v) => {
                    assert(f.natural_type() == v.natural_type());
                },
            }
        },
    }
}

/// A conjunction is false as soon as one of its terms is, whatever stands
/// after that term: a later term that would fail is not computed.
pub proof fn lemma_conjunction_short_circuits<F: ScopeValue>(
    conjunction: BoolConjunction,
    scope: ScopeView<F>,
    k: int,
)
    requires
        0 <= k < conjunction.term@.len(),
        conjunction.term@[k].truth(scope) == Ok::<bool, Fault>(false),
        forall|j: int| 0 <= j < k ==> (#[trigger] conjunction.term@[j]).truth(scope) == Ok::<
            bool,
            Fault,
        >(true),
    ensures
        conjunction.truth(scope) == Ok::<bool, Fault>(false),
{
    lemma_conjunction_from(conjunction, scope, k, 0);
}

proof fn lemma_conjunction_from<F: ScopeValue>(
    conjunction: BoolConjunction,
    scope: ScopeView<F>,
    k: int,
    i: int,
)
    requires
        0 <= i <= k < conjunction.term@.len(),
        conjunction.term@[k].truth(scope) == Ok::<bool, Fault>(false),
        forall|j: int| 0 <= j < k ==> (#[trigger] conjunction.term@[j]).truth(scope) == Ok::<
            bool,
            Fault,
        >(true),
    ensures
        conjunction.truth_from(scope, i) == Ok::<bool, Fault>(false),
    decreases k - i,
{
    if i < k {
        lemma_conjunction_from(conjunction, scope, k, i + 1);
    }
}

/// A disjunction is true as soon as one of its conjunctions is, whatever
/// stands after it: a later conjunction that would fail is not computed.
pub proof fn lemma_disjunction_short_circuits<F: ScopeValue>(
    disjunction: BoolDisjunction,
    scope: ScopeView<F>,
    k: int,
)
    requires
        0 <= k < disjunction.conjunction@.len(),
        disjunction.conjunction@[k].truth(scope) == Ok::<bool, Fault>(true),
        forall|j: int|
            0 <= j < k ==> (#[trigger] disjunction.conjunction@[j]).truth(scope) == Ok::<
                bool,
                Fault,
            >(false),
    ensures
        disjunction.truth(scope) == Ok::<bool, Fault>(true),
{
    lemma_disjunction_from(disjunction, scope, k, 0);
}

proof fn lemma_disjunction_from<F: ScopeValue>(
    disjunction: BoolDisjunction,
    scope: ScopeView<F>,
    k: int,
    i: int,
)
    requires
        0 <= i <= k < disjunction.conjunction@.len(),
        disjunction.conjunction@[k].truth(scope) == Ok::<bool, Fault>(true),
        forall|j: int|
            0 <= j < k ==> (#[trigger] disjunction.conjunction@[j]).truth(scope) == Ok::<
                bool,
                Fault,
            >(false),
    ensures
        disjunction.truth_from(scope, i) == Ok::<bool, Fault>(true),
    decreases k - i,
{
    if i < k {
        lemma_disjunction_from(disjunction, scope, k, i + 1);
    }
}

/// A block never reports that a `FOR` has counted to its end: that signal
/// belongs to the counting step of a loop alone.
pub proof fn lemma_block_never_completes<F: ScopeValue>(
    block: Block,
    scope: ScopeView<F>,
    output: Seq<char>,
    limit: nat,
)
    ensures
        block.run(scope, output, limit).result != Ok::<ExecutionResult, Fault>(
            ExecutionResult::ForCompleted,
        ),
{
    lemma_block_from_never_completes(block, scope, output, limit, 0);
}

proof fn lemma_block_from_never_completes<F: ScopeValue>(
    block: Block,
    scope: ScopeView<F>,
    output: Seq<char>,
    limit: nat,
    i: int,
)
    requires
        0 <= i,
    ensures
        block.run_from(scope, output, limit, i).result != Ok::<ExecutionResult, Fault>(
            ExecutionResult::ForCompleted,
        ),
    decreases block.statements@.len() - i,
{
    if i < block.statements@.len() {
        let first = block.statements@[i].run(scope, output, limit);
        lemma_block_from_never_completes(block, first.scope, first.output, limit, i + 1);
    }
}

/// The first statement of a block that asks for an exit ends the block: the
/// block hands on that exit, for whichever loop it is meant, and stands where
/// that statement left off, so that no statement after it has run.
pub proof fn lemma_block_hands_on_exit<F: ScopeValue>(
    block: Block,
    scope: ScopeView<F>,
    output: Seq<char>,
    limit: nat,
    i: int,
    reason: ExitReason,
)
    requires
        0 <= i < block.statements@.len(),
        block.statements@[i].run(scope, output, limit).result == Ok::<ExecutionResult, Fault>(
            ExecutionResult::Exit(reason),
        ),
    ensures
        block.run_from(scope, output, limit, i) == block.statements@[i].run(scope, output, limit),
{
}

/// An `IF` hands on whatever the block that it chose yields, an exit for
/// either kind of loop included.
pub proof fn lemma_if_hands_on<F: ScopeValue>(
    statement: IfStatement,
    scope: ScopeView<F>,
    output: Seq<char>,
    limit: nat,
    holds: bool,
)
    requires
        statement.condition.truth(scope) == Ok::<bool, Fault>(holds),
    ensures
        holds ==> statement.run(scope, output, limit) == statement.then_block.run(
            scope,
            output,
            limit,
        ),
        !holds && statement.else_block is Some ==> statement.run(scope, output, limit)
            == statement.else_block->Some_0.run(scope, output, limit),
        !holds && statement.else_block is None ==> statement.run(scope, output, limit) == ran(
            scope,
            output,
            Ok(ExecutionResult::Continue),
        ),
{
}

/// A `FOR` never hands on an exit that is meant for a `FOR`, nor the signal
/// that it has counted to its end: it ends quietly on both.
pub proof fn lemma_for_keeps_its_exit<F: ScopeValue>(
    statement: ForStatement,
    scope: ScopeView<F>,
    output: Seq<char>,
    limit: nat,
)
    ensures
        statement.run(scope, output, limit).result != Ok::<ExecutionResult, Fault>(
            ExecutionResult::Exit(ExitReason::For),
        ),
        statement.run(scope, output, limit).result != Ok::<ExecutionResult, Fault>(
            ExecutionResult::ForCompleted,
        ),
{
    let (after, result) = assigned(
        &statement.assignment.variable,
        &statement.assignment.value,
        scope,
    );
    if let Ok(target) = statement.target.integer_value(after) {
        if let Ok(step) = statement.step_integer(after) {
            lemma_integer_rounds_keep_exit(statement, target, step, after, output, limit);
        }
    }
    if let Ok(target) = statement.target.float_value(after) {
        if let Ok(step) = statement.step_float(after) {
            lemma_float_rounds_keep_exit(statement, target, step, after, output, limit);
        }
    }
}

proof fn lemma_integer_rounds_keep_exit<F: ScopeValue>(
    statement: ForStatement,
    target: Integer,
    step: Integer,
    scope: ScopeView<F>,
    output: Seq<char>,
    limit: nat,
)
    ensures
        statement.rounds_integer(target, step, scope, output, limit).result != Ok::<
            ExecutionResult,
            Fault,
        >(ExecutionResult::Exit(ExitReason::For)),
        statement.rounds_integer(target, step, scope, output, limit).result != Ok::<
            ExecutionResult,
            Fault,
        >(ExecutionResult::ForCompleted),
    decreases limit,
{
    if limit > 0 {
        let round = statement.round_integer(target, step, scope, output, (limit - 1) as nat);
        lemma_integer_rounds_keep_exit(
            statement,
            target,
            step,
            round.scope,
            round.output,
            (limit - 1) as nat,
        );
    }
}

proof fn lemma_float_rounds_keep_exit<F: ScopeValue>(
    statement: ForStatement,
    target: F,
    step: F,
    scope: ScopeView<F>,
    output: Seq<char>,
    limit: nat,
)
    ensures
        statement.rounds_float(target, step, scope, output, limit).result != Ok::<
            ExecutionResult,
            Fault,
        >(ExecutionResult::Exit(ExitReason::For)),
        statement.rounds_float(target, step, scope, output, limit).result != Ok::<
            ExecutionResult,
            Fault,
        >(ExecutionResult::ForCompleted),
    decreases limit,
{
    if limit > 0 {
        let round = statement.round_float(target, step, scope, output, (limit - 1) as nat);
        lemma_float_rounds_keep_exit(
            statement,
            target,
            step,
            round.scope,
            round.output,
            (limit - 1) as nat,
        );
    }
}

/// A `WHILE` never hands on an exit that is meant for a `WHILE`: it ends
/// quietly on it.
pub proof fn lemma_while_keeps_its_exit<F: ScopeValue>(
    statement: WhileStatement,
    scope: ScopeView<F>,
    output: Seq<char>,
    limit: nat,
)
    ensures
        statement.run(scope, output, limit).result != Ok::<ExecutionResult, Fault>(
            ExecutionResult::Exit(ExitReason::While),
        ),
        statement.run(scope, output, limit).result != Ok::<ExecutionResult, Fault>(
            ExecutionResult::ForCompleted,
        ),
    decreases limit,
{
    if limit > 0 {
        let round = statement.body.run(scope, output, (limit - 1) as nat);
        lemma_while_keeps_its_exit(statement, round.scope, round.output, (limit - 1) as nat);
    }
}

/// A `WHILE` whose body asks to leave a `WHILE` ends there, quietly: it
/// stands where the body left off and asks for nothing.
pub proof fn lemma_while_ends_on_its_exit<F: ScopeValue>(
    statement: WhileStatement,
    scope: ScopeView<F>,
    output: Seq<char>,
    limit: nat,
)
    requires
        limit > 0,
        statement.condition.truth(scope) == Ok::<bool, Fault>(true),
        statement.body.run(scope, output, (limit - 1) as nat).result == Ok::<
            ExecutionResult,
            Fault,
        >(ExecutionResult::Exit(ExitReason::While)),
    ensures
        statement.run(scope, output, limit) == ran(
            statement.body.run(scope, output, (limit - 1) as nat).scope,
            statement.body.run(scope, output, (limit - 1) as nat).output,
            Ok(ExecutionResult::Continue),
        ),
{
    assert(spec_after_round(ExitReason::While, ExecutionResult::Exit(ExitReason::While)) == Some(
        Ok::<ExecutionResult, Fault>(ExecutionResult::Continue),
    ));
}

/// A `FOR` whose body asks to leave a `FOR` ends there, quietly: it stands
/// where the body left off, its variable not moved on, and asks for nothing.
pub proof fn lemma_for_ends_on_its_exit<F: ScopeValue>(
    statement: ForStatement,
    target: Integer,
    step: Integer,
    scope: ScopeView<F>,
    output: Seq<char>,
    limit: nat,
)
    requires
        limit > 0,
        statement.body.run(scope, output, (limit - 1) as nat).result == Ok::<
            ExecutionResult,
            Fault,
        >(ExecutionResult::Exit(ExitReason::For)),
    ensures
        statement.rounds_integer(target, step, scope, output, limit) == ran(
            statement.body.run(scope, output, (limit - 1) as nat).scope,
            statement.body.run(scope, output, (limit - 1) as nat).output,
            Ok(ExecutionResult::Continue),
        ),
{
    let body = statement.body.run(scope, output, (limit - 1) as nat);
    let round = statement.round_integer(target, step, scope, output, (limit - 1) as nat);
    assert(round == body);
    assert(spec_after_round(ExitReason::For, ExecutionResult::Exit(ExitReason::For)) == Some(
        Ok::<ExecutionResult, Fault>(ExecutionResult::Continue),
    ));
}

/// A `WHILE` whose body asks to leave a `FOR` hands that exit on as it
/// came, and stands where the body left off.
pub proof fn lemma_while_hands_on_exit_for<F: ScopeValue>(
    statement: WhileStatement,
    scope: ScopeView<F>,
    output: Seq<char>,
    limit: nat,
)
    requires
        limit > 0,
        statement.condition.truth(scope) == Ok::<bool, Fault>(true),
        statement.body.run(scope, output, (limit - 1) as nat).result == Ok::<
            ExecutionResult,
            Fault,
        >(ExecutionResult::Exit(ExitReason::For)),
    ensures
        statement.run(scope, output, limit) == statement.body.run(
            scope,
            output,
            (limit - 1) as nat,
        ),
{
}

/// A `FOR` over whole numbers whose body asks to leave a `WHILE` hands that
/// exit on as it came, and stands where the body left off.
pub proof fn lemma_for_hands_on_exit_while<F: ScopeValue>(
    statement: ForStatement,
    target: Integer,
    step: Integer,
    scope: ScopeView<F>,
    output: Seq<char>,
    limit: nat,
)
    requires
        limit > 0,
        statement.body.run(scope, output, (limit - 1) as nat).result == Ok::<
            ExecutionResult,
            Fault,
        >(ExecutionResult::Exit(ExitReason::While)),
    ensures
        statement.rounds_integer(target, step, scope, output, limit) == statement.body.run(
            scope,
            output,
            (limit - 1) as nat,
        ),
{
    let body = statement.body.run(scope, output, (limit - 1) as nat);
    let round = statement.round_integer(target, step, scope, output, (limit - 1) as nat);
    assert(round == body);
    assert(spec_after_round(ExitReason::For, ExecutionResult::Exit(ExitReason::While)) == Some(
        Ok::<ExecutionResult, Fault>(ExecutionResult::Exit(ExitReason::While)),
    ));
}

/// A `FOR` over floats whose body asks to leave a `WHILE` hands that exit
/// on as it came, and stands where the body left off.
pub proof fn lemma_float_for_hands_on_exit_while<F: ScopeValue>(
    statement: ForStatement,
    target: F,
    step: F,
    scope: ScopeView<F>,
    output: Seq<char>,
    limit: nat,
)
    requires
        limit > 0,
        statement.body.run(scope, output, (limit - 1) as nat).result == Ok::<
            ExecutionResult,
            Fault,
        >(ExecutionResult::Exit(ExitReason::While)),
    ensures
        statement.rounds_float(target, step, scope, output, limit) == statement.body.run(
            scope,
            output,
            (limit - 1) as nat,
        ),
{
    let body = statement.body.run(scope, output, (limit - 1) as nat);
    let round = statement.round_float(target, step, scope, output, (limit - 1) as nat);
    assert(round == body);
    assert(spec_after_round(ExitReason::For, ExecutionResult::Exit(ExitReason::While)) == Some(
        Ok::<ExecutionResult, Fault>(ExecutionResult::Exit(ExitReason::While)),
    ));
}

/// Whether the body of a `FOR`, run with an allowance of at least `least`,
/// never fails, never asks for an exit, and leaves the loop's variable as it
/// found it.
#[verifier::opaque]
pub open spec fn quiet_body<F: ScopeValue>(statement: ForStatement, least: nat) -> bool {
    forall|scope: ScopeView<F>, output: Seq<char>, limit: nat|
        limit >= least ==> {
            let body = #[trigger] statement.body.run(scope, output, limit);
            &&& body.result == Ok::<ExecutionResult, Fault>(ExecutionResult::Continue)
            &&& scope.ints.contains_key(statement.assignment.variable.name@)
                ==> body.scope.integer(statement.assignment.variable.name@) == scope.integer(
                statement.assignment.variable.name@,
            )
        }
}

/// Where a `FOR` over whole numbers stands after its body ran for the
/// values `first`, `first + step`, ... up to `first + n * step` of its
/// variable, the step added between the runs and not after the last.
pub open spec fn swept<F: ScopeValue>(
    statement: ForStatement,
    first: Integer,
    step: Integer,
    scope: ScopeView<F>,
    output: Seq<char>,
    limit: nat,
    n: nat,
) -> Run<F>
    decreases n,
{
    let body = statement.body.run(
        scope.set_int(statement.assignment.variable.name@, first),
        output,
        (limit - 1) as nat,
    );
    if n == 0 {
        body
    } else {
        swept(
            statement,
            (first + step) as Integer,
            step,
            body.scope,
            body.output,
            (limit - 1) as nat,
            (n - 1) as nat,
        )
    }
}

/// A body that is quiet from one allowance on is quiet from any larger one.
proof fn lemma_quiet_body_holds_above<F: ScopeValue>(
    statement: ForStatement,
    least: nat,
    more: nat,
)
    requires
        quiet_body::<F>(statement, least),
        least <= more,
    ensures
        quiet_body::<F>(statement, more),
{
    reveal(quiet_body);
}

/// One round of a `FOR` over whole numbers with a quiet body: the body runs,
/// and the variable moves on by the step unless that would take it beyond
/// the target.
proof fn lemma_quiet_round<F: ScopeValue>(
    statement: ForStatement,
    first: Integer,
    target: Integer,
    step: Integer,
    scope: ScopeView<F>,
    output: Seq<char>,
    limit: nat,
)
    requires
        quiet_body::<F>(statement, limit),
        i64::MIN <= first + step <= i64::MAX,
    ensures
        ({
            let name = statement.assignment.variable.name@;
            let body = statement.body.run(scope.set_int(name, first), output, limit);
            statement.round_integer(target, step, scope.set_int(name, first), output, limit)
                == if first + step > target {
                ran(body.scope, body.output, Ok(ExecutionResult::ForCompleted))
            } else {
                ran(
                    body.scope.set_int(name, (first + step) as Integer),
                    body.output,
                    Ok(ExecutionResult::Continue),
                )
            }
        }),
        statement.body.run(
            scope.set_int(statement.assignment.variable.name@, first),
            output,
            limit,
        ).scope.integer(statement.assignment.variable.name@) == Ok::<Integer, Fault>(first),
{
    reveal(quiet_body);
    let name = statement.assignment.variable.name@;
    let start = scope.set_int(name, first);
    let body = statement.body.run(start, output, limit);
    assert(start.ints.contains_key(name));
    assert(start.integer(name) == Ok::<Integer, Fault>(first));
    assert(body.scope.integer(name) == Ok::<Integer, Fault>(first));
    assert(first.spec_plus(step) == first + step);
}

/// A `FOR` over whole numbers from `first` to `target` with a step of at
/// least one runs its body once for each value of the arithmetic sequence
/// `first`, `first + step`, `first + 2 * step`, ... that is not beyond the
/// target, in that order, and then ends quietly with its variable at the last
/// of them: provided that the body is quiet within the allowances that the
/// rounds leave it, that the first value is not beyond the target, that the
/// sequence stays within the 64-bit range and that the allowance covers the
/// rounds.
pub proof fn lemma_for_counts<F: ScopeValue>(
    statement: ForStatement,
    first: Integer,
    target: Integer,
    step: Integer,
    scope: ScopeView<F>,
    output: Seq<char>,
    limit: nat,
    n: nat,
)
    requires
        n < limit,
        quiet_body::<F>(statement, (limit - 1 - n) as nat),
        step >= 1,
        first + n * step <= target < first + (n + 1) * step,
        target + step <= i64::MAX,
    ensures
        statement.rounds_integer(
            target,
            step,
            scope.set_int(statement.assignment.variable.name@, first),
            output,
            limit,
        ) == ran(
            swept(statement, first, step, scope, output, limit, n).scope,
            swept(statement, first, step, scope, output, limit, n).output,
            Ok(ExecutionResult::Continue),
        ),
        swept(statement, first, step, scope, output, limit, n).scope.integer(
            statement.assignment.variable.name@,
        ) == Ok::<Integer, Fault>((first + n * step) as Integer),
    decreases n,
{
    let name = statement.assignment.variable.name@;
    let start = scope.set_int(name, first);
    let body = statement.body.run(start, output, (limit - 1) as nat);
    lemma_quiet_body_holds_above::<F>(statement, (limit - 1 - n) as nat, (limit - 1) as nat);
    lemma_quiet_round(statement, first, target, step, scope, output, (limit - 1) as nat);
    let round = statement.round_integer(target, step, start, output, (limit - 1) as nat);
    let next = first + step;
    if n == 0 {
        assert(first + n * step == first && first + (n + 1) * step == first + step)
            by (nonlinear_arith)
            requires
                n == 0,
        ;
        assert(round == ran(body.scope, body.output, Ok(ExecutionResult::ForCompleted)));
        assert(swept(statement, first, step, scope, output, limit, n) == body);
        assert(spec_after_round(ExitReason::For, ExecutionResult::ForCompleted) == Some(
            Ok::<ExecutionResult, Fault>(ExecutionResult::Continue),
        ));
        assert(statement.rounds_integer(target, step, start, output, limit) == ran(
            round.scope,
            round.output,
            Ok(ExecutionResult::Continue),
        ));
    } else {
        let m = (n - 1) as nat;
        assert(first + n * step == next + m * step && first + (n + 1) * step == next + (m + 1)
            * step && m * step >= 0) by (nonlinear_arith)
            requires
                n >= 1,
                m == n - 1,
                next == first + step,
                step >= 1,
        ;
        assert(round == ran(
            body.scope.set_int(name, next as Integer),
            body.output,
            Ok(ExecutionResult::Continue),
        ));
        assert(spec_after_round(ExitReason::For, ExecutionResult::Continue) is None);
        assert(statement.rounds_integer(target, step, start, output, limit)
            == statement.rounds_integer(
            target,
            step,
            round.scope,
            round.output,
            (limit - 1) as nat,
        ));
        lemma_for_counts(
            statement,
            next as Integer,
            target,
            step,
            body.scope,
            body.output,
            (limit - 1) as nat,
            m,
        );
        assert(swept(statement, first, step, scope, output, limit, n) == swept(
            statement,
            next as Integer,
            step,
            body.scope,
            body.output,
            (limit - 1) as nat,
            m,
        ));
    }
}

/// A `FOR` statement over a whole-number variable, `FOR i% = first TO
/// target STEP step`, runs its body once for each value of the arithmetic
/// sequence `first`, `first + step`, ... that is not beyond the target, and
/// ends quietly with the variable at the last of them, under the conditions
/// of [`lemma_for_counts`]. A statement without `STEP` counts by one.
pub proof fn lemma_for_statement_counts<F: ScopeValue>(
    statement: ForStatement,
    first: Integer,
    target: Integer,
    step: Integer,
    scope: ScopeView<F>,
    output: Seq<char>,
    limit: nat,
    n: nat,
)
    requires
        statement.assignment.variable.natural_type() == DataType::Integer,
        statement.assignment.value.integer_value(scope) == Ok::<Integer, Fault>(first),
        statement.target.integer_value(
            scope.set_int(statement.assignment.variable.name@, first),
        ) == Ok::<Integer, Fault>(target),
        statement.step_integer(scope.set_int(statement.assignment.variable.name@, first)) == Ok::<
            Integer,
            Fault,
        >(step),
        n < limit,
        quiet_body::<F>(statement, (limit - 1 - n) as nat),
        step >= 1,
        first + n * step <= target < first + (n + 1) * step,
        target + step <= i64::MAX,
    ensures
        statement.run(scope, output, limit) == ran(
            swept(statement, first, step, scope, output, limit, n).scope,
            swept(statement, first, step, scope, output, limit, n).output,
            Ok(ExecutionResult::Continue),
        ),
        swept(statement, first, step, scope, output, limit, n).scope.integer(
            statement.assignment.variable.name@,
        ) == Ok::<Integer, Fault>((first + n * step) as Integer),
        statement.step is None ==> step == 1,
{
    let name = statement.assignment.variable.name@;
    let start = scope.set_int(name, first);
    assert(assigned(&statement.assignment.variable, &statement.assignment.value, scope) == (
        start,
        Ok::<ExecutionResult, Fault>(ExecutionResult::Continue),
    ));
    assert(statement.run(scope, output, limit) == statement.loop_integer(start, output, limit));
    assert(statement.loop_integer(start, output, limit) == statement.rounds_integer(
        target,
        step,
        start,
        output,
        limit,
    ));
    lemma_for_counts(statement, first, target, step, scope, output, limit, n);
}

/// The value of a float loop variable in round `k`, counted from zero: the
/// first value with the step added `k` times by the float kind's own sum.
pub open spec fn float_count<F: ScopeValue>(first: F, step: F, k: nat) -> F
    decreases k,
{
    if k == 0 {
        first
    } else {
        float_count(first.spec_plus(step), step, (k - 1) as nat)
    }
}

/// Whether the body of a `FOR` over floats, run with an allowance of at
/// least `least`, never fails, never asks for an exit, and leaves the loop's
/// variable as it found it.
#[verifier::opaque]
pub open spec fn quiet_float_body<F: ScopeValue>(statement: ForStatement, least: nat) -> bool {
    forall|scope: ScopeView<F>, output: Seq<char>, limit: nat|
        limit >= least ==> {
            let body = #[trigger] statement.body.run(scope, output, limit);
            &&& body.result == Ok::<ExecutionResult, Fault>(ExecutionResult::Continue)
            &&& scope.floats.contains_key(statement.assignment.variable.name@)
                ==> body.scope.float(statement.assignment.variable.name@) == scope.float(
                statement.assignment.variable.name@,
            )
        }
}

/// Where a `FOR` over floats stands after its body ran for the first
/// `n + 1` values of its variable, the step added between the runs and not
/// after the last.
pub open spec fn swept_float<F: ScopeValue>(
    statement: ForStatement,
    first: F,
    step: F,
    scope: ScopeView<F>,
    output: Seq<char>,
    limit: nat,
    n: nat,
) -> Run<F>
    decreases n,
{
    let body = statement.body.run(
        scope.set_float(statement.assignment.variable.name@, first),
        output,
        (limit - 1) as nat,
    );
    if n == 0 {
        body
    } else {
        swept_float(
            statement,
            first.spec_plus(step),
            step,
            body.scope,
            body.output,
            (limit - 1) as nat,
            (n - 1) as nat,
        )
    }
}

/// A `FOR` over floats runs its body once for each value of the sequence
/// `first`, `first + step`, `first + step + step`, ... up to the last whose
/// successor is beyond the target, in that order, and then ends quietly with
/// its variable at that last value. The sums and the order are the float
/// kind's own. The body is to be quiet within the allowances that the rounds
/// leave it, and the allowance is to cover the rounds.
pub proof fn lemma_float_for_counts<F: ScopeValue>(
    statement: ForStatement,
    first: F,
    target: F,
    step: F,
    scope: ScopeView<F>,
    output: Seq<char>,
    limit: nat,
    n: nat,
)
    requires
        n < limit,
        quiet_float_body::<F>(statement, (limit - 1 - n) as nat),
        forall|k: nat| 1 <= k <= n ==> !target.spec_less_than(#[trigger] float_count(first, step, k)),
        target.spec_less_than(float_count(first, step, n + 1)),
    ensures
        statement.rounds_float(
            target,
            step,
            scope.set_float(statement.assignment.variable.name@, first),
            output,
            limit,
        ) == ran(
            swept_float(statement, first, step, scope, output, limit, n).scope,
            swept_float(statement, first, step, scope, output, limit, n).output,
            Ok(ExecutionResult::Continue),
        ),
        swept_float(statement, first, step, scope, output, limit, n).scope.float(
            statement.assignment.variable.name@,
        ) == Ok::<F, Fault>(float_count(first, step, n)),
    decreases n,
{
    let name = statement.assignment.variable.name@;
    let start = scope.set_float(name, first);
    let body = statement.body.run(start, output, (limit - 1) as nat);
    let next = first.spec_plus(step);
    assert(body.result == Ok::<ExecutionResult, Fault>(ExecutionResult::Continue)
        && body.scope.float(name) == Ok::<F, Fault>(first)) by {
        reveal(quiet_float_body);
        assert(start.floats.contains_key(name));
        assert(start.float(name) == Ok::<F, Fault>(first));
    }
    assert(float_count(first, step, 1) == next) by {
        assert(float_count(next, step, 0) == next);
    }
    let round = statement.round_float(target, step, start, output, (limit - 1) as nat);
    if n == 0 {
        assert(target.spec_less_than(next));
        assert(round == ran(body.scope, body.output, Ok(ExecutionResult::ForCompleted)));
        assert(swept_float(statement, first, step, scope, output, limit, n) == body);
        assert(spec_after_round(ExitReason::For, ExecutionResult::ForCompleted) == Some(
            Ok::<ExecutionResult, Fault>(ExecutionResult::Continue),
        ));
        assert(statement.rounds_float(target, step, start, output, limit) == ran(
            round.scope,
            round.output,
            Ok(ExecutionResult::Continue),
        ));
    } else {
        let m = (n - 1) as nat;
        assert(!target.spec_less_than(float_count(first, step, 1)));
        assert(round == ran(
            body.scope.set_float(name, next),
            body.output,
            Ok(ExecutionResult::Continue),
        ));
        assert(spec_after_round(ExitReason::For, ExecutionResult::Continue) is None);
        assert(statement.rounds_float(target, step, start, output, limit)
            == statement.rounds_float(
            target,
            step,
            round.scope,
            round.output,
            (limit - 1) as nat,
        ));
        assert forall|k: nat| 1 <= k <= m implies !target.spec_less_than(
            #[trigger] float_count(next, step, k),
        ) by {
            assert(float_count(first, step, k + 1) == float_count(next, step, k));
        }
        assert(float_count(first, step, n + 1) == float_count(next, step, m + 1));
        assert(float_count(first, step, n) == float_count(next, step, m));
        assert(quiet_float_body::<F>(statement, ((limit - 1) - 1 - m) as nat));
        lemma_float_for_counts(
            statement,
            next,
            target,
            step,
            body.scope,
            body.output,
            (limit - 1) as nat,
            m,
        );
        assert(swept_float(statement, first, step, scope, output, limit, n) == swept_float(
            statement,
            next,
            step,
            body.scope,
            body.output,
            (limit - 1) as nat,
            m,
        ));
    }
}

} // verus!
