use bbbasic::error::InterpreterError;
use bbbasic::interpreter::{ExecutionResult, ExitReason, after_round};
use bbbasic::kind::{DataType, DataTypeQuery, Integer, One, ScopeValue};
use bbbasic::syntax::{
    Add, Assignment, Block, BoolCondition, BoolConjunction, BoolDisjunction, BoolExpression,
    BoolOperand, BoolOperator, BoolTerm, Expression, Factor, FloatLiteral, ForAssignment,
    ForStatement, ForStep, Group, IfStatement, IntegerLiteral, NumberLiteral, NumberLiteralValue,
    NumericVariable, PrintListItem, PrintListItemValue, PrintStatement, Program, Statement, Term,
    TypeDenominator, WhileStatement,
};

/// The float kind of these tests: the machine's double.
#[derive(Clone, Copy, Debug, PartialEq)]
struct Real(f64);

impl One for Real {
    fn spec_one() -> Real {
        Real(1.0)
    }

    fn one() -> Real {
        Real(1.0)
    }
}

impl DataTypeQuery for Real {
    fn spec_get_type() -> DataType {
        DataType::Float
    }

    fn get_type() -> DataType {
        DataType::Float
    }
}

impl ScopeValue for Real {
    fn spec_plus(self, rhs: Real) -> Real {
        Real(self.0 + rhs.0)
    }

    fn plus(self, rhs: Real) -> Real {
        Real(self.0 + rhs.0)
    }

    fn spec_minus(self, rhs: Real) -> Real {
        Real(self.0 - rhs.0)
    }

    fn minus(self, rhs: Real) -> Real {
        Real(self.0 - rhs.0)
    }

    fn spec_times(self, rhs: Real) -> Real {
        Real(self.0 * rhs.0)
    }

    fn times(self, rhs: Real) -> Real {
        Real(self.0 * rhs.0)
    }

    fn spec_over(self, rhs: Real) -> Option<Real> {
        Some(Real(self.0 / rhs.0))
    }

    fn over(self, rhs: Real) -> Option<Real> {
        Some(Real(self.0 / rhs.0))
    }

    fn spec_equals(self, rhs: Real) -> bool {
        self.0 == rhs.0
    }

    fn equals(self, rhs: Real) -> bool {
        self.0 == rhs.0
    }

    fn spec_less_than(self, rhs: Real) -> bool {
        self.0 < rhs.0
    }

    fn less_than(self, rhs: Real) -> bool {
        self.0 < rhs.0
    }

    fn spec_from_integer(value: Integer) -> Real {
        Real(value as f64)
    }

    fn from_integer(value: Integer) -> Real {
        Real(value as f64)
    }

    fn spec_to_integer(self) -> Integer {
        self.0 as Integer
    }

    fn to_integer(self) -> Integer {
        self.0 as Integer
    }

    fn spec_parse(text: &String) -> Option<Real> {
        text.parse::<f64>().ok().map(Real)
    }

    fn parse(text: &String) -> Option<Real> {
        text.parse::<f64>().ok().map(Real)
    }

    fn spec_render(self) -> String {
        format!("{}", self.0)
    }

    fn render(self) -> String {
        format!("{}", self.0)
    }
}

/// A number as the program writes it: with a point a float, else a whole number.
fn num(text: &str) -> Expression {
    let value = if text.contains('.') {
        NumberLiteralValue::FloatLiteral(FloatLiteral { body: text.to_string() })
    } else {
        NumberLiteralValue::IntegerLiteral(IntegerLiteral { body: text.to_string() })
    };
    Expression::Term(Term::Factor(Factor::NumberLiteral(NumberLiteral { value })))
}

/// A variable as the program writes it: `%` ends a whole number, `#` a float,
/// `&` a byte.
fn variable(text: &str) -> NumericVariable {
    let (name, type_dem) = if let Some(name) = text.strip_suffix('%') {
        (name, Some(TypeDenominator::IntegerDenominator))
    } else if let Some(name) = text.strip_suffix('#') {
        (name, Some(TypeDenominator::FloatDenominator))
    } else if let Some(name) = text.strip_suffix('&') {
        (name, Some(TypeDenominator::ByteDenominator))
    } else {
        (text, None)
    };
    NumericVariable { name: name.to_string(), type_dem }
}

fn var(text: &str) -> Expression {
    Expression::Term(Term::Factor(Factor::NumericVariable(variable(text))))
}

fn term(e: Expression) -> Term {
    match e {
        Expression::Term(t) => t,
        other => Term::Factor(Factor::Group(Group { body: Box::new(other) })),
    }
}

fn add(left: Expression, right: Expression) -> Expression {
    Expression::Add(Add { left: Box::new(left), right: Box::new(right) })
}

fn compare(left: BoolOperand, op: BoolOperator, right: BoolOperand) -> BoolTerm {
    BoolTerm { expression: None, condition: Some(BoolCondition { left, op, right }) }
}

fn cmp_num(left: Expression, op: BoolOperator, right: Expression) -> BoolTerm {
    compare(BoolOperand::Expression(left), op, BoolOperand::Expression(right))
}

fn all_of(term: Vec<BoolTerm>) -> BoolConjunction {
    BoolConjunction { term }
}

fn any_of(conjunction: Vec<BoolConjunction>) -> BoolExpression {
    BoolExpression { disjunction: BoolDisjunction { conjunction } }
}

fn only(term: BoolTerm) -> BoolExpression {
    any_of(vec![all_of(vec![term])])
}

fn shows(e: Expression) -> PrintListItem {
    PrintListItem { value: PrintListItemValue::Expression(e), sep: None }
}

fn joined(item: PrintListItem) -> PrintListItem {
    PrintListItem { value: item.value, sep: Some(';') }
}

fn print(list: Vec<PrintListItem>) -> Statement {
    Statement::PrintStatement(PrintStatement { list })
}

fn assign(target: &str, value: Expression) -> Statement {
    Statement::Assignment(Assignment { variable: variable(target), value })
}

fn for_next(
    target: &str,
    from: Expression,
    to: Expression,
    step: Option<Expression>,
    body: Vec<Statement>,
) -> Statement {
    Statement::ForStatement(ForStatement {
        assignment: ForAssignment { variable: variable(target), value: from },
        target: to,
        step: step.map(|value| ForStep { value }),
        body: Block { statements: body },
    })
}

fn while_do(condition: BoolExpression, body: Vec<Statement>) -> Statement {
    Statement::WhileStatement(WhileStatement { condition, body: Block { statements: body } })
}

fn when(
    condition: BoolExpression,
    then: Vec<Statement>,
    otherwise: Option<Vec<Statement>>,
) -> Statement {
    Statement::IfStatement(IfStatement {
        condition,
        then_block: Block { statements: then },
        else_block: otherwise.map(|statements| Block { statements }),
    })
}

fn program(statements: Vec<Statement>) -> Program {
    Program { body: Block { statements } }
}

/// Runs a program and hands back what it printed and how it ended.
fn run(statements: Vec<Statement>) -> (String, Result<ExecutionResult, InterpreterError>) {
    let mut out = String::new();
    let result = program(statements).execute::<Real>(&mut out);
    (out, result)
}

/// Runs a program that is expected to end without an error.
fn output_of(statements: Vec<Statement>) -> String {
    let (out, result) = run(statements);
    result.expect("Execution failed");
    out
}

#[test]
fn while_endwhile() {
    // x = 0
    // WHILE x < 5
    // PRINT x
    // x = x + 1
    // ENDWHILE
    let body = vec![print(vec![shows(var("x"))]), assign("x", add(var("x"), num("1")))];
    let out = output_of(vec![
        assign("x", num("0")),
        while_do(only(cmp_num(var("x"), BoolOperator::BoolOpLower, num("5"))), body),
    ]);
    assert_eq!(out, "0\n1\n2\n3\n4\n");
}

#[test]
fn while_endwhile_premature_exit() {
    // x = 0
    // WHILE x < 5
    // PRINT x
    // x = x + 1
    // IF x > 2 THEN
    // EXIT WHILE
    // ENDIF
    // ENDWHILE
    let body = vec![
        print(vec![shows(var("x"))]),
        assign("x", add(var("x"), num("1"))),
        when(
            only(cmp_num(var("x"), BoolOperator::BoolOpGreater, num("2"))),
            vec![Statement::ExitWhileStatement],
            None,
        ),
    ];
    let out = output_of(vec![
        assign("x", num("0")),
        while_do(only(cmp_num(var("x"), BoolOperator::BoolOpLower, num("5"))), body),
    ]);
    assert_eq!(out, "0\n1\n2\n");
}

fn nested(exit: Statement) -> Vec<Statement> {
    // x = 0
    // WHILE x < 3
    //     FOR y = 0 TO 2
    //         PRINT x;y
    //         EXIT ...
    //     NEXT y
    //     x = x + 1
    // ENDWHILE
    let inner = vec![print(vec![joined(shows(var("x"))), shows(var("y"))]), exit];
    let outer = vec![
        for_next("y", num("0"), num("2"), None, inner),
        assign("x", add(var("x"), num("1"))),
    ];
    vec![
        assign("x", num("0")),
        while_do(only(cmp_num(var("x"), BoolOperator::BoolOpLower, num("3"))), outer),
    ]
}

#[test]
fn while_endwhile_nested_exit() {
    let out = output_of(nested(Statement::ExitWhileStatement));
    assert_eq!(out, "00\n");
}

#[test]
fn while_endwhile_exit_in_for() {
    let out = output_of(nested(Statement::ExitForStatement));
    assert_eq!(out, "00\n10\n20\n");
}

#[test]
fn a_while_that_never_ends_uses_up_its_allowance() {
    // WHILE 1 = 1
    // PRINT 0;
    // ENDWHILE
    let body = vec![print(vec![joined(shows(num("0")))])];
    let mut out = String::new();
    let result = program(vec![while_do(
        only(cmp_num(num("1"), BoolOperator::BoolOpEqual, num("1"))),
        body,
    )])
    .execute_within::<Real>(&mut out, 5);
    assert!(matches!(result, Err(InterpreterError::IterationLimit)));
    assert_eq!(out, "00000");
}

#[test]
fn a_while_whose_condition_is_false_costs_no_allowance() {
    let mut out = String::new();
    let result = program(vec![while_do(
        only(cmp_num(num("1"), BoolOperator::BoolOpEqual, num("2"))),
        vec![print(vec![shows(num("0"))])],
    )])
    .execute_within::<Real>(&mut out, 0);
    assert!(matches!(result, Ok(ExecutionResult::Continue)));
    assert_eq!(out, "");
}

#[test]
fn an_exit_for_outside_any_loop_ends_the_program_with_that_signal() {
    let (out, result) = run(vec![
        print(vec![shows(num("1"))]),
        Statement::ExitForStatement,
        print(vec![shows(num("2"))]),
    ]);
    assert_eq!(out, "1\n");
    assert!(matches!(result, Ok(ExecutionResult::Exit(ExitReason::For))));
}

#[test]
fn end_goes_on_with_the_next_statement() {
    let (out, result) = run(vec![Statement::EndStatement, print(vec![shows(num("2"))])]);
    assert_eq!(out, "2\n");
    assert!(matches!(result, Ok(ExecutionResult::Continue)));
}

#[test]
fn what_a_loop_makes_of_a_round() {
    let own = ExitReason::While;
    assert!(after_round(own, ExecutionResult::Continue).is_none());
    assert!(matches!(
        after_round(own, ExecutionResult::Exit(ExitReason::While)),
        Some(Ok(ExecutionResult::Continue))
    ));
    assert!(matches!(
        after_round(own, ExecutionResult::Exit(ExitReason::For)),
        Some(Ok(ExecutionResult::Exit(ExitReason::For)))
    ));
    assert!(matches!(
        after_round(own, ExecutionResult::ForCompleted),
        Some(Err(InterpreterError::OperationUnsupported))
    ));
    let own = ExitReason::For;
    assert!(after_round(own, ExecutionResult::Continue).is_none());
    assert!(matches!(
        after_round(own, ExecutionResult::Exit(ExitReason::For)),
        Some(Ok(ExecutionResult::Continue))
    ));
    assert!(matches!(
        after_round(own, ExecutionResult::Exit(ExitReason::While)),
        Some(Ok(ExecutionResult::Exit(ExitReason::While)))
    ));
    assert!(matches!(
        after_round(own, ExecutionResult::ForCompleted),
        Some(Ok(ExecutionResult::Continue))
    ));
}
