use bbbasic::error::InterpreterError;
use bbbasic::interpreter::ExecutionResult;
use bbbasic::kind::{DataType, DataTypeQuery, Integer, One, ScopeValue};
use bbbasic::syntax::{
    Assignment, Block, Expression, Factor, FloatLiteral, ForAssignment, ForStatement, ForStep,
    IntegerLiteral, NumberLiteral, NumberLiteralValue, NumericVariable, PrintListItem,
    PrintListItemValue, PrintStatement, Program, Statement, StringLiteral, Term, TypeDenominator,
};

/// The float kind of these tests: the machine's double.
#[derive(Clone, Copy, Debug, PartialEq)]
struct Real(f64);

impl One for Real {
    fn spec_one() -> Real {
        Real(1.0)
    }

    fn one() -> Real {
        Real(1.0)
    }
}

impl DataTypeQuery for Real {
    fn spec_get_type() -> DataType {
        DataType::Float
    }

    fn get_type() -> DataType {
        DataType::Float
    }
}

impl ScopeValue for Real {
    fn spec_plus(self, rhs: Real) -> Real {
        Real(self.0 + rhs.0)
    }

    fn plus(self, rhs: Real) -> Real {
        Real(self.0 + rhs.0)
    }

    fn spec_minus(self, rhs: Real) -> Real {
        Real(self.0 - rhs.0)
    }

    fn minus(self, rhs: Real) -> Real {
        Real(self.0 - rhs.0)
    }

    fn spec_times(self, rhs: Real) -> Real {
        Real(self.0 * rhs.0)
    }

    fn times(self, rhs: Real) -> Real {
        Real(self.0 * rhs.0)
    }

    fn spec_over(self, rhs: Real) -> Option<Real> {
        Some(Real(self.0 / rhs.0))
    }

    fn over(self, rhs: Real) -> Option<Real> {
        Some(Real(self.0 / rhs.0))
    }

    fn spec_equals(self, rhs: Real) -> bool {
        self.0 == rhs.0
    }

    fn equals(self, rhs: Real) -> bool {
        self.0 == rhs.0
    }

    fn spec_less_than(self, rhs: Real) -> bool {
        self.0 < rhs.0
    }

    fn less_than(self, rhs: Real) -> bool {
        self.0 < rhs.0
    }

    fn spec_from_integer(value: Integer) -> Real {
        Real(value as f64)
    }

    fn from_integer(value: Integer) -> Real {
        Real(value as f64)
    }

    fn spec_to_integer(self) -> Integer {
        self.0 as Integer
    }

    fn to_integer(self) -> Integer {
        self.0 as Integer
    }

    fn spec_parse(text: &String) -> Option<Real> {
        text.parse::<f64>().ok().map(Real)
    }

    fn parse(text: &String) -> Option<Real> {
        text.parse::<f64>().ok().map(Real)
    }

    fn spec_render(self) -> String {
        format!("{}", self.0)
    }

    fn render(self) -> String {
        format!("{}", self.0)
    }
}

/// A number as the program writes it: with a point a float, else a whole number.
fn num(text: &str) -> Expression {
    let value = if text.contains('.') {
        NumberLiteralValue::FloatLiteral(FloatLiteral { body: text.to_string() })
    } else {
        NumberLiteralValue::IntegerLiteral(IntegerLiteral { body: text.to_string() })
    };
    Expression::Term(Term::Factor(Factor::NumberLiteral(NumberLiteral { value })))
}

/// A variable as the program writes it: `%` ends a whole number, `#` a float,
/// `&` a byte.
fn variable(text: &str) -> NumericVariable {
    let (name, type_dem) = if let Some(name) = text.strip_suffix('%') {
        (name, Some(TypeDenominator::IntegerDenominator))
    } else if let Some(name) = text.strip_suffix('#') {
        (name, Some(TypeDenominator::FloatDenominator))
    } else if let Some(name) = text.strip_suffix('&') {
        (name, Some(TypeDenominator::ByteDenominator))
    } else {
        (text, None)
    };
    NumericVariable { name: name.to_string(), type_dem }
}

fn var(text: &str) -> Expression {
    Expression::Term(Term::Factor(Factor::NumericVariable(variable(text))))
}

fn quoted(text: &str) -> StringLiteral {
    StringLiteral { body: text.to_string() }
}

fn shows(e: Expression) -> PrintListItem {
    PrintListItem { value: PrintListItemValue::Expression(e), sep: None }
}

fn shows_text(text: &str) -> PrintListItem {
    PrintListItem { value: PrintListItemValue::StringLiteral(quoted(text)), sep: None }
}

fn print(list: Vec<PrintListItem>) -> Statement {
    Statement::PrintStatement(PrintStatement { list })
}

fn assign(target: &str, value: Expression) -> Statement {
    Statement::Assignment(Assignment { variable: variable(target), value })
}

fn for_next(
    target: &str,
    from: Expression,
    to: Expression,
    step: Option<Expression>,
    body: Vec<Statement>,
) -> Statement {
    Statement::ForStatement(ForStatement {
        assignment: ForAssignment { variable: variable(target), value: from },
        target: to,
        step: step.map(|value| ForStep { value }),
        body: Block { statements: body },
    })
}

fn program(statements: Vec<Statement>) -> Program {
    Program { body: Block { statements } }
}

/// Runs a program and hands back what it printed and how it ended.
fn run(statements: Vec<Statement>) -> (String, Result<ExecutionResult, InterpreterError>) {
    let mut out = String::new();
    let result = program(statements).execute::<Real>(&mut out);
    (out, result)
}

/// Runs a program that is expected to end without an error.
fn output_of(statements: Vec<Statement>) -> String {
    let (out, result) = run(statements);
    result.expect("Execution failed");
    out
}

#[test]
fn prints_integers() {
    // PRINT 12
    let mut out = String::new();
    let result = bbbasic::execute::<Real>(&program(vec![print(vec![shows(num("12"))])]), &mut out);
    assert!(matches!(result, Ok(ExecutionResult::Continue)));
    assert_eq!(out, "12\n");
}

#[test]
fn prints_strings() {
    // PRINT "Hello, World!"
    let mut out = String::new();
    let result =
        bbbasic::execute::<Real>(&program(vec![print(vec![shows_text("Hello, World!")])]), &mut out);
    assert!(matches!(result, Ok(ExecutionResult::Continue)));
    assert_eq!(out, "Hello, World!\n");
}

#[test]
fn main_for_loops() {
    // FOR i = 1 TO 10
    // PRINT i
    // NEXT i
    let mut out = String::new();
    let body = vec![print(vec![shows(var("i"))])];
    let result = bbbasic::execute::<Real>(
        &program(vec![for_next("i", num("1"), num("10"), None, body)]),
        &mut out,
    );
    assert!(matches!(result, Ok(ExecutionResult::Continue)));
    assert_eq!(out, "1\n2\n3\n4\n5\n6\n7\n8\n9\n10\n");
}

#[test]
fn for_loops_for_loops() {
    // FOR i = 1 TO 4
    // PRINT i
    // NEXT i
    let body = vec![print(vec![shows(var("i"))])];
    let out = output_of(vec![for_next("i", num("1"), num("4"), None, body)]);
    assert_eq!(out, ["1", "2", "3", "4", ""].join("\n"));
}

#[test]
fn for_loops_for_loop_with_step() {
    // FOR i = 1 TO 8 STEP 2
    // PRINT i
    // NEXT i
    let body = vec![print(vec![shows(var("i"))])];
    let out = output_of(vec![for_next("i", num("1"), num("8"), Some(num("2")), body)]);
    assert_eq!(out, ["1", "3", "5", "7", ""].join("\n"));
}

#[test]
fn for_loop_with_step_from_var() {
    // s = 2
    // FOR i = 1 TO 8 STEP s
    // PRINT i
    // NEXT i
    let body = vec![print(vec![shows(var("i"))])];
    let out = output_of(vec![
        assign("s", num("2")),
        for_next("i", num("1"), num("8"), Some(var("s")), body),
    ]);
    assert_eq!(out, ["1", "3", "5", "7", ""].join("\n"));
}
