use bbbasic::error::InterpreterError;
use bbbasic::interpreter::ExecutionResult;
use bbbasic::kind::{DataType, DataTypeQuery, Integer, One, ScopeValue};
use bbbasic::scope::Scope;
use bbbasic::syntax::{
    Assignment, Block, Div, Expression, Factor, FloatLiteral, Group, IntegerLiteral,
    NumberLiteral, NumberLiteralValue, NumericVariable, PrintListItem, PrintListItemValue,
    PrintStatement, Program, Statement, StringAssignment, StringLiteral, StringVariable, Term,
    TypeDenominator,
};

/// The float kind of these tests: the machine's double.
#[derive(Clone, Copy, Debug, PartialEq)]
struct Real(f64);

impl One for Real {
    fn spec_one() -> Real {
        Real(1.0)
    }

    fn one() -> Real {
        Real(1.0)
    }
}

impl DataTypeQuery for Real {
    fn spec_get_type() -> DataType {
        DataType::Float
    }

    fn get_type() -> DataType {
        DataType::Float
    }
}

impl ScopeValue for Real {
    fn spec_plus(self, rhs: Real) -> Real {
        Real(self.0 + rhs.0)
    }

    fn plus(self, rhs: Real) -> Real {
        Real(self.0 + rhs.0)
    }

    fn spec_minus(self, rhs: Real) -> Real {
        Real(self.0 - rhs.0)
    }

    fn minus(self, rhs: Real) -> Real {
        Real(self.0 - rhs.0)
    }

    fn spec_times(self, rhs: Real) -> Real {
        Real(self.0 * rhs.0)
    }

    fn times(self, rhs: Real) -> Real {
        Real(self.0 * rhs.0)
    }

    fn spec_over(self, rhs: Real) -> Option<Real> {
        Some(Real(self.0 / rhs.0))
    }

    fn over(self, rhs: Real) -> Option<Real> {
        Some(Real(self.0 / rhs.0))
    }

    fn spec_equals(self, rhs: Real) -> bool {
        self.0 == rhs.0
    }

    fn equals(self, rhs: Real) -> bool {
        self.0 == rhs.0
    }

    fn spec_less_than(self, rhs: Real) -> bool {
        self.0 < rhs.0
    }

    fn less_than(self, rhs: Real) -> bool {
        self.0 < rhs.0
    }

    fn spec_from_integer(value: Integer) -> Real {
        Real(value as f64)
    }

    fn from_integer(value: Integer) -> Real {
        Real(value as f64)
    }

    fn spec_to_integer(self) -> Integer {
        self.0 as Integer
    }

    fn to_integer(self) -> Integer {
        self.0 as Integer
    }

    fn spec_parse(text: &String) -> Option<Real> {
        text.parse::<f64>().ok().map(Real)
    }

    fn parse(text: &String) -> Option<Real> {
        text.parse::<f64>().ok().map(Real)
    }

    fn spec_render(self) -> String {
        format!("{}", self.0)
    }

    fn render(self) -> String {
        format!("{}", self.0)
    }
}

/// A number as the program writes it: with a point a float, else a whole number.
fn num(text: &str) -> Expression {
    let value = if text.contains('.') {
        NumberLiteralValue::FloatLiteral(FloatLiteral { body: text.to_string() })
    } else {
        NumberLiteralValue::IntegerLiteral(IntegerLiteral { body: text.to_string() })
    };
    Expression::Term(Term::Factor(Factor::NumberLiteral(NumberLiteral { value })))
}

/// A variable as the program writes it: `%` ends a whole number, `#` a float,
/// `&` a byte.
fn variable(text: &str) -> NumericVariable {
    let (name, type_dem) = if let Some(name) = text.strip_suffix('%') {
        (name, Some(TypeDenominator::IntegerDenominator))
    } else if let Some(name) = text.strip_suffix('#') {
        (name, Some(TypeDenominator::FloatDenominator))
    } else if let Some(name) = text.strip_suffix('&') {
        (name, Some(TypeDenominator::ByteDenominator))
    } else {
        (text, None)
    };
    NumericVariable { name: name.to_string(), type_dem }
}

fn var(text: &str) -> Expression {
    Expression::Term(Term::Factor(Factor::NumericVariable(variable(text))))
}

fn term(e: Expression) -> Term {
    match e {
        Expression::Term(t) => t,
        other => Term::Factor(Factor::Group(Group { body: Box::new(other) })),
    }
}

fn div(left: Expression, right: Expression) -> Expression {
    Expression::Term(Term::Div(Div { left: Box::new(term(left)), right: Box::new(term(right)) }))
}

fn quoted(text: &str) -> StringLiteral {
    StringLiteral { body: text.to_string() }
}

fn shows(e: Expression) -> PrintListItem {
    PrintListItem { value: PrintListItemValue::Expression(e), sep: None }
}

fn shows_string(name: &str) -> PrintListItem {
    PrintListItem {
        value: PrintListItemValue::StringVariable(StringVariable { name: name.to_string() }),
        sep: None,
    }
}

fn print(list: Vec<PrintListItem>) -> Statement {
    Statement::PrintStatement(PrintStatement { list })
}

fn assign(target: &str, value: Expression) -> Statement {
    Statement::Assignment(Assignment { variable: variable(target), value })
}

fn assign_text(target: &str, text: &str) -> Statement {
    Statement::StringAssignment(StringAssignment {
        variable: StringVariable { name: target.to_string() },
        value: quoted(text),
    })
}

fn program(statements: Vec<Statement>) -> Program {
    Program { body: Block { statements } }
}

/// Runs a program and hands back what it printed and how it ended.
fn run(statements: Vec<Statement>) -> (String, Result<ExecutionResult, InterpreterError>) {
    let mut out = String::new();
    let result = program(statements).execute::<Real>(&mut out);
    (out, result)
}

/// Runs a program that is expected to end without an error.
fn output_of(statements: Vec<Statement>) -> String {
    let (out, result) = run(statements);
    result.expect("Execution failed");
    out
}

#[test]
fn float_var() {
    // x = 2
    // xyz# = 3
    // PRINT x
    // PRINT xyz#
    let out = output_of(vec![
        assign("x", num("2")),
        assign("xyz#", num("3")),
        print(vec![shows(var("x"))]),
        print(vec![shows(var("xyz#"))]),
    ]);
    assert_eq!(out, "2\n3\n");
}

#[test]
fn int_var() {
    // x% = 2
    // PRINT x%
    let out = output_of(vec![assign("x%", num("2")), print(vec![shows(var("x%"))])]);
    assert_eq!(out, "2\n");
}

#[test]
fn string_var() {
    // x$ = "Yo!"
    // PRINT x$
    let out = output_of(vec![assign_text("x", "Yo!"), print(vec![shows_string("x")])]);
    assert_eq!(out, "Yo!\n");
}

#[test]
fn a_variable_without_suffix_is_a_float() {
    // x = 7 / 2
    // x% = 7 / 2
    let out = output_of(vec![
        assign("x", div(num("7"), num("2"))),
        assign("x%", div(num("7"), num("2"))),
        print(vec![shows(var("x"))]),
        print(vec![shows(var("x%"))]),
        print(vec![shows(var("x#"))]),
    ]);
    assert_eq!(out, "3.5\n3\n3.5\n");
}

#[test]
fn a_name_set_as_a_whole_number_is_unknown_as_a_float() {
    // x% = 2
    // PRINT x
    let (out, result) = run(vec![assign("x%", num("2")), print(vec![shows(var("x"))])]);
    assert_eq!(out, "");
    assert!(matches!(result, Err(InterpreterError::UnknownVariable(name)) if name == "x"));
}

#[test]
fn a_byte_variable_takes_the_low_bits_of_a_whole_number() {
    let mut scope: Scope<Real> = Scope::new();
    scope.set_int(&"n".to_string(), 300);
    scope.set_float(&"f".to_string(), Real(300.7));
    scope.set_float(&"g".to_string(), Real(-3.0));
    let narrow = Assignment { variable: variable("b&"), value: var("n%") };
    narrow.execute(&mut scope).expect("Execution failed");
    assert_eq!(scope.get_byte(&"b".to_string()).unwrap(), 44);
    let clamp = Assignment { variable: variable("c&"), value: var("f") };
    clamp.execute(&mut scope).expect("Execution failed");
    assert_eq!(scope.get_byte(&"c".to_string()).unwrap(), 255);
    let floor = Assignment { variable: variable("d&"), value: var("g") };
    floor.execute(&mut scope).expect("Execution failed");
    assert_eq!(scope.get_byte(&"d".to_string()).unwrap(), 0);
}

#[test]
fn an_assignment_that_fails_leaves_the_scope_as_it_was() {
    let mut scope: Scope<Real> = Scope::new();
    scope.set_int(&"x".to_string(), 5);
    let bad = Assignment { variable: variable("x%"), value: div(num("1"), num("0")) };
    let result = bad.execute(&mut scope);
    assert!(matches!(result, Err(InterpreterError::DivisionByZero)));
    assert_eq!(scope.get_int(&"x".to_string()).unwrap(), 5);
}

#[test]
fn a_byte_literal_is_not_implemented() {
    let mut scope: Scope<Real> = Scope::new();
    let bad = Assignment { variable: variable("b&"), value: num("1") };
    let result = bad.execute(&mut scope);
    assert!(matches!(result, Err(InterpreterError::NotImplemented(_))));
}
