use bbbasic::error::InterpreterError;
use bbbasic::kind::{DataType, DataTypeQuery, Integer, One, ScopeValue};
use bbbasic::scope::Scope;
use bbbasic::syntax::{
    Add, Block, BoolCondition, BoolConjunction, BoolDisjunction, BoolExpression, BoolOperand,
    BoolOperator, BoolTerm, Expression, Factor, FloatLiteral, Group, IntegerLiteral, Mul,
    NumberLiteral, NumberLiteralValue, NumericVariable, Program, Statement, StringLiteral, Term,
    TypeDenominator,
};

/// The float kind of these tests: the machine's double.
#[derive(Clone, Copy, Debug, PartialEq)]
struct Real(f64);

impl One for Real {
    fn spec_one() -> Real {
        Real(1.0)
    }

    fn one() -> Real {
        Real(1.0)
    }
}

impl DataTypeQuery for Real {
    fn spec_get_type() -> DataType {
        DataType::Float
    }

    fn get_type() -> DataType {
        DataType::Float
    }
}

impl ScopeValue for Real {
    fn spec_plus(self, rhs: Real) -> Real {
        Real(self.0 + rhs.0)
    }

    fn plus(self, rhs: Real) -> Real {
        Real(self.0 + rhs.0)
    }

    fn spec_minus(self, rhs: Real) -> Real {
        Real(self.0 - rhs.0)
    }

    fn minus(self, rhs: Real) -> Real {
        Real(self.0 - rhs.0)
    }

    fn spec_times(self, rhs: Real) -> Real {
        Real(self.0 * rhs.0)
    }

    fn times(self, rhs: Real) -> Real {
        Real(self.0 * rhs.0)
    }

    fn spec_over(self, rhs: Real) -> Option<Real> {
        Some(Real(self.0 / rhs.0))
    }

    fn over(self, rhs: Real) -> Option<Real> {
        Some(Real(self.0 / rhs.0))
    }

    fn spec_equals(self, rhs: Real) -> bool {
        self.0 == rhs.0
    }

    fn equals(self, rhs: Real) -> bool {
        self.0 == rhs.0
    }

    fn spec_less_than(self, rhs: Real) -> bool {
        self.0 < rhs.0
    }

    fn less_than(self, rhs: Real) -> bool {
        self.0 < rhs.0
    }

    fn spec_from_integer(value: Integer) -> Real {
        Real(value as f64)
    }

    fn from_integer(value: Integer) -> Real {
        Real(value as f64)
    }

    fn spec_to_integer(self) -> Integer {
        self.0 as Integer
    }

    fn to_integer(self) -> Integer {
        self.0 as Integer
    }

    fn spec_parse(text: &String) -> Option<Real> {
        text.parse::<f64>().ok().map(Real)
    }

    fn parse(text: &String) -> Option<Real> {
        text.parse::<f64>().ok().map(Real)
    }

    fn spec_render(self) -> String {
        format!("{}", self.0)
    }

    fn render(self) -> String {
        format!("{}", self.0)
    }
}

/// A number as the program writes it: with a point a float, else a whole number.
fn num(text: &str) -> Expression {
    let value = if text.contains('.') {
        NumberLiteralValue::FloatLiteral(FloatLiteral { body: text.to_string() })
    } else {
        NumberLiteralValue::IntegerLiteral(IntegerLiteral { body: text.to_string() })
    };
    Expression::Term(Term::Factor(Factor::NumberLiteral(NumberLiteral { value })))
}

/// A variable as the program writes it: `%` ends a whole number, `#` a float,
/// `&` a byte.
fn variable(text: &str) -> NumericVariable {
    let (name, type_dem) = if let Some(name) = text.strip_suffix('%') {
        (name, Some(TypeDenominator::IntegerDenominator))
    } else if let Some(name) = text.strip_suffix('#') {
        (name, Some(TypeDenominator::FloatDenominator))
    } else if let Some(name) = text.strip_suffix('&') {
        (name, Some(TypeDenominator::ByteDenominator))
    } else {
        (text, None)
    };
    NumericVariable { name: name.to_string(), type_dem }
}

fn var(text: &str) -> Expression {
    Expression::Term(Term::Factor(Factor::NumericVariable(variable(text))))
}

fn term(e: Expression) -> Term {
    match e {
        Expression::Term(t) => t,
        other => Term::Factor(Factor::Group(Group { body: Box::new(other) })),
    }
}

fn add(left: Expression, right: Expression) -> Expression {
    Expression::Add(Add { left: Box::new(left), right: Box::new(right) })
}

fn mul(left: Expression, right: Expression) -> Expression {
    Expression::Term(Term::Mul(Mul { left: Box::new(term(left)), right: Box::new(term(right)) }))
}

fn quoted(text: &str) -> StringLiteral {
    StringLiteral { body: text.to_string() }
}

fn compare(left: BoolOperand, op: BoolOperator, right: BoolOperand) -> BoolTerm {
    BoolTerm { expression: None, condition: Some(BoolCondition { left, op, right }) }
}

fn cmp_num(left: Expression, op: BoolOperator, right: Expression) -> BoolTerm {
    compare(BoolOperand::Expression(left), op, BoolOperand::Expression(right))
}

fn all_of(term: Vec<BoolTerm>) -> BoolConjunction {
    BoolConjunction { term }
}

fn any_of(conjunction: Vec<BoolConjunction>) -> BoolExpression {
    BoolExpression { disjunction: BoolDisjunction { conjunction } }
}

fn only(term: BoolTerm) -> BoolExpression {
    any_of(vec![all_of(vec![term])])
}

fn program(statements: Vec<Statement>) -> Program {
    Program { body: Block { statements } }
}

fn truth_of(condition: BoolExpression, scope: &mut Scope<Real>) -> bool {
    let v = condition.compute_bool(scope).expect("Boolean computation failed");
    v.as_bool().expect("Not a bool")
}

#[test]
fn bool_expression_true() {
    // 12 < 23
    let r = only(cmp_num(num("12"), BoolOperator::BoolOpLower, num("23")));
    let mut s: Scope<Real> = Scope::new();
    let v = r.compute_bool(&mut s).expect("Boolean computation failed");
    assert!(v.as_bool().expect("Not a bool"));
}

#[test]
fn bool_expression_false() {
    // 12 > 23
    let r = only(cmp_num(num("12"), BoolOperator::BoolOpGreater, num("23")));
    let mut s: Scope<Real> = Scope::new();
    let v = r.compute_bool(&mut s).expect("Boolean computation failed");
    assert!(!v.as_bool().expect("Not a bool"));
}

#[test]
fn bool_expression_conjunction() {
    // 12 < 23 AND 12 > 1
    let r = any_of(vec![all_of(vec![
        cmp_num(num("12"), BoolOperator::BoolOpLower, num("23")),
        cmp_num(num("12"), BoolOperator::BoolOpGreater, num("1")),
    ])]);
    let mut s: Scope<Real> = Scope::new();
    let v = r.compute_bool(&mut s).expect("Boolean computation failed");
    assert!(v.as_bool().expect("Not a bool"));
}

#[test]
fn bool_expression_conjunction_false() {
    // 12 < 23 AND 12 < 1
    let r = any_of(vec![all_of(vec![
        cmp_num(num("12"), BoolOperator::BoolOpLower, num("23")),
        cmp_num(num("12"), BoolOperator::BoolOpLower, num("1")),
    ])]);
    let mut s: Scope<Real> = Scope::new();
    let v = r.compute_bool(&mut s).expect("Boolean computation failed");
    assert!(!v.as_bool().expect("Not a bool"));
}

#[test]
fn bool_expression_disjunction() {
    // 12 > 23 OR 12 > 1
    let r = any_of(vec![
        all_of(vec![cmp_num(num("12"), BoolOperator::BoolOpGreater, num("23"))]),
        all_of(vec![cmp_num(num("12"), BoolOperator::BoolOpGreater, num("1"))]),
    ]);
    let mut s: Scope<Real> = Scope::new();
    let v = r.compute_bool(&mut s).expect("Boolean computation failed");
    assert!(v.as_bool().expect("Not a bool"));
}

#[test]
fn bool_expression_disjunction_false() {
    // 12 > 23 OR 12 < 1
    let r = any_of(vec![
        all_of(vec![cmp_num(num("12"), BoolOperator::BoolOpGreater, num("23"))]),
        all_of(vec![cmp_num(num("12"), BoolOperator::BoolOpLower, num("1"))]),
    ]);
    let mut s: Scope<Real> = Scope::new();
    let v = r.compute_bool(&mut s).expect("Boolean computation failed");
    assert!(!v.as_bool().expect("Not a bool"));
}

#[test]
fn bool_expression_lt() {
    let mut s: Scope<Real> = Scope::new();

    // 12 < 13
    let r1 = only(cmp_num(num("12"), BoolOperator::BoolOpLower, num("13")));
    let v1 = r1.compute_bool(&mut s).expect("Boolean computation failed");
    assert!(v1.as_bool().expect("Not a bool"));

    // 12 < 11
    let r2 = only(cmp_num(num("12"), BoolOperator::BoolOpLower, num("11")));
    let v2 = r2.compute_bool(&mut s).expect("Boolean computation failed");
    assert!(!v2.as_bool().expect("Not a bool"));
}

#[test]
fn bool_expression_gt() {
    let mut s: Scope<Real> = Scope::new();

    // 12 > 10 + 1
    let r1 = only(cmp_num(num("12"), BoolOperator::BoolOpGreater, add(num("10"), num("1"))));
    let v1 = r1.compute_bool(&mut s).expect("Boolean computation failed");
    println!("{:?}", v1);
    assert!(v1.as_bool().expect("Not a bool"));

    // 12 > 10 + 4
    let r2 = only(cmp_num(num("12"), BoolOperator::BoolOpGreater, add(num("10"), num("4"))));
    let v2 = r2.compute_bool(&mut s).expect("Boolean computation failed");
    println!("{:?}", v2);
    assert!(!v2.as_bool().expect("Not a bool"));
}

#[test]
fn bool_expression_eq() {
    let mut s: Scope<Real> = Scope::new();

    // 12 = 12.0
    let r1 = only(cmp_num(num("12"), BoolOperator::BoolOpEqual, num("12.0")));
    let v1 = r1.compute_bool(&mut s).expect("Boolean computation failed");
    println!("{:?}", v1);
    assert!(v1.as_bool().expect("Not a bool"));

    // 12 = 14
    let r2 = only(cmp_num(num("12"), BoolOperator::BoolOpEqual, num("14")));
    let v2 = r2.compute_bool(&mut s).expect("Boolean computation failed");
    println!("{:?}", v2);
    assert!(!v2.as_bool().expect("Not a bool"));

    // "ABC" = "ABC"
    let r3 = only(compare(
        BoolOperand::StringLiteral(quoted("ABC")),
        BoolOperator::BoolOpEqual,
        BoolOperand::StringLiteral(quoted("ABC")),
    ));
    let v3 = r3.compute_bool(&mut s).expect("Boolean computation failed");
    println!("{:?}", v3);
    assert!(v3.as_bool().expect("Not a bool"));
}

#[test]
fn comparing_whole_number_variables() {
    let mut s: Scope<Real> = Scope::new();
    s.set_int(&"a".to_string(), 1);
    s.set_int(&"b".to_string(), 1);

    // a% = b%
    let r1 = only(cmp_num(var("a%"), BoolOperator::BoolOpEqual, var("b%")));
    assert!(truth_of(r1, &mut s));

    // a% * 2 = b% * 2
    let r = only(cmp_num(
        mul(var("a%"), num("2")),
        BoolOperator::BoolOpEqual,
        mul(var("b%"), num("2")),
    ));
    assert!(truth_of(r, &mut s));

    // 3 > b% * 2
    let r = only(cmp_num(num("3"), BoolOperator::BoolOpGreater, mul(var("b%"), num("2"))));
    assert!(truth_of(r, &mut s));
}

#[test]
fn a_false_term_ends_a_conjunction_before_an_unknown_variable() {
    // 1 = 2 AND nowhere = 1
    let r = any_of(vec![all_of(vec![
        cmp_num(num("1"), BoolOperator::BoolOpEqual, num("2")),
        cmp_num(var("nowhere"), BoolOperator::BoolOpEqual, num("1")),
    ])]);
    let mut s: Scope<Real> = Scope::new();
    assert!(!truth_of(r, &mut s));

    // nowhere = 1 AND 1 = 2
    let r = any_of(vec![all_of(vec![
        cmp_num(var("nowhere"), BoolOperator::BoolOpEqual, num("1")),
        cmp_num(num("1"), BoolOperator::BoolOpEqual, num("2")),
    ])]);
    let failed = r.compute_bool(&mut s);
    assert!(matches!(failed, Err(InterpreterError::UnknownVariable(name)) if name == "nowhere"));
}

#[test]
fn a_true_conjunction_ends_a_disjunction_before_an_unknown_variable() {
    // 1 = 1 OR nowhere = 1
    let r = any_of(vec![
        all_of(vec![cmp_num(num("1"), BoolOperator::BoolOpEqual, num("1"))]),
        all_of(vec![cmp_num(var("nowhere"), BoolOperator::BoolOpEqual, num("1"))]),
    ]);
    let mut s: Scope<Real> = Scope::new();
    assert!(truth_of(r, &mut s));

    // 1 = 2 OR nowhere = 1
    let r = any_of(vec![
        all_of(vec![cmp_num(num("1"), BoolOperator::BoolOpEqual, num("2"))]),
        all_of(vec![cmp_num(var("nowhere"), BoolOperator::BoolOpEqual, num("1"))]),
    ]);
    let failed = r.compute_bool(&mut s);
    assert!(matches!(failed, Err(InterpreterError::UnknownVariable(name)) if name == "nowhere"));
}

#[test]
fn the_six_comparisons() {
    let mut s: Scope<Real> = Scope::new();
    let cases = [
        (BoolOperator::BoolOpEqual, [false, true, false]),
        (BoolOperator::BoolOpNotEqual, [true, false, true]),
        (BoolOperator::BoolOpLower, [true, false, false]),
        (BoolOperator::BoolOpLowerEqual, [true, true, false]),
        (BoolOperator::BoolOpGreater, [false, false, true]),
        (BoolOperator::BoolOpGreaterEqual, [false, true, true]),
    ];
    for (op, expected) in cases {
        for (right, holds) in ["3", "2", "1"].iter().zip(expected) {
            let r = only(cmp_num(num("2"), op, num(right)));
            assert_eq!(truth_of(r, &mut s), holds, "2 {:?} {}", op, right);
            let r = only(cmp_num(num("2.0"), op, num(right)));
            assert_eq!(truth_of(r, &mut s), holds, "2.0 {:?} {}", op, right);
        }
    }
}

#[test]
fn a_number_does_not_compare_with_a_text() {
    let mut s: Scope<Real> = Scope::new();
    let r = only(compare(
        BoolOperand::Expression(num("1")),
        BoolOperator::BoolOpEqual,
        BoolOperand::StringLiteral(quoted("1")),
    ));
    assert!(matches!(r.compute_bool(&mut s), Err(InterpreterError::TypeMismatch)));
}

#[test]
fn a_term_in_brackets_and_a_term_without_content() {
    let mut s: Scope<Real> = Scope::new();
    let inner = only(cmp_num(num("1"), BoolOperator::BoolOpLower, num("2")));
    let r = only(BoolTerm { expression: Some(Box::new(inner)), condition: None });
    assert!(truth_of(r, &mut s));
    let r = only(BoolTerm { expression: None, condition: None });
    assert!(matches!(r.compute_bool(&mut s), Err(InterpreterError::NotImplemented(_))));
}

#[test]
fn an_empty_conjunction_holds_and_an_empty_disjunction_does_not() {
    let mut s: Scope<Real> = Scope::new();
    assert!(truth_of(any_of(vec![all_of(vec![])]), &mut s));
    assert!(!truth_of(any_of(vec![]), &mut s));
}
