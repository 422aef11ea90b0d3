//! The tree of a program, as a parser hands it over.

use vstd::prelude::*;

verus! {

/// A text between quotes.
#[derive(Debug)]
pub struct StringLiteral {
    pub body: String,
}

/// A variable that holds a text.
#[derive(Debug)]
pub struct StringVariable {
    pub name: String,
}

/// The suffix that tells the kind of a numeric variable.
#[derive(Debug, Clone, Copy, PartialEq, Eq, Structural)]
pub enum TypeDenominator {
    ByteDenominator,
    FloatDenominator,
    IntegerDenominator,
}

/// A numeric variable: its name, and its suffix if it has one. A variable
/// without a suffix holds a float.
#[derive(Debug)]
pub struct NumericVariable {
    pub name: String,
    pub type_dem: Option<TypeDenominator>,
}

/// The digits of a whole number.
#[derive(Debug)]
pub struct IntegerLiteral {
    pub body: String,
}

/// The text of a number with a fraction.
#[derive(Debug)]
pub struct FloatLiteral {
    pub body: String,
}

/// The two ways of writing a number.
#[derive(Debug)]
pub enum NumberLiteralValue {
    FloatLiteral(FloatLiteral),
    IntegerLiteral(IntegerLiteral),
}

/// A number written out in the program.
#[derive(Debug)]
pub struct NumberLiteral {
    pub value: NumberLiteralValue,
}

/// An expression in brackets.
#[derive(Debug)]
pub struct Group {
    pub body: Box<Expression>,
}

/// What the operators of arithmetic join: a group, a literal or a variable.
#[derive(Debug)]
pub enum Factor {
    Group(Group),
    NumberLiteral(NumberLiteral),
    NumericVariable(NumericVariable),
}

/// A product.
#[derive(Debug)]
pub struct Mul {
    pub left: Box<Term>,
    pub right: Box<Term>,
}

/// A quotient.
#[derive(Debug)]
pub struct Div {
    pub left: Box<Term>,
    pub right: Box<Term>,
}

/// A product, a quotient, or a single factor.
#[derive(Debug)]
pub enum Term {
    Div(Div),
    Factor(Factor),
    Mul(Mul),
}

/// A sum.
#[derive(Debug)]
pub struct Add {
    pub left: Box<Expression>,
    pub right: Box<Expression>,
}

/// A difference.
#[derive(Debug)]
pub struct Sub {
    pub left: Box<Expression>,
    pub right: Box<Expression>,
}

/// An arithmetic expression.
#[derive(Debug)]
pub enum Expression {
    Add(Add),
    Sub(Sub),
    Term(Term),
}

/// One side of a comparison.
#[derive(Debug)]
pub enum BoolOperand {
    Expression(Expression),
    StringLiteral(StringLiteral),
}

/// The six comparisons.
#[derive(Debug, Clone, Copy, PartialEq, Eq, Structural)]
pub enum BoolOperator {
    BoolOpEqual,
    BoolOpGreater,
    BoolOpGreaterEqual,
    BoolOpLower,
    BoolOpLowerEqual,
    BoolOpNotEqual,
}

/// A comparison of two operands.
#[derive(Debug)]
pub struct BoolCondition {
    pub left: BoolOperand,
    pub op: BoolOperator,
    pub right: BoolOperand,
}

/// A condition in brackets, or a comparison.
#[derive(Debug)]
pub struct BoolTerm {
    pub expression: Option<Box<BoolExpression>>,
    pub condition: Option<BoolCondition>,
}

/// Terms joined by `AND`.
#[derive(Debug)]
pub struct BoolConjunction {
    pub term: Vec<BoolTerm>,
}

/// Conjunctions joined by `OR`.
#[derive(Debug)]
pub struct BoolDisjunction {
    pub conjunction: Vec<BoolConjunction>,
}

/// A condition.
#[derive(Debug)]
pub struct BoolExpression {
    pub disjunction: BoolDisjunction,
}

/// What one item of a `PRINT` shows.
#[derive(Debug)]
pub enum PrintListItemValue {
    Expression(Expression),
    StringLiteral(StringLiteral),
    StringVariable(StringVariable),
}

/// One item of a `PRINT`. An item that ends in a separator is not followed by
/// a new line.
#[derive(Debug)]
pub struct PrintListItem {
    pub value: PrintListItemValue,
    pub sep: Option<char>,
}

/// `PRINT` with the items that it shows.
#[derive(Debug)]
pub struct PrintStatement {
    pub list: Vec<PrintListItem>,
}

/// The assignment of an expression to a numeric variable.
#[derive(Debug)]
pub struct Assignment {
    pub variable: NumericVariable,
    pub value: Expression,
}

/// The assignment that begins a `FOR`.
#[derive(Debug)]
pub struct ForAssignment {
    pub variable: NumericVariable,
    pub value: Expression,
}

/// The assignment of a literal to a text variable.
#[derive(Debug)]
pub struct StringAssignment {
    pub variable: StringVariable,
    pub value: StringLiteral,
}

/// The `STEP` of a `FOR`.
#[derive(Debug)]
pub struct ForStep {
    pub value: Expression,
}

/// `FOR` with its first assignment, its target, its step and its body.
#[derive(Debug)]
pub struct ForStatement {
    pub assignment: ForAssignment,
    pub target: Expression,
    pub step: Option<ForStep>,
    pub body: Block,
}

/// `IF` with its condition and its one or two blocks.
#[derive(Debug)]
pub struct IfStatement {
    pub condition: BoolExpression,
    pub then_block: Block,
    pub else_block: Option<Block>,
}

/// `WHILE` with its condition and its body.
#[derive(Debug)]
pub struct WhileStatement {
    pub condition: BoolExpression,
    pub body: Block,
}

/// One statement of a program.
#[derive(Debug)]
pub enum Statement {
    EndStatement,
    PrintStatement(PrintStatement),
    Assignment(Assignment),
    StringAssignment(StringAssignment),
    ForStatement(ForStatement),
    IfStatement(IfStatement),
    ExitForStatement,
    WhileStatement(WhileStatement),
    ExitWhileStatement,
}

/// Statements in the order in which they run.
#[derive(Debug)]
pub struct Block {
    pub statements: Vec<Statement>,
}

/// A whole program.
#[derive(Debug)]
pub struct Program {
    pub body: Block,
}

} // verus!
