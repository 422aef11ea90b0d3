//! The kinds of data and the arithmetic of the numeric kinds.

use vstd::prelude::*;
use vstd::string::*;
use crate::error::{outcome, Fault, InterpreterError};
use crate::text::{
    integer_text, natural_text, parse_integer, parsed_integer, push_natural, render_integer,
};

verus! {

/// The whole-number kind of the language.
pub type Integer = i64;

/// The byte kind of the language.
pub type Byte = u8;

/// The kinds of data that a variable or an expression can have.
#[derive(Clone, Copy, Debug, PartialEq, Eq, Structural)]
pub enum DataType {
    Byte,
    Integer,
    Float,
    String,
}

impl DataType {
    /// The place of a kind in the widening order: a byte is narrower than a
    /// whole number, and that is narrower than a float. Text stands apart.
    pub open spec fn spec_rank(self) -> u16 {
        match self {
            DataType::Byte => 1,
            DataType::Integer => 2,
            DataType::Float => 3,
            DataType::String => 99,
        }
    }

    /// The place of the kind in the widening order.
    #[verifier::when_used_as_spec(spec_rank)]
    pub fn rank(self) -> (r: u16)
        ensures
            r == self.spec_rank(),
    {
        match self {
            DataType::Byte => 1,
            DataType::Integer => 2,
            DataType::Float => 3,
            DataType::String => 99,
        }
    }

    /// The wider of two kinds.
    pub open spec fn spec_wider(self, other: DataType) -> DataType {
        if self.spec_rank() >= other.spec_rank() {
            self
        } else {
            other
        }
    }

    /// The wider of two kinds.
    #[verifier::when_used_as_spec(spec_wider)]
    pub fn wider(self, other: DataType) -> (r: DataType)
        ensures
            r == self.spec_wider(other),
    {
        if self.rank() >= other.rank() {
            self
        } else {
            other
        }
    }
}

/// A kind that has the number one.
pub trait One: Sized {
    spec fn spec_one() -> Self;

    fn one() -> (r: Self)
        ensures
            r == Self::spec_one(),
    ;
}

/// A kind that can say which [`DataType`] it is.
pub trait DataTypeQuery {
    spec fn spec_get_type() -> DataType;

    fn get_type() -> (r: DataType)
        ensures
            r == Self::spec_get_type(),
    ;
}

/// A numeric kind that a scope can hold: its arithmetic, its order, its
/// passage to and from whole numbers, and its decimal text.
///
/// The library has the whole numbers and the bytes. The float kind is the
/// embedding program's: the interpreter computes with it through this trait
/// alone, and every statement about floats is made over the `spec_` functions
/// of the kind that it was given. Each function comes with the `spec_`
/// function that says what it returns. An implementation that is not
/// verified gives both the same body; what is proved of a run then holds as
/// far as each function of that kind returns the same for the same arguments.
/// [`Integer`] can itself stand for the float kind, and then nothing is
/// left unproved.
pub trait ScopeValue: One + DataTypeQuery + Copy {
    spec fn spec_plus(self, rhs: Self) -> Self;

    fn plus(self, rhs: Self) -> (r: Self)
        ensures
            r == self.spec_plus(rhs),
    ;

    spec fn spec_minus(self, rhs: Self) -> Self;

    fn minus(self, rhs: Self) -> (r: Self)
        ensures
            r == self.spec_minus(rhs),
    ;

    spec fn spec_times(self, rhs: Self) -> Self;

    fn times(self, rhs: Self) -> (r: Self)
        ensures
            r == self.spec_times(rhs),
    ;

    /// The quotient, or `None` where the kind has none for this divisor.
    spec fn spec_over(self, rhs: Self) -> Option<Self>;

    fn over(self, rhs: Self) -> (r: Option<Self>)
        ensures
            r == self.spec_over(rhs),
    ;

    spec fn spec_equals(self, rhs: Self) -> bool;

    fn equals(self, rhs: Self) -> (r: bool)
        ensures
            r == self.spec_equals(rhs),
    ;

    spec fn spec_less_than(self, rhs: Self) -> bool;

    fn less_than(self, rhs: Self) -> (r: bool)
        ensures
            r == self.spec_less_than(rhs),
    ;

    /// The value of this kind that stands for a whole number.
    spec fn spec_from_integer(value: Integer) -> Self;

    fn from_integer(value: Integer) -> (r: Self)
        ensures
            r == Self::spec_from_integer(value),
    ;

    /// The whole number that stands for a value of this kind.
    spec fn spec_to_integer(self) -> Integer;

    fn to_integer(self) -> (r: Integer)
        ensures
            r == self.spec_to_integer(),
    ;

    /// The value that a literal's text writes, if it writes one.
    spec fn spec_parse(text: &String) -> Option<Self>;

    fn parse(text: &String) -> (r: Option<Self>)
        ensures
            r == Self::spec_parse(text),
    ;

    /// The text that `PRINT` shows for a value.
    spec fn spec_render(self) -> String;

    fn render(self) -> (r: String)
        ensures
            r@ == self.spec_render()@,
    ;
}

/// A text that holds the given characters, where there is one.
pub open spec fn text_of(characters: Seq<char>) -> String {
    choose|text: String| text@ == characters
}

/// A text that exists is the text of its characters, up to what it holds.
pub proof fn lemma_text_of(text: String)
    ensures
        text_of(text@)@ == text@,
{
}

/// Division of whole numbers that rounds toward zero.
pub open spec fn truncated_quotient(x: int, d: int) -> int
    recommends
        d != 0,
{
    if x >= 0 && d > 0 {
        x / d
    } else if x < 0 && d < 0 {
        (-x) / (-d)
    } else if x < 0 {
        -((-x) / d)
    } else {
        -(x / (-d))
    }
}

/// The 64-bit whole number that a mathematical one wraps round to.
pub open spec fn wrapped(x: int) -> Integer {
    let low = x % 0x1_0000_0000_0000_0000;
    if low > i64::MAX {
        (low - 0x1_0000_0000_0000_0000) as i64
    } else {
        low as i64
    }
}

impl One for Integer {
    open spec fn spec_one() -> Integer {
        1
    }

    fn one() -> (r: Integer) {
        1
    }
}

impl DataTypeQuery for Integer {
    open spec fn spec_get_type() -> DataType {
        DataType::Integer
    }

    fn get_type() -> (r: DataType) {
        DataType::Integer
    }
}

/// Whole numbers wrap round at the ends of the 64-bit range. Division rounds
/// toward zero and has no result for the divisor zero.
impl ScopeValue for Integer {
    open spec fn spec_plus(self, rhs: Integer) -> Integer {
        wrapped(self + rhs)
    }

    fn plus(self, rhs: Integer) -> (r: Integer) {
        self.wrapping_add(rhs)
    }

    open spec fn spec_minus(self, rhs: Integer) -> Integer {
        wrapped(self - rhs)
    }

    fn minus(self, rhs: Integer) -> (r: Integer) {
        self.wrapping_sub(rhs)
    }

    open spec fn spec_times(self, rhs: Integer) -> Integer {
        wrapped(self * rhs)
    }

    fn times(self, rhs: Integer) -> (r: Integer) {
        self.wrapping_mul(rhs)
    }

    open spec fn spec_over(self, rhs: Integer) -> Option<Integer> {
        if rhs == 0 {
            None
        } else {
            Some(wrapped(truncated_quotient(self as int, rhs as int)))
        }
    }

    fn over(self, rhs: Integer) -> (r: Option<Integer>) {
        if rhs == 0 {
            None
        } else {
            match self.checked_div(rhs) {
                Some(q) => Some(q),
                None => Some(self),
            }
        }
    }

    open spec fn spec_equals(self, rhs: Integer) -> bool {
        self == rhs
    }

    fn equals(self, rhs: Integer) -> (r: bool) {
        self == rhs
    }

    open spec fn spec_less_than(self, rhs: Integer) -> bool {
        self < rhs
    }

    fn less_than(self, rhs: Integer) -> (r: bool) {
        self < rhs
    }

    open spec fn spec_from_integer(value: Integer) -> Integer {
        value
    }

    fn from_integer(value: Integer) -> (r: Integer) {
        value
    }

    open spec fn spec_to_integer(self) -> Integer {
        self
    }

    fn to_integer(self) -> (r: Integer) {
        self
    }

    open spec fn spec_parse(text: &String) -> Option<Integer> {
        parsed_integer(text@)
    }

    fn parse(text: &String) -> (r: Option<Integer>) {
        parse_integer(text.as_str())
    }

    open spec fn spec_render(self) -> String {
        text_of(integer_text(self as int))
    }

    fn render(self) -> (r: String)
        ensures
            r@ == integer_text(self as int),
    {
        let r = render_integer(self);
        proof {
            lemma_text_of(r);
        }
        r
    }
}

/// The byte that a mathematical whole number wraps round to.
pub open spec fn wrapped_byte(x: int) -> Byte {
    (x % 0x100) as u8
}

impl One for Byte {
    open spec fn spec_one() -> Byte {
        1
    }

    fn one() -> (r: Byte) {
        1
    }
}

impl DataTypeQuery for Byte {
    open spec fn spec_get_type() -> DataType {
        DataType::Byte
    }

    fn get_type() -> (r: DataType) {
        DataType::Byte
    }
}

/// Bytes wrap round at 0 and 255. A whole number becomes a byte by its low
/// eight bits. A byte's text has no sign but an optional `+`.
impl ScopeValue for Byte {
    open spec fn spec_plus(self, rhs: Byte) -> Byte {
        wrapped_byte(self + rhs)
    }

    fn plus(self, rhs: Byte) -> (r: Byte) {
        self.wrapping_add(rhs)
    }

    open spec fn spec_minus(self, rhs: Byte) -> Byte {
        wrapped_byte(self - rhs)
    }

    fn minus(self, rhs: Byte) -> (r: Byte) {
        self.wrapping_sub(rhs)
    }

    open spec fn spec_times(self, rhs: Byte) -> Byte {
        wrapped_byte(self * rhs)
    }

    fn times(self, rhs: Byte) -> (r: Byte) {
        self.wrapping_mul(rhs)
    }

    open spec fn spec_over(self, rhs: Byte) -> Option<Byte> {
        if rhs == 0 {
            None
        } else {
            Some((self / rhs) as u8)
        }
    }

    fn over(self, rhs: Byte) -> (r: Option<Byte>) {
        if rhs == 0 {
            None
        } else {
            Some(self / rhs)
        }
    }

    open spec fn spec_equals(self, rhs: Byte) -> bool {
        self == rhs
    }

    fn equals(self, rhs: Byte) -> (r: bool) {
        self == rhs
    }

    open spec fn spec_less_than(self, rhs: Byte) -> bool {
        self < rhs
    }

    fn less_than(self, rhs: Byte) -> (r: bool) {
        self < rhs
    }

    open spec fn spec_from_integer(value: Integer) -> Byte {
        value as u8
    }

    fn from_integer(value: Integer) -> (r: Byte) {
        #[verifier::truncate]
        (value as u8)
    }

    open spec fn spec_to_integer(self) -> Integer {
        self as i64
    }

    fn to_integer(self) -> (r: Integer) {
        self as i64
    }

    open spec fn spec_parse(text: &String) -> Option<Byte> {
        match parsed_integer(text@) {
            Some(i) => if text@[0] != '-' && i <= 255 {
                Some(i as u8)
            } else {
                None
            },
            None => None,
        }
    }

    fn parse(text: &String) -> (r: Option<Byte>) {
        match parse_integer(text.as_str()) {
            Some(i) => {
                if text.as_str().get_char(0) != '-' && i <= 255 {
                    Some(i as u8)
                } else {
                    None
                }
            },
            None => None,
        }
    }

    open spec fn spec_render(self) -> String {
        text_of(natural_text(self as nat))
    }

    fn render(self) -> (r: String)
        ensures
            r@ == natural_text(self as nat),
    {
        let mut out = String::new();
        push_natural(self as u64, &mut out);
        assert(out@ =~= natural_text(self as nat));
        proof {
            lemma_text_of(out);
        }
        out
    }
}

/// The byte nearest to a whole number: the ends of the byte range stand for
/// what lies beyond them.
pub open spec fn clamped_byte(i: Integer) -> Byte {
    if i < 0 {
        0
    } else if i > 255 {
        255
    } else {
        i as u8
    }
}

/// The float that stands for a byte.
pub open spec fn spec_byte_to_float<F: ScopeValue>(b: Byte) -> F {
    F::spec_from_integer(b as i64)
}

/// The float that stands for a byte.
#[verifier::when_used_as_spec(spec_byte_to_float)]
pub fn byte_to_float<F: ScopeValue>(b: Byte) -> (r: F)
    ensures
        r == spec_byte_to_float::<F>(b),
{
    F::from_integer(b as i64)
}

/// The byte that stands for a float: its whole number, held to the byte range.
pub open spec fn spec_float_to_byte<F: ScopeValue>(f: F) -> Byte {
    clamped_byte(f.spec_to_integer())
}

/// The byte that stands for a float.
#[verifier::when_used_as_spec(spec_float_to_byte)]
pub fn float_to_byte<F: ScopeValue>(f: F) -> (r: Byte)
    ensures
        r == spec_float_to_byte(f),
{
    let i = f.to_integer();
    if i < 0 {
        0
    } else if i > 255 {
        255
    } else {
        i as u8
    }
}

/// The four operators of arithmetic.
#[derive(Clone, Copy, Debug, PartialEq, Eq, Structural)]
pub enum Operator {
    Add,
    Sub,
    Mul,
    Div,
}

/// What an operator makes of two values of one kind: the division that has
/// no result is an error.
pub open spec fn spec_apply<T: ScopeValue>(op: Operator, left: T, right: T) -> Result<T, Fault> {
    match op {
        Operator::Add => Ok(left.spec_plus(right)),
        Operator::Sub => Ok(left.spec_minus(right)),
        Operator::Mul => Ok(left.spec_times(right)),
        Operator::Div => match left.spec_over(right) {
            Some(q) => Ok(q),
            None => Err(Fault::DivisionByZero),
        },
    }
}

/// Applies an operator to two values of one kind.
pub fn apply<T: ScopeValue>(op: Operator, left: T, right: T) -> (r: Result<T, InterpreterError>)
    ensures
        outcome(r) == spec_apply(op, left, right),
{
    match op {
        Operator::Add => Ok(left.plus(right)),
        Operator::Sub => Ok(left.minus(right)),
        Operator::Mul => Ok(left.times(right)),
        Operator::Div => match left.over(right) {
            Some(q) => Ok(q),
            None => Err(InterpreterError::DivisionByZero),
        },
    }
}

/// The four orders and the equality that a comparison can ask for.
#[derive(Clone, Copy, Debug, PartialEq, Eq, Structural)]
pub enum Relation {
    Equal,
    Greater,
    GreaterEqual,
    Lower,
    LowerEqual,
}

/// Whether a relation holds of two values of one kind. It is made of the
/// kind's equality and its strict order alone.
pub open spec fn spec_related<T: ScopeValue>(relation: Relation, left: T, right: T) -> bool {
    match relation {
        Relation::Equal => left.spec_equals(right),
        Relation::Greater => right.spec_less_than(left),
        Relation::GreaterEqual => right.spec_less_than(left) || left.spec_equals(right),
        Relation::Lower => left.spec_less_than(right),
        Relation::LowerEqual => left.spec_less_than(right) || left.spec_equals(right),
    }
}

/// Whether a relation holds of two values of one kind.
pub fn related<T: ScopeValue>(relation: Relation, left: T, right: T) -> (r: bool)
    ensures
        r == spec_related(relation, left, right),
{
    match relation {
        Relation::Equal => left.equals(right),
        Relation::Greater => right.less_than(left),
        Relation::GreaterEqual => right.less_than(left) || left.equals(right),
        Relation::Lower => left.less_than(right),
        Relation::LowerEqual => left.less_than(right) || left.equals(right),
    }
}

impl DataTypeQuery for String {
    open spec fn spec_get_type() -> DataType {
        DataType::String
    }

    fn get_type() -> (r: DataType) {
        DataType::String
    }
}

} // verus!
