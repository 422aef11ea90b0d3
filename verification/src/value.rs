//! Values at run time: their comparison and their arithmetic.

use vstd::prelude::*;
use vstd::string::*;
use crate::error::{outcome, Fault, InterpreterError};
use crate::kind::{
    apply, byte_to_float, related, spec_apply, spec_byte_to_float, spec_related, Byte, Integer,
    Operator, Relation, ScopeValue,
};
use crate::text::{parse_integer, parsed_integer};

verus! {

/// A value at run time: one of the four kinds of data, or the truth value
/// that a condition yields. `F` is the float kind.
#[derive(Debug, Clone)]
pub enum Value<F> {
    String(String),
    Integer(Integer),
    Float(F),
    Byte(Byte),
    Boolean(bool),
}

/// The mathematical content of a [`Value`]: a text by its characters.
pub enum ValueView<F> {
    String(Seq<char>),
    Integer(Integer),
    Float(F),
    Byte(Byte),
    Boolean(bool),
}

impl<F> View for Value<F> {
    type V = ValueView<F>;

    open spec fn view(&self) -> ValueView<F> {
        match self {
            Value::String(s) => ValueView::String(s@),
            Value::Integer(i) => ValueView::Integer(*i),
            Value::Float(f) => ValueView::Float(*f),
            Value::Byte(b) => ValueView::Byte(*b),
            Value::Boolean(b) => ValueView::Boolean(*b),
        }
    }
}

/// A result that holds a value, both taken by their views.
pub open spec fn value_outcome<F>(r: Result<Value<F>, InterpreterError>) -> Result<
    ValueView<F>,
    Fault,
> {
    match r {
        Ok(v) => Ok(v@),
        Err(e) => Err(e@),
    }
}

/// Two numbers brought to the wider of their two kinds.
pub enum Widened<F> {
    Bytes(Byte, Byte),
    Integers(Integer, Integer),
    Floats(F, F),
}

/// Brings two numbers to the wider of their kinds; `None` where one of the
/// two is no number.
pub open spec fn spec_widen<F: ScopeValue>(a: ValueView<F>, b: ValueView<F>) -> Option<
    Widened<F>,
> {
    match (a, b) {
        (ValueView::Byte(x), ValueView::Byte(y)) => Some(Widened::Bytes(x, y)),
        (ValueView::Byte(x), ValueView::Integer(y)) => Some(Widened::Integers(x as i64, y)),
        (ValueView::Byte(x), ValueView::Float(y)) => Some(
            Widened::Floats(spec_byte_to_float::<F>(x), y),
        ),
        (ValueView::Integer(x), ValueView::Byte(y)) => Some(Widened::Integers(x, y as i64)),
        (ValueView::Integer(x), ValueView::Integer(y)) => Some(Widened::Integers(x, y)),
        (ValueView::Integer(x), ValueView::Float(y)) => Some(
            Widened::Floats(F::spec_from_integer(x), y),
        ),
        (ValueView::Float(x), ValueView::Byte(y)) => Some(
            Widened::Floats(x, spec_byte_to_float::<F>(y)),
        ),
        (ValueView::Float(x), ValueView::Integer(y)) => Some(
            Widened::Floats(x, F::spec_from_integer(y)),
        ),
        (ValueView::Float(x), ValueView::Float(y)) => Some(Widened::Floats(x, y)),
        _ => None,
    }
}

/// Whether text `a` comes before text `b` in the order of a dictionary whose
/// alphabet is the characters by their code, looking from position `i` on.
pub open spec fn precedes_from(a: Seq<char>, b: Seq<char>, i: int) -> bool
    decreases b.len() - i,
{
    if i < 0 || i >= b.len() {
        false
    } else if i >= a.len() {
        true
    } else if a[i] != b[i] {
        a[i] < b[i]
    } else {
        precedes_from(a, b, i + 1)
    }
}

/// Whether text `a` comes strictly before text `b`.
pub open spec fn text_precedes(a: Seq<char>, b: Seq<char>) -> bool {
    precedes_from(a, b, 0)
}

/// Whether a relation holds of two texts.
pub open spec fn text_related(relation: Relation, a: Seq<char>, b: Seq<char>) -> bool {
    match relation {
        Relation::Equal => a == b,
        Relation::Greater => text_precedes(b, a),
        Relation::GreaterEqual => text_precedes(b, a) || a == b,
        Relation::Lower => text_precedes(a, b),
        Relation::LowerEqual => text_precedes(a, b) || a == b,
    }
}

/// What a comparison of two values yields. Two numbers are compared in the
/// wider of their kinds and two texts character by character; any other
/// pairing is a type mismatch.
pub open spec fn spec_compare<F: ScopeValue>(
    relation: Relation,
    a: ValueView<F>,
    b: ValueView<F>,
) -> Result<bool, Fault> {
    match spec_widen(a, b) {
        Some(Widened::Bytes(x, y)) => Ok(spec_related(relation, x, y)),
        Some(Widened::Integers(x, y)) => Ok(spec_related(relation, x, y)),
        Some(Widened::Floats(x, y)) => Ok(spec_related(relation, x, y)),
        None => match (a, b) {
            (ValueView::String(x), ValueView::String(y)) => Ok(text_related(relation, x, y)),
            _ => Err(Fault::TypeMismatch),
        },
    }
}

/// What an operator of arithmetic makes of two values. The result has the
/// wider of the two kinds. A left operand that is no number does not have the
/// operator at all; a right operand that is none does not fit the left.
pub open spec fn spec_arithmetic<F: ScopeValue>(
    op: Operator,
    a: ValueView<F>,
    b: ValueView<F>,
) -> Result<ValueView<F>, Fault> {
    match a {
        ValueView::String(_) => Err(Fault::OperationUnsupported),
        ValueView::Boolean(_) => Err(Fault::OperationUnsupported),
        _ => match spec_widen(a, b) {
            Some(Widened::Bytes(x, y)) => match spec_apply(op, x, y) {
                Ok(v) => Ok(ValueView::Byte(v)),
                Err(e) => Err(e),
            },
            Some(Widened::Integers(x, y)) => match spec_apply(op, x, y) {
                Ok(v) => Ok(ValueView::Integer(v)),
                Err(e) => Err(e),
            },
            Some(Widened::Floats(x, y)) => match spec_apply(op, x, y) {
                Ok(v) => Ok(ValueView::Float(v)),
                Err(e) => Err(e),
            },
            None => Err(Fault::TypeMismatch),
        },
    }
}

/// Whether text `a` comes strictly before text `b`.
pub fn precedes(a: &str, b: &str) -> (r: bool)
    ensures
        r == text_precedes(a@, b@),
{
    let n = a.unicode_len();
    let m = b.unicode_len();
    let mut i: usize = 0;
    loop
        invariant
            n == a@.len(),
            m == b@.len(),
            i <= m,
            precedes_from(a@, b@, i as int) == text_precedes(a@, b@),
        decreases m - i,
    {
        if i >= m {
            return false;
        }
        if i >= n {
            return true;
        }
        let x = a.get_char(i);
        let y = b.get_char(i);
        if x != y {
            return x < y;
        }
        i = i + 1;
    }
}

/// Whether a relation holds of two texts.
pub fn texts_related(relation: Relation, a: &String, b: &String) -> (r: bool)
    ensures
        r == text_related(relation, a@, b@),
{
    match relation {
        Relation::Equal => *a == *b,
        Relation::Greater => precedes(b.as_str(), a.as_str()),
        Relation::GreaterEqual => precedes(b.as_str(), a.as_str()) || *a == *b,
        Relation::Lower => precedes(a.as_str(), b.as_str()),
        Relation::LowerEqual => precedes(a.as_str(), b.as_str()) || *a == *b,
    }
}

impl<F: ScopeValue> Value<F> {
    /// The whole number that the value stands for: of a text the number that
    /// it writes, of a float and a byte their whole number. A truth value and a
    /// text that writes no number stand for none.
    pub open spec fn spec_as_int(v: ValueView<F>) -> Option<Integer> {
        match v {
            ValueView::String(s) => parsed_integer(s),
            ValueView::Integer(i) => Some(i),
            ValueView::Float(f) => Some(f.spec_to_integer()),
            ValueView::Boolean(_) => None,
            ValueView::Byte(b) => Some(b as i64),
        }
    }

    /// The whole number that the value stands for.
    pub fn as_int(&self) -> (r: Option<Integer>)
        ensures
            r == Self::spec_as_int(self@),
    {
        match self {
            Value::String(s) => parse_integer(s.as_str()),
            Value::Integer(i) => Some(*i),
            Value::Float(f) => Some(f.to_integer()),
            Value::Boolean(_) => None,
            Value::Byte(s) => Some(*s as Integer),
        }
    }

    /// The truth value, where the value is one.
    pub fn as_bool(&self) -> (r: Result<bool, InterpreterError>)
        ensures
            outcome(r) == match self@ {
                ValueView::Boolean(b) => Ok::<bool, Fault>(b),
                _ => Err(Fault::TypeMismatch),
            },
    {
        match self {
            Value::Boolean(b) => Ok(*b),
            _ => Err(InterpreterError::TypeMismatch),
        }
    }

    /// Brings two numbers to the wider of their kinds.
    pub fn widen(&self, rhs: &Value<F>) -> (r: Option<Widened<F>>)
        ensures
            r == spec_widen(self@, rhs@),
    {
        match (self, rhs) {
            (Value::Byte(x), Value::Byte(y)) => Some(Widened::Bytes(*x, *y)),
            (Value::Byte(x), Value::Integer(y)) => Some(Widened::Integers(*x as i64, *y)),
            (Value::Byte(x), Value::Float(y)) => Some(Widened::Floats(byte_to_float::<F>(*x), *y)),
            (Value::Integer(x), Value::Byte(y)) => Some(Widened::Integers(*x, *y as i64)),
            (Value::Integer(x), Value::Integer(y)) => Some(Widened::Integers(*x, *y)),
            (Value::Integer(x), Value::Float(y)) => Some(Widened::Floats(F::from_integer(*x), *y)),
            (Value::Float(x), Value::Byte(y)) => Some(Widened::Floats(*x, byte_to_float::<F>(*y))),
            (Value::Float(x), Value::Integer(y)) => Some(Widened::Floats(*x, F::from_integer(*y))),
            (Value::Float(x), Value::Float(y)) => Some(Widened::Floats(*x, *y)),
            _ => None,
        }
    }

    /// Compares two values by the given relation.
    pub fn compare(&self, relation: Relation, rhs: &Value<F>) -> (r: Result<
        bool,
        InterpreterError,
    >)
        ensures
            outcome(r) == spec_compare(relation, self@, rhs@),
    {
        match self.widen(rhs) {
            Some(Widened::Bytes(x, y)) => Ok(related(relation, x, y)),
            Some(Widened::Integers(x, y)) => Ok(related(relation, x, y)),
            Some(Widened::Floats(x, y)) => Ok(related(relation, x, y)),
            None => match (self, rhs) {
                (Value::String(x), Value::String(y)) => Ok(texts_related(relation, x, y)),
                _ => Err(InterpreterError::TypeMismatch),
            },
        }
    }

    /// Whether the two values are equal.
    pub fn eq(&self, rhs: &Value<F>) -> (r: Result<bool, InterpreterError>)
        ensures
            outcome(r) == spec_compare(Relation::Equal, self@, rhs@),
    {
        self.compare(Relation::Equal, rhs)
    }

    /// Whether this value is greater than the other.
    pub fn gt(&self, rhs: &Value<F>) -> (r: Result<bool, InterpreterError>)
        ensures
            outcome(r) == spec_compare(Relation::Greater, self@, rhs@),
    {
        self.compare(Relation::Greater, rhs)
    }

    /// Whether this value is greater than the other or equal to it.
    pub fn ge(&self, rhs: &Value<F>) -> (r: Result<bool, InterpreterError>)
        ensures
            outcome(r) == spec_compare(Relation::GreaterEqual, self@, rhs@),
    {
        self.compare(Relation::GreaterEqual, rhs)
    }

    /// Whether this value is lower than the other.
    pub fn lt(&self, rhs: &Value<F>) -> (r: Result<bool, InterpreterError>)
        ensures
            outcome(r) == spec_compare(Relation::Lower, self@, rhs@),
    {
        self.compare(Relation::Lower, rhs)
    }

    /// Whether this value is lower than the other or equal to it.
    pub fn le(&self, rhs: &Value<F>) -> (r: Result<bool, InterpreterError>)
        ensures
            outcome(r) == spec_compare(Relation::LowerEqual, self@, rhs@),
    {
        self.compare(Relation::LowerEqual, rhs)
    }

    /// Applies an operator of arithmetic to two values.
    pub fn arithmetic(&self, op: Operator, rhs: &Value<F>) -> (r: Result<
        Value<F>,
        InterpreterError,
    >)
        ensures
            value_outcome(r) == spec_arithmetic(op, self@, rhs@),
    {
        match self {
            Value::String(_) => Err(InterpreterError::OperationUnsupported),
            Value::Boolean(_) => Err(InterpreterError::OperationUnsupported),
            _ => match self.widen(rhs) {
                Some(Widened::Bytes(x, y)) => match apply(op, x, y) {
                    Ok(v) => Ok(Value::Byte(v)),
                    Err(e) => Err(e),
                },
                Some(Widened::Integers(x, y)) => match apply(op, x, y) {
                    Ok(v) => Ok(Value::Integer(v)),
                    Err(e) => Err(e),
                },
                Some(Widened::Floats(x, y)) => match apply(op, x, y) {
                    Ok(v) => Ok(Value::Float(v)),
                    Err(e) => Err(e),
                },
                None => Err(InterpreterError::TypeMismatch),
            },
        }
    }

    /// The sum of the two values.
    pub fn add(&self, rhs: &Value<F>) -> (r: Result<Value<F>, InterpreterError>)
        ensures
            value_outcome(r) == spec_arithmetic(Operator::Add, self@, rhs@),
    {
        self.arithmetic(Operator::Add, rhs)
    }

    /// The difference of the two values.
    pub fn sub(&self, rhs: &Value<F>) -> (r: Result<Value<F>, InterpreterError>)
        ensures
            value_outcome(r) == spec_arithmetic(Operator::Sub, self@, rhs@),
    {
        self.arithmetic(Operator::Sub, rhs)
    }

    /// The product of the two values.
    pub fn mul(&self, rhs: &Value<F>) -> (r: Result<Value<F>, InterpreterError>)
        ensures
            value_outcome(r) == spec_arithmetic(Operator::Mul, self@, rhs@),
    {
        self.arithmetic(Operator::Mul, rhs)
    }

    /// The quotient of the two values.
    pub fn div(&self, rhs: &Value<F>) -> (r: Result<Value<F>, InterpreterError>)
        ensures
            value_outcome(r) == spec_arithmetic(Operator::Div, self@, rhs@),
    {
        self.arithmetic(Operator::Div, rhs)
    }
}

} // verus!
