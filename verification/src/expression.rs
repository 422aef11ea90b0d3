//! The value of an arithmetic expression, in each of the three numeric kinds
//! and in the kind that is natural to it.

use vstd::prelude::*;
use crate::error::{not_implemented, outcome, Fault, InterpreterError};
use crate::kind::{
    apply, byte_to_float, float_to_byte, spec_apply, spec_byte_to_float, spec_float_to_byte, Byte,
    DataType, Integer, Operator, ScopeValue,
};
use crate::scope::{Scope, ScopeView};
use crate::syntax::{
    Expression, Factor, Group, NumberLiteral, NumberLiteralValue, NumericVariable, Term,
    TypeDenominator,
};
use crate::text::{parse_integer, parsed_integer};
use crate::value::{value_outcome, Value, ValueView};

verus! {

/// What an operator makes of its two operands once both were computed: the
/// error of the left operand, else that of the right, else the operator's
/// result.
pub open spec fn combine<T: ScopeValue>(
    op: Operator,
    left: Result<T, Fault>,
    right: Result<T, Fault>,
) -> Result<T, Fault> {
    match left {
        Err(e) => Err(e),
        Ok(x) => match right {
            Err(e) => Err(e),
            Ok(y) => spec_apply(op, x, y),
        },
    }
}

/// A value of one kind as the value of another, errors passing through.
pub open spec fn convert<A, B>(r: Result<A, Fault>, f: spec_fn(A) -> B) -> Result<B, Fault> {
    match r {
        Ok(v) => Ok(f(v)),
        Err(e) => Err(e),
    }
}

/// A literal that does not write a number of the kind asked for is a type
/// mismatch.
pub open spec fn literal<T>(parsed: Option<T>) -> Result<T, Fault> {
    match parsed {
        Some(v) => Ok(v),
        None => Err(Fault::TypeMismatch),
    }
}

/// The description of the error that the byte value of a literal yields.
pub open spec fn byte_literal_description() -> Seq<char> {
    "Byte value of a number literal"@
}

impl NumberLiteral {
    /// The kind in which the literal is written.
    pub open spec fn natural_type(&self) -> DataType {
        match self.value {
            NumberLiteralValue::FloatLiteral(_) => DataType::Float,
            NumberLiteralValue::IntegerLiteral(_) => DataType::Integer,
        }
    }

    /// The literal as a float: a whole number is read as one and then made a
    /// float.
    pub open spec fn float_value<F: ScopeValue>(&self) -> Result<F, Fault> {
        match self.value {
            NumberLiteralValue::FloatLiteral(f) => literal(F::spec_parse(&f.body)),
            NumberLiteralValue::IntegerLiteral(i) => convert(
                literal(parsed_integer(i.body@)),
                |v: Integer| F::spec_from_integer(v),
            ),
        }
    }

    /// The literal as a whole number: a float is read as one and then made a
    /// whole number.
    pub open spec fn integer_value<F: ScopeValue>(&self) -> Result<Integer, Fault> {
        match self.value {
            NumberLiteralValue::IntegerLiteral(i) => literal(parsed_integer(i.body@)),
            NumberLiteralValue::FloatLiteral(f) => convert(
                literal(F::spec_parse(&f.body)),
                |v: F| v.spec_to_integer(),
            ),
        }
    }

    /// A literal has no value as a byte.
    pub open spec fn byte_value(&self) -> Result<Byte, Fault> {
        Err(Fault::NotImplemented(byte_literal_description()))
    }

    /// Computes the value as a float.
    pub fn compute_float<F: ScopeValue>(&self, _scope: &Scope<F>) -> (r: Result<F, InterpreterError>)
        ensures
            outcome(r) == self.float_value::<F>(),
    {
        match &self.value {
            NumberLiteralValue::FloatLiteral(f) => match F::parse(&f.body) {
                None => Err(InterpreterError::TypeMismatch),
                Some(v) => Ok(v),
            },
            NumberLiteralValue::IntegerLiteral(f) => match parse_integer(f.body.as_str()) {
                None => Err(InterpreterError::TypeMismatch),
                Some(v) => Ok(F::from_integer(v)),
            },
        }
    }

    /// Computes the value as a whole number.
    pub fn compute_integer<F: ScopeValue>(&self, _scope: &Scope<F>) -> (r: Result<
        Integer,
        InterpreterError,
    >)
        ensures
            outcome(r) == self.integer_value::<F>(),
    {
        match &self.value {
            NumberLiteralValue::IntegerLiteral(f) => match parse_integer(f.body.as_str()) {
                None => Err(InterpreterError::TypeMismatch),
                Some(v) => Ok(v),
            },
            NumberLiteralValue::FloatLiteral(f) => match F::parse(&f.body) {
                None => Err(InterpreterError::TypeMismatch),
                Some(v) => Ok(v.to_integer()),
            },
        }
    }

    /// Computes the value as a byte.
    pub fn compute_byte<F: ScopeValue>(&self, _scope: &Scope<F>) -> (r: Result<
        Byte,
        InterpreterError,
    >)
        ensures
            outcome(r) == self.byte_value(),
    {
        Err(not_implemented("Byte value of a number literal"))
    }

    /// The natural kind.
    pub fn get_type(&self) -> (r: DataType)
        ensures
            r == self.natural_type(),
    {
        match self.value {
            NumberLiteralValue::FloatLiteral(_) => DataType::Float,
            NumberLiteralValue::IntegerLiteral(_) => DataType::Integer,
        }
    }
}

impl NumericVariable {
    /// The kind that the variable's suffix names; without a suffix, float.
    pub open spec fn natural_type(&self) -> DataType {
        match self.type_dem {
            None => DataType::Float,
            Some(TypeDenominator::ByteDenominator) => DataType::Byte,
            Some(TypeDenominator::FloatDenominator) => DataType::Float,
            Some(TypeDenominator::IntegerDenominator) => DataType::Integer,
        }
    }

    /// The variable read in its own kind and made a float.
    pub open spec fn float_value<F: ScopeValue>(&self, scope: ScopeView<F>) -> Result<F, Fault> {
        match self.natural_type() {
            DataType::Byte => convert(
                scope.byte(self.name@),
                |b: Byte| spec_byte_to_float::<F>(b),
            ),
            DataType::Integer => convert(
                scope.integer(self.name@),
                |i: Integer| F::spec_from_integer(i),
            ),
            _ => scope.float(self.name@),
        }
    }

    /// The variable read in its own kind and made a whole number.
    pub open spec fn integer_value<F: ScopeValue>(&self, scope: ScopeView<F>) -> Result<
        Integer,
        Fault,
    > {
        match self.natural_type() {
            DataType::Byte => convert(scope.byte(self.name@), |b: Byte| b as i64),
            DataType::Integer => scope.integer(self.name@),
            _ => convert(scope.float(self.name@), |f: F| f.spec_to_integer()),
        }
    }

    /// The variable read in its own kind and made a byte: of a whole number
    /// its low eight bits, of a float the nearest byte.
    pub open spec fn byte_value<F: ScopeValue>(&self, scope: ScopeView<F>) -> Result<Byte, Fault> {
        match self.natural_type() {
            DataType::Byte => scope.byte(self.name@),
            DataType::Integer => convert(scope.integer(self.name@), |i: Integer| i as u8),
            _ => convert(scope.float(self.name@), |f: F| spec_float_to_byte(f)),
        }
    }

    /// Computes the value as a float.
    pub fn compute_float<F: ScopeValue>(&self, scope: &Scope<F>) -> (r: Result<F, InterpreterError>)
        ensures
            outcome(r) == self.float_value(scope@),
    {
        match &self.type_dem {
            None => Ok(scope.get_float(&self.name)?),
            Some(d) => match d {
                TypeDenominator::ByteDenominator => Ok(
                    byte_to_float::<F>(scope.get_byte(&self.name)?),
                ),
                TypeDenominator::FloatDenominator => Ok(scope.get_float(&self.name)?),
                TypeDenominator::IntegerDenominator => Ok(
                    F::from_integer(scope.get_int(&self.name)?),
                ),
            },
        }
    }

    /// Computes the value as a whole number.
    pub fn compute_integer<F: ScopeValue>(&self, scope: &Scope<F>) -> (r: Result<
        Integer,
        InterpreterError,
    >)
        ensures
            outcome(r) == self.integer_value(scope@),
    {
        match &self.type_dem {
            None => Ok(scope.get_float(&self.name)?.to_integer()),
            Some(d) => match d {
                TypeDenominator::ByteDenominator => Ok(scope.get_byte(&self.name)? as Integer),
                TypeDenominator::FloatDenominator => Ok(scope.get_float(&self.name)?.to_integer()),
                TypeDenominator::IntegerDenominator => Ok(scope.get_int(&self.name)?),
            },
        }
    }

    /// Computes the value as a byte.
    pub fn compute_byte<F: ScopeValue>(&self, scope: &Scope<F>) -> (r: Result<
        Byte,
        InterpreterError,
    >)
        ensures
            outcome(r) == self.byte_value(scope@),
    {
        match &self.type_dem {
            None => Ok(float_to_byte(scope.get_float(&self.name)?)),
            Some(d) => match d {
                TypeDenominator::ByteDenominator => Ok(scope.get_byte(&self.name)?),
                TypeDenominator::FloatDenominator => Ok(
                    float_to_byte(scope.get_float(&self.name)?),
                ),
                TypeDenominator::IntegerDenominator => Ok(
                    Byte::from_integer(scope.get_int(&self.name)?),
                ),
            },
        }
    }

    /// The natural kind.
    pub fn get_type(&self) -> (r: DataType)
        ensures
            r == self.natural_type(),
    {
        match &self.type_dem {
            None => DataType::Float,
            Some(d) => match d {
                TypeDenominator::ByteDenominator => DataType::Byte,
                TypeDenominator::FloatDenominator => DataType::Float,
                TypeDenominator::IntegerDenominator => DataType::Integer,
            },
        }
    }
}

impl Factor {
    /// The natural kind of what the factor holds.
    pub open spec fn natural_type(&self) -> DataType
        decreases self,
    {
        match self {
            Factor::Group(g) => g.natural_type(),
            Factor::NumberLiteral(l) => l.natural_type(),
            Factor::NumericVariable(v) => v.natural_type(),
        }
    }

    /// The value as a float.
    pub open spec fn float_value<F: ScopeValue>(&self, scope: ScopeView<F>) -> Result<F, Fault>
        decreases self,
    {
        match self {
            Factor::Group(g) => g.float_value(scope),
            Factor::NumberLiteral(n) => n.float_value::<F>(),
            Factor::NumericVariable(v) => v.float_value(scope),
        }
    }

    /// The value as a whole number.
    pub open spec fn integer_value<F: ScopeValue>(&self, scope: ScopeView<F>) -> Result<
        Integer,
        Fault,
    >
        decreases self,
    {
        match self {
            Factor::Group(g) => g.integer_value(scope),
            Factor::NumberLiteral(n) => n.integer_value::<F>(),
            Factor::NumericVariable(v) => v.integer_value(scope),
        }
    }

    /// The value as a byte.
    pub open spec fn byte_value<F: ScopeValue>(&self, scope: ScopeView<F>) -> Result<Byte, Fault>
        decreases self,
    {
        match self {
            Factor::Group(g) => g.byte_value(scope),
            Factor::NumberLiteral(n) => n.byte_value(),
            Factor::NumericVariable(v) => v.byte_value(scope),
        }
    }

    /// Computes the value as a float.
    pub fn compute_float<F: ScopeValue>(&self, scope: &Scope<F>) -> (r: Result<F, InterpreterError>)
        ensures
            outcome(r) == self.float_value(scope@),
        decreases self,
    {
        match &self {
            Factor::Group(g) => g.compute_float(scope),
            Factor::NumberLiteral(n) => n.compute_float(scope),
            Factor::NumericVariable(v) => v.compute_float(scope),
        }
    }

    /// Computes the value as a whole number.
    pub fn compute_integer<F: ScopeValue>(&self, scope: &Scope<F>) -> (r: Result<
        Integer,
        InterpreterError,
    >)
        ensures
            outcome(r) == self.integer_value(scope@),
        decreases self,
    {
        match &self {
            Factor::Group(g) => g.compute_integer(scope),
            Factor::NumberLiteral(n) => n.compute_integer(scope),
            Factor::NumericVariable(v) => v.compute_integer(scope),
        }
    }

    /// Computes the value as a byte.
    pub fn compute_byte<F: ScopeValue>(&self, scope: &Scope<F>) -> (r: Result<
        Byte,
        InterpreterError,
    >)
        ensures
            outcome(r) == self.byte_value(scope@),
        decreases self,
    {
        match self {
            Factor::Group(g) => g.compute_byte(scope),
            Factor::NumberLiteral(n) => n.compute_byte(scope),
            Factor::NumericVariable(v) => v.compute_byte(scope),
        }
    }

    /// The natural kind.
    pub fn get_type(&self) -> (r: DataType)
        ensures
            r == self.natural_type(),
        decreases self,
    {
        match &self {
            Factor::Group(g) => g.get_type(),
            Factor::NumberLiteral(l) => l.get_type(),
            Factor::NumericVariable(v) => v.get_type(),
        }
    }
}

impl Term {
    /// The natural kind of a product or a quotient is the wider of the
    /// natural kinds of its two operands.
    pub open spec fn natural_type(&self) -> DataType
        decreases self,
    {
        match self {
            Term::Div(d) => d.left.natural_type().spec_wider(d.right.natural_type()),
            Term::Factor(f) => f.natural_type(),
            Term::Mul(m) => m.left.natural_type().spec_wider(m.right.natural_type()),
        }
    }

    /// The value as a float.
    pub open spec fn float_value<F: ScopeValue>(&self, scope: ScopeView<F>) -> Result<F, Fault>
        decreases self,
    {
        match self {
            Term::Div(d) => combine(
                Operator::Div,
                d.left.float_value(scope),
                d.right.float_value(scope),
            ),
            Term::Factor(f) => f.float_value(scope),
            Term::Mul(m) => combine(
                Operator::Mul,
                m.left.float_value(scope),
                m.right.float_value(scope),
            ),
        }
    }

    /// The value as a whole number.
    pub open spec fn integer_value<F: ScopeValue>(&self, scope: ScopeView<F>) -> Result<
        Integer,
        Fault,
    >
        decreases self,
    {
        match self {
            Term::Div(d) => combine(
                Operator::Div,
                d.left.integer_value(scope),
                d.right.integer_value(scope),
            ),
            Term::Factor(f) => f.integer_value(scope),
            Term::Mul(m) => combine(
                Operator::Mul,
                m.left.integer_value(scope),
                m.right.integer_value(scope),
            ),
        }
    }

    /// The value as a byte.
    pub open spec fn byte_value<F: ScopeValue>(&self, scope: ScopeView<F>) -> Result<Byte, Fault>
        decreases self,
    {
        match self {
            Term::Div(d) => combine(
                Operator::Div,
                d.left.byte_value(scope),
                d.right.byte_value(scope),
            ),
            Term::Factor(f) => f.byte_value(scope),
            Term::Mul(m) => combine(
                Operator::Mul,
                m.left.byte_value(scope),
                m.right.byte_value(scope),
            ),
        }
    }

    /// Computes the value as a float.
    pub fn compute_float<F: ScopeValue>(&self, scope: &Scope<F>) -> (r: Result<F, InterpreterError>)
        ensures
            outcome(r) == self.float_value(scope@),
        decreases self,
    {
        match self {
            Term::Div(d) => apply(
                Operator::Div,
                d.left.compute_float(scope)?,
                d.right.compute_float(scope)?,
            ),
            Term::Factor(f) => f.compute_float(scope),
            Term::Mul(m) => apply(
                Operator::Mul,
                m.left.compute_float(scope)?,
                m.right.compute_float(scope)?,
            ),
        }
    }

    /// Computes the value as a whole number.
    pub fn compute_integer<F: ScopeValue>(&self, scope: &Scope<F>) -> (r: Result<
        Integer,
        InterpreterError,
    >)
        ensures
            outcome(r) == self.integer_value(scope@),
        decreases self,
    {
        match self {
            Term::Div(d) => apply(
                Operator::Div,
                d.left.compute_integer(scope)?,
                d.right.compute_integer(scope)?,
            ),
            Term::Factor(f) => f.compute_integer(scope),
            Term::Mul(m) => apply(
                Operator::Mul,
                m.left.compute_integer(scope)?,
                m.right.compute_integer(scope)?,
            ),
        }
    }

    /// Computes the value as a byte.
    pub fn compute_byte<F: ScopeValue>(&self, scope: &Scope<F>) -> (r: Result<
        Byte,
        InterpreterError,
    >)
        ensures
            outcome(r) == self.byte_value(scope@),
        decreases self,
    {
        match self {
            Term::Div(d) => apply(
                Operator::Div,
                d.left.compute_byte(scope)?,
                d.right.compute_byte(scope)?,
            ),
            Term::Factor(f) => f.compute_byte(scope),
            Term::Mul(m) => apply(
                Operator::Mul,
                m.left.compute_byte(scope)?,
                m.right.compute_byte(scope)?,
            ),
        }
    }

    /// The natural kind.
    pub fn get_type(&self) -> (r: DataType)
        ensures
            r == self.natural_type(),
        decreases self,
    {
        match self {
            Term::Div(d) => d.left.get_type().wider(d.right.get_type()),
            Term::Mul(d) => d.left.get_type().wider(d.right.get_type()),
            Term::Factor(d) => d.get_type(),
        }
    }
}

impl Group {
    /// Brackets leave the kind of what they hold as it is.
    pub open spec fn natural_type(&self) -> DataType
        decreases self,
    {
        self.body.natural_type()
    }

    /// The value as a float.
    pub open spec fn float_value<F: ScopeValue>(&self, scope: ScopeView<F>) -> Result<F, Fault>
        decreases self,
    {
        self.body.float_value(scope)
    }

    /// The value as a whole number.
    pub open spec fn integer_value<F: ScopeValue>(&self, scope: ScopeView<F>) -> Result<
        Integer,
        Fault,
    >
        decreases self,
    {
        self.body.integer_value(scope)
    }

    /// The value as a byte.
    pub open spec fn byte_value<F: ScopeValue>(&self, scope: ScopeView<F>) -> Result<Byte, Fault>
        decreases self,
    {
        self.body.byte_value(scope)
    }

    /// Computes the value as a float.
    pub fn compute_float<F: ScopeValue>(&self, scope: &Scope<F>) -> (r: Result<F, InterpreterError>)
        ensures
            outcome(r) == self.float_value(scope@),
        decreases self,
    {
        self.body.compute_float(scope)
    }

    /// Computes the value as a whole number.
    pub fn compute_integer<F: ScopeValue>(&self, scope: &Scope<F>) -> (r: Result<
        Integer,
        InterpreterError,
    >)
        ensures
            outcome(r) == self.integer_value(scope@),
        decreases self,
    {
        self.body.compute_integer(scope)
    }

    /// Computes the value as a byte.
    pub fn compute_byte<F: ScopeValue>(&self, scope: &Scope<F>) -> (r: Result<
        Byte,
        InterpreterError,
    >)
        ensures
            outcome(r) == self.byte_value(scope@),
        decreases self,
    {
        self.body.compute_byte(scope)
    }

    /// The natural kind.
    pub fn get_type(&self) -> (r: DataType)
        ensures
            r == self.natural_type(),
        decreases self,
    {
        self.body.get_type()
    }
}

impl Expression {
    /// The natural kind of a sum or a difference is the wider of the natural
    /// kinds of its two operands.
    pub open spec fn natural_type(&self) -> DataType
        decreases self,
    {
        match self {
            Expression::Add(a) => a.left.natural_type().spec_wider(a.right.natural_type()),
            Expression::Sub(s) => s.left.natural_type().spec_wider(s.right.natural_type()),
            Expression::Term(t) => t.natural_type(),
        }
    }

    /// The expression computed in floats throughout.
    pub open spec fn float_value<F: ScopeValue>(&self, scope: ScopeView<F>) -> Result<F, Fault>
        decreases self,
    {
        match self {
            Expression::Add(a) => combine(
                Operator::Add,
                a.left.float_value(scope),
                a.right.float_value(scope),
            ),
            Expression::Sub(s) => combine(
                Operator::Sub,
                s.left.float_value(scope),
                s.right.float_value(scope),
            ),
            Expression::Term(t) => t.float_value(scope),
        }
    }

    /// The expression computed in whole numbers throughout.
    pub open spec fn integer_value<F: ScopeValue>(&self, scope: ScopeView<F>) -> Result<
        Integer,
        Fault,
    >
        decreases self,
    {
        match self {
            Expression::Add(a) => combine(
                Operator::Add,
                a.left.integer_value(scope),
                a.right.integer_value(scope),
            ),
            Expression::Sub(s) => combine(
                Operator::Sub,
                s.left.integer_value(scope),
                s.right.integer_value(scope),
            ),
            Expression::Term(t) => t.integer_value(scope),
        }
    }

    /// The expression computed in bytes throughout.
    pub open spec fn byte_value<F: ScopeValue>(&self, scope: ScopeView<F>) -> Result<Byte, Fault>
        decreases self,
    {
        match self {
            Expression::Add(a) => combine(
                Operator::Add,
                a.left.byte_value(scope),
                a.right.byte_value(scope),
            ),
            Expression::Sub(s) => combine(
                Operator::Sub,
                s.left.byte_value(scope),
                s.right.byte_value(scope),
            ),
            Expression::Term(t) => t.byte_value(scope),
        }
    }

    /// The expression computed in its natural kind.
    pub open spec fn value<F: ScopeValue>(&self, scope: ScopeView<F>) -> Result<
        ValueView<F>,
        Fault,
    > {
        match self.natural_type() {
            DataType::Byte => convert(self.byte_value(scope), |b: Byte| ValueView::<F>::Byte(b)),
            DataType::Integer => convert(
                self.integer_value(scope),
                |i: Integer| ValueView::<F>::Integer(i),
            ),
            DataType::Float => convert(self.float_value(scope), |f: F| ValueView::Float(f)),
            DataType::String => Err(Fault::TypeMismatch),
        }
    }

    /// Computes the value as a float.
    pub fn compute_float<F: ScopeValue>(&self, scope: &Scope<F>) -> (r: Result<F, InterpreterError>)
        ensures
            outcome(r) == self.float_value(scope@),
        decreases self,
    {
        match self {
            Expression::Add(a) => apply(
                Operator::Add,
                a.left.compute_float(scope)?,
                a.right.compute_float(scope)?,
            ),
            Expression::Sub(s) => apply(
                Operator::Sub,
                s.left.compute_float(scope)?,
                s.right.compute_float(scope)?,
            ),
            Expression::Term(t) => t.compute_float(scope),
        }
    }

    /// Computes the value as a whole number.
    pub fn compute_integer<F: ScopeValue>(&self, scope: &Scope<F>) -> (r: Result<
        Integer,
        InterpreterError,
    >)
        ensures
            outcome(r) == self.integer_value(scope@),
        decreases self,
    {
        match self {
            Expression::Add(a) => apply(
                Operator::Add,
                a.left.compute_integer(scope)?,
                a.right.compute_integer(scope)?,
            ),
            Expression::Sub(s) => apply(
                Operator::Sub,
                s.left.compute_integer(scope)?,
                s.right.compute_integer(scope)?,
            ),
            Expression::Term(t) => t.compute_integer(scope),
        }
    }

    /// Computes the value as a byte.
    pub fn compute_byte<F: ScopeValue>(&self, scope: &Scope<F>) -> (r: Result<
        Byte,
        InterpreterError,
    >)
        ensures
            outcome(r) == self.byte_value(scope@),
        decreases self,
    {
        match self {
            Expression::Add(a) => apply(
                Operator::Add,
                a.left.compute_byte(scope)?,
                a.right.compute_byte(scope)?,
            ),
            Expression::Sub(s) => apply(
                Operator::Sub,
                s.left.compute_byte(scope)?,
                s.right.compute_byte(scope)?,
            ),
            Expression::Term(t) => t.compute_byte(scope),
        }
    }

    /// The natural kind.
    pub fn get_type(&self) -> (r: DataType)
        ensures
            r == self.natural_type(),
        decreases self,
    {
        match self {
            Expression::Add(d) => d.left.get_type().wider(d.right.get_type()),
            Expression::Sub(d) => d.left.get_type().wider(d.right.get_type()),
            Expression::Term(d) => d.get_type(),
        }
    }

    /// Computes the expression in its natural kind.
    pub fn compute<F: ScopeValue>(&self, scope: &Scope<F>) -> (r: Result<
        Value<F>,
        InterpreterError,
    >)
        ensures
            value_outcome(r) == self.value(scope@),
    {
        match self.get_type() {
            DataType::Byte => Ok(Value::Byte(self.compute_byte(scope)?)),
            DataType::Integer => Ok(Value::Integer(self.compute_integer(scope)?)),
            DataType::Float => Ok(Value::Float(self.compute_float(scope)?)),
            _ => Err(InterpreterError::TypeMismatch),
        }
    }
}

} // verus!
