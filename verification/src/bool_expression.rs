//! The truth of a condition: comparisons joined by `AND` and `OR`, both of
//! which stop at the first operand that decides.

use vstd::prelude::*;
use crate::error::{not_implemented, Fault, InterpreterError};
use crate::kind::{Relation, ScopeValue};
use crate::scope::{Scope, ScopeView};
use crate::syntax::{
    BoolCondition, BoolConjunction, BoolDisjunction, BoolExpression, BoolOperand, BoolOperator,
    BoolTerm,
};
use crate::value::{spec_compare, value_outcome, Value, ValueView};

verus! {

/// A truth value, or an error, as the value that a condition yields.
pub open spec fn as_value<F>(truth: Result<bool, Fault>) -> Result<ValueView<F>, Fault> {
    match truth {
        Ok(b) => Ok(ValueView::Boolean(b)),
        Err(e) => Err(e),
    }
}

/// The description of the error that a term without content yields.
pub open spec fn empty_term_description() -> Seq<char> {
    "Boolean term without content"@
}

impl BoolOperator {
    /// The relation that the operator asks for, and whether its answer is
    /// turned round: unequal is the reverse of equal.
    pub open spec fn spec_relation(self) -> (Relation, bool) {
        match self {
            BoolOperator::BoolOpEqual => (Relation::Equal, false),
            BoolOperator::BoolOpGreater => (Relation::Greater, false),
            BoolOperator::BoolOpGreaterEqual => (Relation::GreaterEqual, false),
            BoolOperator::BoolOpLower => (Relation::Lower, false),
            BoolOperator::BoolOpLowerEqual => (Relation::LowerEqual, false),
            BoolOperator::BoolOpNotEqual => (Relation::Equal, true),
        }
    }

    /// The relation that the operator asks for, and whether its answer is turned round.
    #[verifier::when_used_as_spec(spec_relation)]
    pub fn relation(self) -> (r: (Relation, bool))
        ensures
            r == self.spec_relation(),
    {
        match self {
            BoolOperator::BoolOpEqual => (Relation::Equal, false),
            BoolOperator::BoolOpGreater => (Relation::Greater, false),
            BoolOperator::BoolOpGreaterEqual => (Relation::GreaterEqual, false),
            BoolOperator::BoolOpLower => (Relation::Lower, false),
            BoolOperator::BoolOpLowerEqual => (Relation::LowerEqual, false),
            BoolOperator::BoolOpNotEqual => (Relation::Equal, true),
        }
    }
}

impl BoolOperand {
    /// The operand's value: an expression in its natural kind, a literal as
    /// its text.
    pub open spec fn value<F: ScopeValue>(&self, scope: ScopeView<F>) -> Result<
        ValueView<F>,
        Fault,
    > {
        match self {
            BoolOperand::Expression(e) => e.value(scope),
            BoolOperand::StringLiteral(s) => Ok(ValueView::String(s.body@)),
        }
    }

    /// Computes the operand's value.
    pub fn compute_bool<F: ScopeValue>(&self, scope: &Scope<F>) -> (r: Result<
        Value<F>,
        InterpreterError,
    >)
        ensures
            value_outcome(r) == self.value(scope@),
    {
        match self {
            BoolOperand::Expression(e) => e.compute(scope),
            BoolOperand::StringLiteral(s) => Ok(Value::String(s.body.clone())),
        }
    }
}

impl BoolCondition {
    /// Whether the comparison holds. The left operand is computed first; an
    /// error of either operand, or of the comparison itself, is the result.
    pub open spec fn truth<F: ScopeValue>(&self, scope: ScopeView<F>) -> Result<bool, Fault> {
        match self.left.value(scope) {
            Err(e) => Err(e),
            Ok(left) => match self.right.value(scope) {
                Err(e) => Err(e),
                Ok(right) => match spec_compare(self.op.spec_relation().0, left, right) {
                    Err(e) => Err(e),
                    Ok(holds) => Ok(holds != self.op.spec_relation().1),
                },
            },
        }
    }

    /// Computes whether the comparison holds.
    pub fn compute_bool<F: ScopeValue>(&self, scope: &Scope<F>) -> (r: Result<
        Value<F>,
        InterpreterError,
    >)
        ensures
            value_outcome(r) == as_value::<F>(self.truth(scope@)),
    {
        let left = self.left.compute_bool(scope)?;
        let right = self.right.compute_bool(scope)?;
        let (relation, reversed) = self.op.relation();
        let holds = left.compare(relation, &right)?;
        Ok(Value::Boolean(holds != reversed))
    }
}

impl BoolTerm {
    /// Whether the term holds: the condition in brackets where there is one,
    /// else the comparison. A term with neither is not carried out.
    pub open spec fn truth<F: ScopeValue>(&self, scope: ScopeView<F>) -> Result<bool, Fault>
        decreases self, 0nat,
    {
        match self.expression {
            Some(e) => e.truth(scope),
            None => match self.condition {
                Some(c) => c.truth(scope),
                None => Err(Fault::NotImplemented(empty_term_description())),
            },
        }
    }

    /// Computes whether the term holds.
    pub fn compute_bool<F: ScopeValue>(&self, scope: &Scope<F>) -> (r: Result<
        Value<F>,
        InterpreterError,
    >)
        ensures
            value_outcome(r) == as_value::<F>(self.truth(scope@)),
        decreases self, 0nat,
    {
        match &self.expression {
            None => {},
            Some(e) => return e.compute_bool(scope),
        };
        match &self.condition {
            None => {},
            Some(c) => return c.compute_bool(scope),
        };
        Err(not_implemented("Boolean term without content"))
    }
}

impl BoolConjunction {
    /// Whether the terms from position `i` on all hold, asked from left to
    /// right: the first term that does not hold, or that fails, decides, and
    /// no term after it is computed.
    pub open spec fn truth_from<F: ScopeValue>(&self, scope: ScopeView<F>, i: int) -> Result<
        bool,
        Fault,
    >
        decreases self, self.term@.len() - i,
    {
        if 0 <= i < self.term@.len() {
            match self.term@[i].truth(scope) {
                Err(e) => Err(e),
                Ok(false) => Ok(false),
                Ok(true) => self.truth_from(scope, i + 1),
            }
        } else {
            Ok(true)
        }
    }

    /// Whether all terms hold.
    pub open spec fn truth<F: ScopeValue>(&self, scope: ScopeView<F>) -> Result<bool, Fault>
        decreases self, self.term@.len() + 1,
    {
        self.truth_from(scope, 0)
    }

    /// Computes whether all terms hold, up to the first that does not.
    pub fn compute_bool<F: ScopeValue>(&self, scope: &Scope<F>) -> (r: Result<
        Value<F>,
        InterpreterError,
    >)
        ensures
            value_outcome(r) == as_value::<F>(self.truth(scope@)),
        decreases self, self.term@.len() + 1,
    {
        let mut i: usize = 0;
        while i < self.term.len()
            invariant
                i <= self.term@.len(),
                self.truth_from(scope@, i as int) == self.truth(scope@),
            decreases self.term@.len() - i,
        {
            match self.term[i].compute_bool(scope)? {
                Value::Boolean(b) => if b == false {
                    return Ok(Value::Boolean(false));
                },
                _ => return Err(InterpreterError::TypeMismatch),
            }
            i = i + 1;
        }
        Ok(Value::Boolean(true))
    }
}

impl BoolDisjunction {
    /// Whether one of the conjunctions from position `i` on holds, asked from
    /// left to right: the first that holds, or that fails, decides, and none
    /// after it is computed.
    pub open spec fn truth_from<F: ScopeValue>(&self, scope: ScopeView<F>, i: int) -> Result<
        bool,
        Fault,
    >
        decreases self, self.conjunction@.len() - i,
    {
        if 0 <= i < self.conjunction@.len() {
            match self.conjunction@[i].truth(scope) {
                Err(e) => Err(e),
                Ok(true) => Ok(true),
                Ok(false) => self.truth_from(scope, i + 1),
            }
        } else {
            Ok(false)
        }
    }

    /// Whether one of the conjunctions holds.
    pub open spec fn truth<F: ScopeValue>(&self, scope: ScopeView<F>) -> Result<bool, Fault>
        decreases self, self.conjunction@.len() + 1,
    {
        self.truth_from(scope, 0)
    }

    /// Computes whether one conjunction holds, up to the first that does.
    pub fn compute_bool<F: ScopeValue>(&self, scope: &Scope<F>) -> (r: Result<
        Value<F>,
        InterpreterError,
    >)
        ensures
            value_outcome(r) == as_value::<F>(self.truth(scope@)),
        decreases self, self.conjunction@.len() + 1,
    {
        let mut i: usize = 0;
        while i < self.conjunction.len()
            invariant
                i <= self.conjunction@.len(),
                self.truth_from(scope@, i as int) == self.truth(scope@),
            decreases self.conjunction@.len() - i,
        {
            match self.conjunction[i].compute_bool(scope)? {
                Value::Boolean(b) => if b == true {
                    return Ok(Value::Boolean(true));
                },
                _ => return Err(InterpreterError::TypeMismatch),
            }
            i = i + 1;
        }
        Ok(Value::Boolean(false))
    }
}

impl BoolExpression {
    /// Whether the condition holds.
    pub open spec fn truth<F: ScopeValue>(&self, scope: ScopeView<F>) -> Result<bool, Fault>
        decreases self, 0nat,
    {
        self.disjunction.truth(scope)
    }

    /// Computes whether the condition holds.
    pub fn compute_bool<F: ScopeValue>(&self, scope: &Scope<F>) -> (r: Result<
        Value<F>,
        InterpreterError,
    >)
        ensures
            value_outcome(r) == as_value::<F>(self.truth(scope@)),
        decreases self, 0nat,
    {
        self.disjunction.compute_bool(scope)
    }
}

} // verus!
