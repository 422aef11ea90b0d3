//! The variables of a running program.

use vstd::prelude::*;
use crate::error::{outcome, unknown_variable, Fault, InterpreterError};
use crate::kind::{Byte, DataType, Integer, ScopeValue};
use crate::syntax::{NumericVariable, TypeDenominator};
use crate::value::{value_outcome, Value, ValueView};

verus! {

/// A mapping from names to values of one kind, kept as a list of entries of
/// which the first under a name counts.
pub struct Table<T> {
    entries: Vec<(String, T)>,
}

/// The value of the first entry under `key`.
pub closed spec fn first_under<T>(entries: Seq<(String, T)>, key: Seq<char>) -> Option<T>
    decreases entries.len(),
{
    if entries.len() == 0 {
        None
    } else if entries[0].0@ == key {
        Some(entries[0].1)
    } else {
        first_under(entries.skip(1), key)
    }
}

proof fn lemma_first_under_found<T>(entries: Seq<(String, T)>, key: Seq<char>, i: int)
    requires
        0 <= i < entries.len(),
        entries[i].0@ == key,
        forall|j: int| 0 <= j < i ==> (#[trigger] entries[j]).0@ != key,
    ensures
        first_under(entries, key) == Some(entries[i].1),
    decreases i,
{
    if i > 0 {
        assert(entries[0].0@ != key);
        let rest = entries.skip(1);
        assert forall|j: int| 0 <= j < i - 1 implies (#[trigger] rest[j]).0@ != key by {
            assert(rest[j] == entries[j + 1]);
        }
        lemma_first_under_found(rest, key, i - 1);
    }
}

proof fn lemma_first_under_absent<T>(entries: Seq<(String, T)>, key: Seq<char>)
    requires
        forall|j: int| 0 <= j < entries.len() ==> (#[trigger] entries[j]).0@ != key,
    ensures
        first_under(entries, key) is None,
    decreases entries.len(),
{
    if entries.len() > 0 {
        assert(entries[0].0@ != key);
        let rest = entries.skip(1);
        assert forall|j: int| 0 <= j < rest.len() implies (#[trigger] rest[j]).0@ != key by {
            assert(rest[j] == entries[j + 1]);
        }
        lemma_first_under_absent(rest, key);
    }
}

/// Replacing the first entry under a name changes what is found under that
/// name and nothing else.
proof fn lemma_first_under_update<T>(
    entries: Seq<(String, T)>,
    i: int,
    entry: (String, T),
    key: Seq<char>,
)
    requires
        0 <= i < entries.len(),
        entries[i].0@ == entry.0@,
        forall|j: int| 0 <= j < i ==> (#[trigger] entries[j]).0@ != entry.0@,
    ensures
        first_under(entries.update(i, entry), key) == if key == entry.0@ {
            Some(entry.1)
        } else {
            first_under(entries, key)
        },
    decreases i,
{
    let updated = entries.update(i, entry);
    if i == 0 {
        assert(updated.skip(1) =~= entries.skip(1));
    } else {
        assert(entries[0].0@ != entry.0@);
        let rest = entries.skip(1);
        assert forall|j: int| 0 <= j < i - 1 implies (#[trigger] rest[j]).0@ != entry.0@ by {
            assert(rest[j] == entries[j + 1]);
        }
        assert(updated.skip(1) =~= rest.update(i - 1, entry));
        lemma_first_under_update(rest, i - 1, entry, key);
    }
}

/// A new last entry is found under its name where no earlier entry is.
proof fn lemma_first_under_push<T>(entries: Seq<(String, T)>, entry: (String, T), key: Seq<char>)
    ensures
        first_under(entries.push(entry), key) == match first_under(entries, key) {
            Some(v) => Some(v),
            None => if key == entry.0@ {
                Some(entry.1)
            } else {
                None
            },
        },
    decreases entries.len(),
{
    let pushed = entries.push(entry);
    if entries.len() == 0 {
        assert(pushed[0] == entry);
        assert(pushed.skip(1).len() == 0);
        assert(first_under(pushed.skip(1), key) is None);
    } else {
        assert(pushed[0] == entries[0]);
        assert(pushed.skip(1) =~= entries.skip(1).push(entry));
        lemma_first_under_push(entries.skip(1), entry, key);
    }
}

impl<T> View for Table<T> {
    type V = Map<Seq<char>, T>;

    closed spec fn view(&self) -> Map<Seq<char>, T> {
        Map::new(
            |k: Seq<char>| first_under(self.entries@, k) is Some,
            |k: Seq<char>| first_under(self.entries@, k).unwrap(),
        )
    }
}

impl<T> Table<T> {
    /// The table that maps no name.
    pub fn new() -> (r: Table<T>)
        ensures
            r@ == Map::<Seq<char>, T>::empty(),
    {
        let r = Table { entries: Vec::new() };
        assert(r@ =~= Map::<Seq<char>, T>::empty());
        r
    }

    /// The position of the first entry under `name`.
    fn position(&self, name: &String) -> (r: Option<usize>)
        ensures
            match r {
                Some(i) => i < self.entries@.len() && self.entries@[i as int].0@ == name@
                    && forall|j: int| 0 <= j < i ==> (#[trigger] self.entries@[j]).0@ != name@,
                None => forall|j: int|
                    0 <= j < self.entries@.len() ==> (#[trigger] self.entries@[j]).0@ != name@,
            },
    {
        let mut i: usize = 0;
        while i < self.entries.len()
            invariant
                i <= self.entries@.len(),
                forall|j: int| 0 <= j < i ==> (#[trigger] self.entries@[j]).0@ != name@,
            decreases self.entries@.len() - i,
        {
            if self.entries[i].0 == *name {
                return Some(i);
            }
            i = i + 1;
        }
        None
    }

    /// The value under `name`, if the table maps it.
    pub fn get(&self, name: &String) -> (r: Option<&T>)
        ensures
            match r {
                Some(v) => self@.contains_key(name@) && self@[name@] == *v,
                None => !self@.contains_key(name@),
            },
    {
        match self.position(name) {
            Some(i) => {
                proof {
                    lemma_first_under_found(self.entries@, name@, i as int);
                }
                Some(&self.entries[i].1)
            },
            None => {
                proof {
                    lemma_first_under_absent(self.entries@, name@);
                }
                None
            },
        }
    }

    /// Whether the table maps `name`.
    pub fn contains_key(&self, name: &String) -> (r: bool)
        ensures
            r == self@.contains_key(name@),
    {
        self.get(name).is_some()
    }

    /// Maps `name` to `value`, whether or not it was mapped before.
    pub fn insert(&mut self, name: &String, value: T)
        ensures
            final(self)@ == old(self)@.insert(name@, value),
    {
        let ghost before = self.entries@;
        let entry = (name.clone(), value);
        match self.position(name) {
            Some(i) => {
                self.entries.set(i, entry);
                proof {
                    assert forall|k: Seq<char>|
                        first_under(self.entries@, k) == if k == name@ {
                            Some(value)
                        } else {
                            first_under(before, k)
                        } by {
                        lemma_first_under_update(before, i as int, entry, k);
                    }
                }
            },
            None => {
                self.entries.push(entry);
                proof {
                    lemma_first_under_absent(before, name@);
                    assert forall|k: Seq<char>|
                        first_under(self.entries@, k) == if k == name@ {
                            Some(value)
                        } else {
                            first_under(before, k)
                        } by {
                        lemma_first_under_push(before, entry, k);
                    }
                }
            },
        }
        assert(self@ =~= old(self)@.insert(name@, value));
    }
}

/// The mathematical content of a [`Scope`]: one mapping for each kind of
/// data, each from names to values, the four independent of one another.
pub struct ScopeView<F> {
    pub floats: Map<Seq<char>, F>,
    pub ints: Map<Seq<char>, Integer>,
    pub bytes: Map<Seq<char>, Byte>,
    pub strings: Map<Seq<char>, Seq<char>>,
}

impl<F> ScopeView<F> {
    /// The scope in which no variable is set.
    pub open spec fn empty() -> ScopeView<F> {
        ScopeView {
            floats: Map::empty(),
            ints: Map::empty(),
            bytes: Map::empty(),
            strings: Map::empty(),
        }
    }

    /// What a read of the float `name` yields.
    pub open spec fn float(self, name: Seq<char>) -> Result<F, Fault> {
        if self.floats.contains_key(name) {
            Ok(self.floats[name])
        } else {
            Err(Fault::UnknownVariable(name))
        }
    }

    /// What a read of the whole number `name` yields.
    pub open spec fn integer(self, name: Seq<char>) -> Result<Integer, Fault> {
        if self.ints.contains_key(name) {
            Ok(self.ints[name])
        } else {
            Err(Fault::UnknownVariable(name))
        }
    }

    /// What a read of the byte `name` yields.
    pub open spec fn byte(self, name: Seq<char>) -> Result<Byte, Fault> {
        if self.bytes.contains_key(name) {
            Ok(self.bytes[name])
        } else {
            Err(Fault::UnknownVariable(name))
        }
    }

    /// What a read of the text `name` yields.
    pub open spec fn string(self, name: Seq<char>) -> Result<Seq<char>, Fault> {
        if self.strings.contains_key(name) {
            Ok(self.strings[name])
        } else {
            Err(Fault::UnknownVariable(name))
        }
    }

    /// What a read of a numeric variable yields: the value that the mapping
    /// of its suffix holds under its name, a variable without a suffix being a
    /// float.
    pub open spec fn get(self, variable: &NumericVariable) -> Result<ValueView<F>, Fault> {
        match variable.type_dem {
            None => match self.float(variable.name@) {
                Ok(v) => Ok(ValueView::Float(v)),
                Err(e) => Err(e),
            },
            Some(TypeDenominator::ByteDenominator) => match self.byte(variable.name@) {
                Ok(v) => Ok(ValueView::Byte(v)),
                Err(e) => Err(e),
            },
            Some(TypeDenominator::FloatDenominator) => match self.float(variable.name@) {
                Ok(v) => Ok(ValueView::Float(v)),
                Err(e) => Err(e),
            },
            Some(TypeDenominator::IntegerDenominator) => match self.integer(variable.name@) {
                Ok(v) => Ok(ValueView::Integer(v)),
                Err(e) => Err(e),
            },
        }
    }

    /// The scope after the float `name` was set.
    pub open spec fn set_float(self, name: Seq<char>, value: F) -> ScopeView<F> {
        ScopeView { floats: self.floats.insert(name, value), ..self }
    }

    /// The scope after the whole number `name` was set.
    pub open spec fn set_int(self, name: Seq<char>, value: Integer) -> ScopeView<F> {
        ScopeView { ints: self.ints.insert(name, value), ..self }
    }

    /// The scope after the byte `name` was set.
    pub open spec fn set_byte(self, name: Seq<char>, value: Byte) -> ScopeView<F> {
        ScopeView { bytes: self.bytes.insert(name, value), ..self }
    }

    /// The scope after the text `name` was set.
    pub open spec fn set_string(self, name: Seq<char>, value: Seq<char>) -> ScopeView<F> {
        ScopeView { strings: self.strings.insert(name, value), ..self }
    }

    /// The kind under which `name` is set, the float mapping asked first,
    /// then the whole numbers, the bytes and the texts.
    pub open spec fn is(self, name: Seq<char>) -> Result<DataType, Fault> {
        if self.floats.contains_key(name) {
            Ok(DataType::Float)
        } else if self.ints.contains_key(name) {
            Ok(DataType::Integer)
        } else if self.bytes.contains_key(name) {
            Ok(DataType::Byte)
        } else if self.strings.contains_key(name) {
            Ok(DataType::String)
        } else {
            Err(Fault::UnknownVariable(name))
        }
    }
}

/// The variables of a running program, each kind of data in a mapping of
/// its own. A name can be set under several kinds at once: which of them a
/// read sees is decided by the kind that the read asks for.
pub struct Scope<F> {
    floats: Table<F>,
    ints: Table<Integer>,
    bytes: Table<Byte>,
    strings: Table<String>,
}

impl<F> View for Scope<F> {
    type V = ScopeView<F>;

    closed spec fn view(&self) -> ScopeView<F> {
        ScopeView {
            floats: self.floats@,
            ints: self.ints@,
            bytes: self.bytes@,
            strings: self.strings@.map_values(|s: String| s@),
        }
    }
}

impl<F: ScopeValue> Scope<F> {
    /// The scope in which no variable is set.
    pub fn new() -> (r: Scope<F>)
        ensures
            r@ == ScopeView::<F>::empty(),
    {
        let r = Scope {
            floats: Table::new(),
            ints: Table::new(),
            bytes: Table::new(),
            strings: Table::new(),
        };
        assert(r@.strings =~= Map::<Seq<char>, Seq<char>>::empty());
        r
    }

    /// Reads a numeric variable in the kind of its suffix.
    pub fn get(&self, variable: &NumericVariable) -> (r: Result<Value<F>, InterpreterError>)
        ensures
            value_outcome(r) == self@.get(variable),
    {
        match &variable.type_dem {
            None => Ok(Value::Float(self.get_float(&variable.name)?)),
            Some(t) => match t {
                TypeDenominator::ByteDenominator => Ok(
                    Value::Byte(self.get_byte(&variable.name)?),
                ),
                TypeDenominator::FloatDenominator => Ok(
                    Value::Float(self.get_float(&variable.name)?),
                ),
                TypeDenominator::IntegerDenominator => Ok(
                    Value::Integer(self.get_int(&variable.name)?),
                ),
            },
        }
    }

    /// Sets the float `name`, whether or not it was set before.
    pub fn set_float(&mut self, name: &String, value: F)
        ensures
            final(self)@ == old(self)@.set_float(name@, value),
    {
        self.floats.insert(name, value);
    }

    /// Sets the whole number `name`, whether or not it was set before.
    pub fn set_int(&mut self, name: &String, value: Integer)
        ensures
            final(self)@ == old(self)@.set_int(name@, value),
    {
        self.ints.insert(name, value);
    }

    /// Sets the byte `name`, whether or not it was set before.
    pub fn set_byte(&mut self, name: &String, value: Byte)
        ensures
            final(self)@ == old(self)@.set_byte(name@, value),
    {
        self.bytes.insert(name, value);
    }

    /// Sets the text `name`, whether or not it was set before.
    pub fn set_string(&mut self, name: &String, value: String)
        ensures
            final(self)@ == old(self)@.set_string(name@, value@),
    {
        self.strings.insert(name, value);
        assert(final(self)@.strings =~= old(self)@.strings.insert(name@, value@));
    }

    /// Reads the float `name`.
    pub fn get_float(&self, name: &String) -> (r: Result<F, InterpreterError>)
        ensures
            outcome(r) == self@.float(name@),
    {
        match self.floats.get(name) {
            None => Err(unknown_variable(name)),
            Some(v) => Ok(*v),
        }
    }

    /// Reads the whole number `name`.
    pub fn get_int(&self, name: &String) -> (r: Result<Integer, InterpreterError>)
        ensures
            outcome(r) == self@.integer(name@),
    {
        match self.ints.get(name) {
            None => Err(unknown_variable(name)),
            Some(v) => Ok(*v),
        }
    }

    /// Reads the byte `name`.
    pub fn get_byte(&self, name: &String) -> (r: Result<Byte, InterpreterError>)
        ensures
            outcome(r) == self@.byte(name@),
    {
        match self.bytes.get(name) {
            None => Err(unknown_variable(name)),
            Some(v) => Ok(*v),
        }
    }

    /// Reads the text `name`.
    pub fn get_string(&self, name: &String) -> (r: Result<&String, InterpreterError>)
        ensures
            match r {
                Ok(text) => self@.string(name@) == Ok::<Seq<char>, Fault>(text@),
                Err(e) => self@.string(name@) == Err::<Seq<char>, Fault>(e@),
            },
    {
        match self.strings.get(name) {
            None => Err(unknown_variable(name)),
            Some(v) => Ok(v),
        }
    }

    /// The kind under which `name` is set.
    pub fn is(&self, name: &String) -> (r: Result<DataType, InterpreterError>)
        ensures
            outcome(r) == self@.is(name@),
    {
        if self.floats.contains_key(name) {
            return Ok(DataType::Float);
        }
        if self.ints.contains_key(name) {
            return Ok(DataType::Integer);
        }
        if self.bytes.contains_key(name) {
            return Ok(DataType::Byte);
        }
        if self.strings.contains_key(name) {
            return Ok(DataType::String);
        }
        Err(unknown_variable(name))
    }
}

} // verus!
