use vstd::prelude::*;
use crate::single::Single;

verus! {

/// A value as the engine hands it back: loosely typed, of any shape.
#[derive(Debug, PartialEq, Eq)]
pub enum RawValue {
    /// The engine's null.
    Nothing,
    Flag(bool),
    Integer(i64),
    Number(Single),
    Text(String),
    Bytes(Vec<u8>),
    /// A fixed-arity group of values.
    Tuple(Vec<RawValue>),
    /// A list-like group of values.
    List(Vec<RawValue>),
    /// A value that exposes named attributes, in the order they were read.
    Object(Vec<(String, RawValue)>),
}

/// The index of the first attribute at or after `from` that is called `name`.
pub open spec fn position_from(fields: Seq<(String, RawValue)>, name: Seq<char>, from: int) -> Option<int>
    decreases fields.len() - from,
{
    if from < 0 || from >= fields.len() {
        None
    } else if fields[from].0@ == name {
        Some(from)
    } else {
        position_from(fields, name, from + 1)
    }
}

impl RawValue {
    /// The attribute called `name` that the value exposes: the first of that
    /// name on an object, none on any other value.
    pub open spec fn attribute_spec(self, name: Seq<char>) -> Option<RawValue> {
        match self {
            RawValue::Object(fields) => match position_from(fields@, name, 0) {
                Some(i) => Some(fields@[i].1),
                None => None,
            },
            _ => None,
        }
    }

    /// Looks an attribute up by name.
    pub fn attribute<'a>(&'a self, name: &String) -> (found: Option<&'a RawValue>)
        ensures
            match found {
                Some(v) => self.attribute_spec(name@) == Some(*v),
                None => self.attribute_spec(name@).is_none(),
            },
    {
        match self {
            RawValue::Object(fields) => {
                let mut i: usize = 0;
                while i < fields.len()
                    invariant
                        i <= fields.len(),
                        *self == RawValue::Object(*fields),
                        position_from(fields@, name@, 0) == position_from(fields@, name@, i as int),
                    decreases fields.len() - i,
                {
                    if fields[i].0 == *name {
                        return Some(&fields[i].1);
                    }
                    i += 1;
                }
                None
            },
            _ => None,
        }
    }
}

/// `position_from` finds the least index that carries the name.
pub proof fn lemma_position_is_first(fields: Seq<(String, RawValue)>, name: Seq<char>, from: int)
    requires
        0 <= from,
    ensures
        match position_from(fields, name, from) {
            Some(i) => from <= i < fields.len() && fields[i].0@ == name
                && forall|j: int| from <= j < i ==> fields[j].0@ != name,
            None => forall|j: int| from <= j < fields.len() ==> fields[j].0@ != name,
        },
    decreases fields.len() - from,
{
    if from < fields.len() && fields[from].0@ != name {
        lemma_position_is_first(fields, name, from + 1);
    }
}

} // verus!
