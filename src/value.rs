use vstd::prelude::*;

verus! {

/// The kind of a decoded value, as far as the decoder needs to tell them apart.
#[derive(Debug, Clone, Copy, PartialEq, Eq, Structural)]
pub enum Kind {
    Null,
    Bool,
    Number,
    Str,
    Array,
    Object,
}

impl Kind {
    pub open spec fn spec_name(&self) -> Seq<char> {
        match self {
            Kind::Null => "null"@,
            Kind::Bool => "boolean"@,
            Kind::Number => "number"@,
            Kind::Str => "string"@,
            Kind::Array => "sequence"@,
            Kind::Object => "map"@,
        }
    }

    /// How this kind is named in messages.
    pub fn name(&self) -> (r: &'static str)
        ensures
            r@ == self.spec_name(),
    {
        match self {
            Kind::Null => "null",
            Kind::Bool => "boolean",
            Kind::Number => "number",
            Kind::Str => "string",
            Kind::Array => "sequence",
            Kind::Object => "map",
        }
    }
}

/// An already-tokenized document value: a tree of maps, sequences and scalars.
///
/// A number is kept in its textual form; an object keeps its entries in the
/// order in which they were read.
#[derive(Debug)]
pub enum Value {
    Null,
    Bool(bool),
    Number(String),
    Str(String),
    Array(Vec<Value>),
    Object(Vec<(String, Value)>),
}

impl Value {
    pub open spec fn spec_kind(&self) -> Kind {
        match self {
            Value::Null => Kind::Null,
            Value::Bool(_) => Kind::Bool,
            Value::Number(_) => Kind::Number,
            Value::Str(_) => Kind::Str,
            Value::Array(_) => Kind::Array,
            Value::Object(_) => Kind::Object,
        }
    }

    /// The kind of this value.
    pub fn kind(&self) -> (r: Kind)
        ensures
            r == self.spec_kind(),
    {
        match self {
            Value::Null => Kind::Null,
            Value::Bool(_) => Kind::Bool,
            Value::Number(_) => Kind::Number,
            Value::Str(_) => Kind::Str,
            Value::Array(_) => Kind::Array,
            Value::Object(_) => Kind::Object,
        }
    }
}

} // verus!
