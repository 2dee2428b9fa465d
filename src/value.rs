use vstd::prelude::*;
use crate::context::{Context, Node};
use crate::model::Shape;

verus! {

/// The kind of a stored value; a lookup matches on it exactly.
#[derive(Debug, Clone, Copy, PartialEq, Eq, Structural)]
pub enum ValueKind {
    I32,
    I64,
    U64,
    Bool,
    Text,
    FloatBits,
}

/// A request-scoped value carried by a context.
#[derive(Debug, Clone, PartialEq, Eq)]
pub enum Value {
    I32(i32),
    I64(i64),
    U64(u64),
    Bool(bool),
    Text(String),
    /// A double precision number, held by its IEEE-754 bit pattern.
    FloatBits(u64),
}

/// The mathematical content of a [`Value`].
pub enum ValueModel {
    I32(i32),
    I64(i64),
    U64(u64),
    Bool(bool),
    Text(Seq<char>),
    FloatBits(u64),
}

pub open spec fn kind_of(v: ValueModel) -> ValueKind {
    match v {
        ValueModel::I32(_) => ValueKind::I32,
        ValueModel::I64(_) => ValueKind::I64,
        ValueModel::U64(_) => ValueKind::U64,
        ValueModel::Bool(_) => ValueKind::Bool,
        ValueModel::Text(_) => ValueKind::Text,
        ValueModel::FloatBits(_) => ValueKind::FloatBits,
    }
}

impl View for Value {
    type V = ValueModel;

    open spec fn view(&self) -> ValueModel {
        match self {
            Value::I32(x) => ValueModel::I32(*x),
            Value::I64(x) => ValueModel::I64(*x),
            Value::U64(x) => ValueModel::U64(*x),
            Value::Bool(x) => ValueModel::Bool(*x),
            Value::Text(s) => ValueModel::Text(s@),
            Value::FloatBits(x) => ValueModel::FloatBits(*x),
        }
    }
}

pub open spec fn key_view(k: Option<String>) -> Option<Seq<char>> {
    match k {
        Some(s) => Some(s@),
        None => None,
    }
}

pub open spec fn value_view(v: Option<Value>) -> Option<ValueModel> {
    match v {
        Some(x) => Some(x@),
        None => None,
    }
}

impl Value {
    /// The kind of this value.
    pub fn kind(&self) -> (r: ValueKind)
        ensures
            r == kind_of(self@),
    {
        match self {
            Value::I32(_) => ValueKind::I32,
            Value::I64(_) => ValueKind::I64,
            Value::U64(_) => ValueKind::U64,
            Value::Bool(_) => ValueKind::Bool,
            Value::Text(_) => ValueKind::Text,
            Value::FloatBits(_) => ValueKind::FloatBits,
        }
    }

    /// A copy of this value.
    pub fn duplicate(&self) -> (r: Value)
        ensures
            r@ == self@,
    {
        match self {
            Value::I32(x) => Value::I32(*x),
            Value::I64(x) => Value::I64(*x),
            Value::U64(x) => Value::U64(*x),
            Value::Bool(x) => Value::Bool(*x),
            Value::Text(s) => Value::Text(s.clone()),
            Value::FloatBits(x) => Value::FloatBits(*x),
        }
    }
}

/// A node that decorates its parent with one value, optionally under a key.
pub struct WithValue {
    pub parent: Context,
    pub key: Option<String>,
    pub val: Value,
}

impl WithValue {
    /// Whether this node's entry answers a lookup of `kind` under `key`.
    pub fn matches(&self, key: &Option<String>, kind: ValueKind) -> (r: bool)
        ensures
            r == (key_view(self.key) == key_view(*key) && kind_of(self.val@) == kind),
    {
        let same_key = match &self.key {
            Some(a) => match key {
                Some(b) => a.eq(b),
                None => false,
            },
            None => key.is_none(),
        };
        same_key && self.val.kind() == kind
    }
}

/// Returns a child of `parent` that carries `val` without a key. Completion
/// and deadline pass through from `parent` unchanged.
pub fn with_value(parent: Context, val: Value) -> (r: Context)
    ensures
        r@ == Shape::Value(None, val@, Box::new(parent@)),
        r.settled is None,
{
    Context::new(Node::Value(WithValue { parent, key: None, val }))
}

/// Returns a child of `parent` that carries `val` under `key`.
pub fn with_keyed_value(parent: Context, key: &str, val: Value) -> (r: Context)
    ensures
        r@ == Shape::Value(Some(key@), val@, Box::new(parent@)),
        r.settled is None,
{
    Context::new(Node::Value(WithValue { parent, key: Some(key.to_owned()), val }))
}

} // verus!
