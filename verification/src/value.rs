//! The values that travel as tool arguments and tool results.

use vstd::prelude::*;
use vstd::string::*;
use crate::decimal::{decimal, render};

verus! {

/// The type that a parameter declares for its values.
#[derive(Clone, Copy, Debug, PartialEq, Eq, Structural)]
pub enum ValueKind {
    Number,
    Text,
    Flag,
}

/// One argument or result value.
#[derive(Debug, PartialEq, Eq)]
pub enum Value {
    Number(i64),
    Text(String),
    Flag(bool),
}

/// The mathematical content of a [`Value`].
pub enum ValueView {
    Number(int),
    Text(Seq<char>),
    Flag(bool),
}

impl ValueView {
    /// The kind of this value.
    pub open spec fn kind(self) -> ValueKind {
        match self {
            ValueView::Number(_) => ValueKind::Number,
            ValueView::Text(_) => ValueKind::Text,
            ValueView::Flag(_) => ValueKind::Flag,
        }
    }
}

/// The text of a value: a number in decimal, a text as it is, a flag as
/// `true` or `false`.
pub open spec fn value_text(v: ValueView) -> Seq<char> {
    match v {
        ValueView::Number(n) => decimal(n),
        ValueView::Text(s) => s,
        ValueView::Flag(b) => if b {
            "true"@
        } else {
            "false"@
        },
    }
}

impl View for Value {
    type V = ValueView;

    open spec fn view(&self) -> ValueView {
        match *self {
            Value::Number(n) => ValueView::Number(n as int),
            Value::Text(s) => ValueView::Text(s@),
            Value::Flag(b) => ValueView::Flag(b),
        }
    }
}

impl Value {
    /// The kind of this value.
    pub fn kind(&self) -> (k: ValueKind)
        ensures
            k == self@.kind(),
    {
        match self {
            Value::Number(_) => ValueKind::Number,
            Value::Text(_) => ValueKind::Text,
            Value::Flag(_) => ValueKind::Flag,
        }
    }

    /// The text of this value.
    pub fn to_text(&self) -> (s: String)
        ensures
            s@ == value_text(self@),
    {
        match self {
            Value::Number(n) => render(*n),
            Value::Text(s) => s.clone(),
            Value::Flag(b) => if *b {
                String::from_str("true")
            } else {
                String::from_str("false")
            },
        }
    }

    /// A text value holding `s`.
    pub fn text(s: &str) -> (v: Value)
        ensures
            v@ == ValueView::Text(s@),
    {
        Value::Text(String::from_str(s))
    }
}

impl Clone for Value {
    fn clone(&self) -> (r: Self)
        ensures
            r@ == self@,
    {
        match self {
            Value::Number(n) => Value::Number(*n),
            Value::Text(s) => Value::Text(s.clone()),
            Value::Flag(b) => Value::Flag(*b),
        }
    }
}

} // verus!
