//! Values that a caller supplies before an interview: suggestions, which
//! become defaults, and assumptions, which answer a question in advance.

use vstd::prelude::*;
use crate::answer::{AnswerValue, Value};

verus! {

/// Represents a suggested value that can be set on a question.
#[derive(Debug)]
pub enum SuggestedAnswer {
    String(String),
    Int(i64),
    /// A 64-bit float, held as its bits.
    Float(u64),
    Bool(bool),
}

/// Represents an assumed value that skips the question entirely.
#[derive(Debug)]
pub enum AssumedAnswer {
    String(String),
    Int(i64),
    /// A 64-bit float, held as its bits.
    Float(u64),
    Bool(bool),
}

impl View for SuggestedAnswer {
    type V = Value;

    open spec fn view(&self) -> Value {
        match self {
            SuggestedAnswer::String(s) => Value::Text(s@),
            SuggestedAnswer::Int(i) => Value::Int(*i),
            SuggestedAnswer::Float(b) => Value::Float(*b),
            SuggestedAnswer::Bool(b) => Value::Bool(*b),
        }
    }
}

impl View for AssumedAnswer {
    type V = Value;

    open spec fn view(&self) -> Value {
        match self {
            AssumedAnswer::String(s) => Value::Text(s@),
            AssumedAnswer::Int(i) => Value::Int(*i),
            AssumedAnswer::Float(b) => Value::Float(*b),
            AssumedAnswer::Bool(b) => Value::Bool(*b),
        }
    }
}

impl SuggestedAnswer {
    /// The answer value that is suggested.
    pub fn into_value(self) -> (r: AnswerValue)
        ensures
            r@ == self@,
    {
        match self {
            SuggestedAnswer::String(s) => AnswerValue::String(s),
            SuggestedAnswer::Int(i) => AnswerValue::Int(i),
            SuggestedAnswer::Float(b) => AnswerValue::Float(b),
            SuggestedAnswer::Bool(b) => AnswerValue::Bool(b),
        }
    }
}

impl AssumedAnswer {
    /// The answer value that is assumed.
    pub fn into_value(self) -> (r: AnswerValue)
        ensures
            r@ == self@,
    {
        match self {
            AssumedAnswer::String(s) => AnswerValue::String(s),
            AssumedAnswer::Int(i) => AnswerValue::Int(i),
            AssumedAnswer::Float(b) => AnswerValue::Float(b),
            AssumedAnswer::Bool(b) => AnswerValue::Bool(b),
        }
    }
}

impl From<String> for SuggestedAnswer {
    fn from(v: String) -> (r: SuggestedAnswer) {
        SuggestedAnswer::String(v)
    }
}

impl vstd::std_specs::convert::FromSpecImpl<String> for SuggestedAnswer {
    open spec fn obeys_from_spec() -> bool {
        true
    }

    open spec fn from_spec(v: String) -> SuggestedAnswer {
        SuggestedAnswer::String(v)
    }
}

impl From<i64> for SuggestedAnswer {
    fn from(v: i64) -> (r: SuggestedAnswer) {
        SuggestedAnswer::Int(v)
    }
}

impl vstd::std_specs::convert::FromSpecImpl<i64> for SuggestedAnswer {
    open spec fn obeys_from_spec() -> bool {
        true
    }

    open spec fn from_spec(v: i64) -> SuggestedAnswer {
        SuggestedAnswer::Int(v)
    }
}

impl From<bool> for SuggestedAnswer {
    fn from(v: bool) -> (r: SuggestedAnswer) {
        SuggestedAnswer::Bool(v)
    }
}

impl vstd::std_specs::convert::FromSpecImpl<bool> for SuggestedAnswer {
    open spec fn obeys_from_spec() -> bool {
        true
    }

    open spec fn from_spec(v: bool) -> SuggestedAnswer {
        SuggestedAnswer::Bool(v)
    }
}

impl From<String> for AssumedAnswer {
    fn from(v: String) -> (r: AssumedAnswer) {
        AssumedAnswer::String(v)
    }
}

impl vstd::std_specs::convert::FromSpecImpl<String> for AssumedAnswer {
    open spec fn obeys_from_spec() -> bool {
        true
    }

    open spec fn from_spec(v: String) -> AssumedAnswer {
        AssumedAnswer::String(v)
    }
}

impl From<i64> for AssumedAnswer {
    fn from(v: i64) -> (r: AssumedAnswer) {
        AssumedAnswer::Int(v)
    }
}

impl vstd::std_specs::convert::FromSpecImpl<i64> for AssumedAnswer {
    open spec fn obeys_from_spec() -> bool {
        true
    }

    open spec fn from_spec(v: i64) -> AssumedAnswer {
        AssumedAnswer::Int(v)
    }
}

impl From<bool> for AssumedAnswer {
    fn from(v: bool) -> (r: AssumedAnswer) {
        AssumedAnswer::Bool(v)
    }
}

impl vstd::std_specs::convert::FromSpecImpl<bool> for AssumedAnswer {
    open spec fn obeys_from_spec() -> bool {
        true
    }

    open spec fn from_spec(v: bool) -> AssumedAnswer {
        AssumedAnswer::Bool(v)
    }
}

} // verus!
