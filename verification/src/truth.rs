//! Predicates over columns that may be null.
//!
//! A comparison with a null is neither true nor false, and a conjunction is
//! false as soon as one side is. A predicate that comes back unknown where an
//! answer is needed is an error of the read, not an answer.
use crate::text::same_text;
use vstd::prelude::*;

verus! {

/// The value of a predicate over nullable columns.
#[derive(Clone, Copy, Debug, PartialEq, Eq, Structural)]
pub enum Truth {
    True,
    False,
    Unknown,
}

/// The truth value of a definite answer.
pub open spec fn known(answer: bool) -> Truth {
    if answer {
        Truth::True
    } else {
        Truth::False
    }
}

/// Conjunction: false if either side is, else unknown if either side is.
pub open spec fn conjunction(a: Truth, b: Truth) -> Truth {
    if a == Truth::False || b == Truth::False {
        Truth::False
    } else if a == Truth::Unknown || b == Truth::Unknown {
        Truth::Unknown
    } else {
        Truth::True
    }
}

/// An integer column equals a parameter that may be null.
pub open spec fn integer_equals(column: i64, parameter: Option<i64>) -> Truth {
    match parameter {
        Some(value) => known(column == value),
        None => Truth::Unknown,
    }
}

/// A text column equals a parameter that may be null.
pub open spec fn text_equals(column: Seq<char>, parameter: Option<String>) -> Truth {
    match parameter {
        Some(value) => known(column == value@),
        None => Truth::Unknown,
    }
}

/// A column that may be null lies after an instant.
pub open spec fn after(column: Option<i128>, instant: i128) -> Truth {
    match column {
        Some(value) => known(value > instant),
        None => Truth::Unknown,
    }
}

/// The truth value of a definite answer.
pub fn truth_of(answer: bool) -> (truth: Truth)
    ensures
        truth == known(answer),
{
    if answer {
        Truth::True
    } else {
        Truth::False
    }
}

/// The conjunction of two predicates.
pub fn both(a: Truth, b: Truth) -> (truth: Truth)
    ensures
        truth == conjunction(a, b),
{
    match (a, b) {
        (Truth::False, _) | (_, Truth::False) => Truth::False,
        (Truth::Unknown, _) | (_, Truth::Unknown) => Truth::Unknown,
        _ => Truth::True,
    }
}

/// Compares an integer column with a parameter that may be null.
pub fn integer_is(column: i64, parameter: Option<i64>) -> (truth: Truth)
    ensures
        truth == integer_equals(column, parameter),
{
    match parameter {
        Some(value) => truth_of(column == value),
        None => Truth::Unknown,
    }
}

/// Compares a text column with a parameter that may be null.
pub fn text_is(column: &str, parameter: &Option<String>) -> (truth: Truth)
    ensures
        truth == text_equals(column@, *parameter),
{
    match parameter {
        Some(value) => truth_of(same_text(column, value.as_str())),
        None => Truth::Unknown,
    }
}

/// Compares a column that may be null with an instant.
pub fn is_after(column: Option<i128>, instant: i128) -> (truth: Truth)
    ensures
        truth == after(column, instant),
{
    match column {
        Some(value) => truth_of(value > instant),
        None => Truth::Unknown,
    }
}

/// A conjunction is true exactly if both sides are, and false exactly if one is; a
/// comparison with a null is neither.
pub proof fn law_truth_values(
    a: Truth,
    b: Truth,
    column: i64,
    parameter: Option<i64>,
    text: Seq<char>,
    wanted: Option<String>,
    instant: Option<i128>,
    at: i128,
)
    ensures
        conjunction(a, b) is True <==> a is True && b is True,
        conjunction(a, b) is False <==> a is False || b is False,
        integer_equals(column, parameter) is True <==> parameter == Some(column),
        integer_equals(column, parameter) is Unknown <==> parameter is None,
        text_equals(text, wanted) is True <==> wanted is Some && wanted->0@ == text,
        text_equals(text, wanted) is Unknown <==> wanted is None,
        after(instant, at) is True <==> instant is Some && instant->0 > at,
        after(instant, at) is Unknown <==> instant is None,
        known(true) is True,
        known(false) is False,
{
}

} // verus!
