//! The data model: fixed-point numbers, loosely typed boundary values,
//! and the errors with which a call is refused.

use vstd::prelude::*;

verus! {

/// A numeric value in fixed-point form: `units` counts equal steps of
/// whatever unit the caller works in (ones, tenths, millionths, ...).
/// Distances come back in the same unit, so the engine itself never
/// depends on the choice.
#[derive(Clone, Copy, Debug, PartialEq, Eq, Structural)]
pub struct Number {
    pub units: i64,
}

impl View for Number {
    type V = int;

    open spec fn view(&self) -> int {
        self.units as int
    }
}

/// One loosely typed value as it arrives across the host boundary. The
/// engine must find out for itself whether a value holds a number, a
/// sequence, or something else entirely.
#[derive(Debug)]
pub enum Value {
    Num(Number),
    Str(String),
    Bool(bool),
    Null,
    Undefined,
    Arr(Vec<Value>),
}

/// Why a call was refused. No variant carries data, so two errors of the
/// same kind are equal.
#[derive(Clone, Copy, Debug, PartialEq, Eq, Structural)]
pub enum DistanceError {
    /// An argument is absent or is not a sequence at all.
    MissingArgument,
    /// The two sequences differ in length.
    ShapeMismatch,
    /// An element of either sequence is not a number.
    TypeMismatch,
}

/// The numeric content of a value; zero where the value is not a number
/// (callers guard with `is Num`).
pub open spec fn number_of(v: Value) -> int {
    match v {
        Value::Num(n) => n@,
        _ => 0,
    }
}

/// The elements of a sequence value; empty where the value is not a
/// sequence (callers guard with `is Arr`).
pub open spec fn elements(v: Value) -> Seq<Value> {
    match v {
        Value::Arr(items) => items@,
        _ => Seq::empty(),
    }
}

/// Every element of the sequence is a number.
pub open spec fn all_numeric(s: Seq<Value>) -> bool {
    forall|i: int| 0 <= i < s.len() ==> s[i] is Num
}

/// The numeric contents of a sequence of boundary values, index by index.
pub open spec fn numbers_of(s: Seq<Value>) -> Seq<int> {
    s.map_values(|v: Value| number_of(v))
}

/// The numeric contents of a sequence of fixed-point numbers.
pub open spec fn units_of(s: Seq<Number>) -> Seq<int> {
    s.map_values(|n: Number| n@)
}

} // verus!
