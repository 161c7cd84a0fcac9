//! The distance engine: validation, coercion, and the L1 reduction.

use vstd::prelude::*;

use crate::value::{
    all_numeric, elements, number_of, numbers_of, units_of, DistanceError, Number, Value,
};

verus! {

/// Longest sequence one call accepts. It keeps the 128-bit accumulator
/// from overflowing: each absolute difference of two `i64` values is
/// below 2^64, so a sum of at most 2^62 of them stays below 2^126.
pub const MAX_LEN: u64 = 0x4000_0000_0000_0000;

/// The absolute difference of two unbounded integers.
pub open spec fn abs_diff(x: int, y: int) -> int {
    if x >= y {
        x - y
    } else {
        y - x
    }
}

/// The Manhattan (L1) distance of two equal-length integer sequences:
/// the sum of the absolute differences at corresponding indices.
pub open spec fn l1(a: Seq<int>, b: Seq<int>) -> int
    recommends
        a.len() == b.len(),
    decreases a.len(),
{
    if a.len() == 0 || b.len() == 0 {
        0
    } else {
        l1(a.drop_last(), b.drop_last()) + abs_diff(a.last(), b.last())
    }
}

/// What one call of the engine returns, for every pair of boundary
/// values: the typed error that refuses the pair, or the distance of the
/// two coerced sequences. Errors are checked in this order: both
/// arguments must be sequences, then the lengths must agree, then every
/// element must be a number.
pub open spec fn distance_spec(a: Value, b: Value) -> Result<int, DistanceError> {
    if !(a is Arr) || !(b is Arr) {
        Err(DistanceError::MissingArgument)
    } else if elements(a).len() != elements(b).len() {
        Err(DistanceError::ShapeMismatch)
    } else if !all_numeric(elements(a)) || !all_numeric(elements(b)) {
        Err(DistanceError::TypeMismatch)
    } else {
        Ok(l1(numbers_of(elements(a)), numbers_of(elements(b))))
    }
}

/// The machine limit on one argument: a sequence no longer than
/// `MAX_LEN`. Anything that is not a sequence is within the limit.
pub open spec fn within_capacity(v: Value) -> bool {
    v is Arr ==> elements(v).len() <= MAX_LEN
}

/// Coerce one boundary value to a number; any value that is not a number
/// is refused as a `TypeMismatch`.
pub fn coerce_number(v: &Value) -> (r: Result<Number, DistanceError>)
    ensures
        match r {
            Ok(n) => *v is Num && n@ == number_of(*v),
            Err(e) => !(*v is Num) && e == DistanceError::TypeMismatch,
        },
{
    match v {
        Value::Num(n) => Ok(*n),
        _ => Err(DistanceError::TypeMismatch),
    }
}

/// Coerce every element of a sequence, left to right, stopping at the
/// first element that is not a number. Succeeds exactly when every
/// element is a number, and then keeps length, order and contents.
pub fn coerce_vector(v: &Vec<Value>) -> (r: Result<Vec<Number>, DistanceError>)
    ensures
        match r {
            Ok(ns) => {
                &&& all_numeric(v@)
                &&& ns@.len() == v@.len()
                &&& units_of(ns@) == numbers_of(v@)
            },
            Err(e) => !all_numeric(v@) && e == DistanceError::TypeMismatch,
        },
{
    let mut out: Vec<Number> = Vec::new();
    let mut i: usize = 0;
    while i < v.len()
        invariant
            i <= v@.len(),
            out@.len() == i,
            forall|j: int| 0 <= j < i ==> v@[j] is Num,
            forall|j: int| 0 <= j < i ==> out@[j]@ == number_of(v@[j]),
        decreases v@.len() - i,
    {
        match coerce_number(&v[i]) {
            Ok(n) => out.push(n),
            Err(e) => {
                return Err(e);
            },
        }
        i = i + 1;
    }
    proof {
        assert(units_of(out@) =~= numbers_of(v@));
    }
    Ok(out)
}

/// Adding one more index on the right adds its absolute difference.
proof fn lemma_l1_step(a: Seq<int>, b: Seq<int>, i: int)
    requires
        a.len() == b.len(),
        0 <= i < a.len(),
    ensures
        l1(a.take(i + 1), b.take(i + 1)) == l1(a.take(i), b.take(i)) + abs_diff(a[i], b[i]),
{
    assert(a.take(i + 1).drop_last() =~= a.take(i));
    assert(b.take(i + 1).drop_last() =~= b.take(i));
}

/// Reduce two equal-length vectors of numbers to their Manhattan
/// distance, accumulating left to right from zero.
pub fn reduce(a: &Vec<Number>, b: &Vec<Number>) -> (d: i128)
    requires
        a@.len() == b@.len(),
        a@.len() <= MAX_LEN,
    ensures
        d == l1(units_of(a@), units_of(b@)),
{
    let mut sum: i128 = 0;
    let mut i: usize = 0;
    while i < a.len()
        invariant
            a@.len() == b@.len(),
            a@.len() <= MAX_LEN,
            i <= a@.len(),
            sum == l1(units_of(a@).take(i as int), units_of(b@).take(i as int)),
            0 <= sum <= i * 0xFFFF_FFFF_FFFF_FFFFi128,
        decreases a@.len() - i,
    {
        let diff: i128 = a[i].units as i128 - b[i].units as i128;
        let term: i128 = if diff >= 0 {
            diff
        } else {
            -diff
        };
        proof {
            lemma_l1_step(units_of(a@), units_of(b@), i as int);
        }
        sum = sum + term;
        i = i + 1;
    }
    proof {
        assert(units_of(a@).take(a@.len() as int) =~= units_of(a@));
        assert(units_of(b@).take(b@.len() as int) =~= units_of(b@));
    }
    sum
}

/// The engine's single entry point. Both arguments must be sequences of
/// numbers of one length; the result is their Manhattan distance, in the
/// callers' fixed-point units. Any other pair of arguments is refused
/// with the error `distance_spec` names, and nothing is computed for it.
///
/// The one precondition is the machine limit of `MAX_LEN` on the first
/// sequence: past it the reduction could overflow its accumulator (the
/// second sequence either matches that length or is refused).
pub fn manhattan_distance(a: &Value, b: &Value) -> (r: Result<i128, DistanceError>)
    requires
        within_capacity(*a),
    ensures
        match r {
            Ok(d) => distance_spec(*a, *b) == Ok::<int, DistanceError>(d as int),
            Err(e) => distance_spec(*a, *b) == Err::<int, DistanceError>(e),
        },
{
    let items_a = match a {
        Value::Arr(items) => items,
        _ => {
            return Err(DistanceError::MissingArgument);
        },
    };
    let items_b = match b {
        Value::Arr(items) => items,
        _ => {
            return Err(DistanceError::MissingArgument);
        },
    };
    if items_a.len() != items_b.len() {
        return Err(DistanceError::ShapeMismatch);
    }
    let nums_a = match coerce_vector(items_a) {
        Ok(ns) => ns,
        Err(e) => {
            return Err(e);
        },
    };
    let nums_b = match coerce_vector(items_b) {
        Ok(ns) => ns,
        Err(e) => {
            return Err(e);
        },
    };
    Ok(reduce(&nums_a, &nums_b))
}

} // verus!
