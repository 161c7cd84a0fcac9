//! The laws of the distance: nonnegativity, symmetry, identity, and the
//! triangle inequality, each stated over the integer sequences and again
//! over whole boundary values.

use vstd::prelude::*;

use crate::engine::{distance_spec, l1};
use crate::value::{all_numeric, elements, numbers_of, DistanceError, Value};

verus! {

/// The distance of two equal-length sequences is never negative.
pub proof fn lemma_l1_nonnegative(a: Seq<int>, b: Seq<int>)
    requires
        a.len() == b.len(),
    ensures
        l1(a, b) >= 0,
    decreases a.len(),
{
    if a.len() > 0 {
        lemma_l1_nonnegative(a.drop_last(), b.drop_last());
    }
}

/// The distance does not depend on the order of its two arguments.
pub proof fn lemma_l1_symmetric(a: Seq<int>, b: Seq<int>)
    requires
        a.len() == b.len(),
    ensures
        l1(a, b) == l1(b, a),
    decreases a.len(),
{
    if a.len() > 0 {
        lemma_l1_symmetric(a.drop_last(), b.drop_last());
    }
}

/// The distance of a sequence to itself is zero.
pub proof fn lemma_l1_identity(a: Seq<int>)
    ensures
        l1(a, a) == 0,
    decreases a.len(),
{
    if a.len() > 0 {
        lemma_l1_identity(a.drop_last());
    }
}

/// The triangle inequality: going from `a` to `c` directly is never
/// longer than going by way of `b`.
pub proof fn lemma_l1_triangle(a: Seq<int>, b: Seq<int>, c: Seq<int>)
    requires
        a.len() == b.len(),
        b.len() == c.len(),
    ensures
        l1(a, c) <= l1(a, b) + l1(b, c),
    decreases a.len(),
{
    if a.len() > 0 {
        lemma_l1_triangle(a.drop_last(), b.drop_last(), c.drop_last());
    }
}

/// A call that succeeds never returns a negative distance.
pub proof fn lemma_distance_nonnegative(a: Value, b: Value)
    ensures
        distance_spec(a, b) matches Ok(d) ==> d >= 0,
{
    if distance_spec(a, b) is Ok {
        lemma_l1_nonnegative(numbers_of(elements(a)), numbers_of(elements(b)));
    }
}

/// A call returns the same outcome, distance or error, with its two
/// arguments exchanged.
pub proof fn lemma_distance_symmetric(a: Value, b: Value)
    ensures
        distance_spec(a, b) == distance_spec(b, a),
{
    if distance_spec(a, b) is Ok {
        lemma_l1_symmetric(numbers_of(elements(a)), numbers_of(elements(b)));
    }
}

/// A valid sequence has distance zero to itself.
pub proof fn lemma_distance_identity(a: Value)
    requires
        a is Arr,
        all_numeric(elements(a)),
    ensures
        distance_spec(a, a) == Ok::<int, DistanceError>(0),
{
    lemma_l1_identity(numbers_of(elements(a)));
}

/// The triangle inequality for whole calls: wherever all three pairs are
/// accepted, the direct distance is never longer than the detour.
pub proof fn lemma_distance_triangle(a: Value, b: Value, c: Value)
    requires
        distance_spec(a, b) is Ok,
        distance_spec(b, c) is Ok,
        distance_spec(a, c) is Ok,
    ensures
        distance_spec(a, c)->Ok_0 <= distance_spec(a, b)->Ok_0 + distance_spec(b, c)->Ok_0,
{
    lemma_l1_triangle(
        numbers_of(elements(a)),
        numbers_of(elements(b)),
        numbers_of(elements(c)),
    );
}

} // verus!
