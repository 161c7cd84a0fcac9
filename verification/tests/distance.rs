use manhattan::engine::{coerce_number, coerce_vector, manhattan_distance, reduce};
use manhattan::value::{DistanceError, Number, Value};

fn num(units: i64) -> Value {
    Value::Num(Number { units })
}

fn arr(units: &[i64]) -> Value {
    Value::Arr(units.iter().map(|&u| num(u)).collect())
}

#[test]
fn distance_of_origin_to_three_four() {
    assert_eq!(manhattan_distance(&arr(&[0, 0]), &arr(&[3, 4])), Ok(7));
}

#[test]
fn distance_of_halves_in_tenths() {
    // 1.5 and -2.5 against -1.5 and 2.5, written in tenths: the distance
    // 8.0 comes back as 80 tenths.
    assert_eq!(manhattan_distance(&arr(&[15, -25]), &arr(&[-15, 25])), Ok(80));
}

#[test]
fn distance_of_empty_vectors_is_zero() {
    assert_eq!(manhattan_distance(&arr(&[]), &arr(&[])), Ok(0));
}

#[test]
fn distance_of_equal_vectors_is_zero() {
    assert_eq!(manhattan_distance(&arr(&[1, 2, 3]), &arr(&[1, 2, 3])), Ok(0));
}

#[test]
fn unequal_lengths_are_a_shape_mismatch() {
    assert_eq!(
        manhattan_distance(&arr(&[1, 2, 3]), &arr(&[1, 2])),
        Err(DistanceError::ShapeMismatch)
    );
}

#[test]
fn string_element_is_a_type_mismatch() {
    let a = Value::Arr(vec![num(1), Value::Str("x".to_string()), num(3)]);
    assert_eq!(
        manhattan_distance(&a, &arr(&[1, 2, 3])),
        Err(DistanceError::TypeMismatch)
    );
}

#[test]
fn bool_element_is_a_type_mismatch() {
    let b = Value::Arr(vec![num(1), Value::Bool(true)]);
    assert_eq!(
        manhattan_distance(&arr(&[1, 2]), &b),
        Err(DistanceError::TypeMismatch)
    );
}

#[test]
fn null_element_is_a_type_mismatch() {
    let a = Value::Arr(vec![Value::Null]);
    assert_eq!(
        manhattan_distance(&a, &arr(&[4])),
        Err(DistanceError::TypeMismatch)
    );
}

#[test]
fn absent_argument_is_missing() {
    assert_eq!(
        manhattan_distance(&Value::Undefined, &arr(&[1, 2])),
        Err(DistanceError::MissingArgument)
    );
}

#[test]
fn non_sequence_argument_is_missing() {
    assert_eq!(
        manhattan_distance(&arr(&[1, 2]), &num(7)),
        Err(DistanceError::MissingArgument)
    );
    assert_eq!(
        manhattan_distance(&arr(&[1, 2]), &Value::Null),
        Err(DistanceError::MissingArgument)
    );
}

#[test]
fn missing_argument_wins_over_shape() {
    assert_eq!(
        manhattan_distance(&Value::Undefined, &arr(&[1])),
        Err(DistanceError::MissingArgument)
    );
}

#[test]
fn shape_mismatch_wins_over_types() {
    let a = Value::Arr(vec![num(1), Value::Str("x".to_string()), num(3)]);
    assert_eq!(
        manhattan_distance(&a, &arr(&[1, 2])),
        Err(DistanceError::ShapeMismatch)
    );
}

#[test]
fn distance_is_symmetric_on_samples() {
    let a = arr(&[4, -9, 16, 0]);
    let b = arr(&[-3, 12, 5, 8]);
    assert_eq!(manhattan_distance(&a, &b), manhattan_distance(&b, &a));
    assert_eq!(manhattan_distance(&a, &b), Ok(7 + 21 + 11 + 8));
}

#[test]
fn distance_is_nonnegative_on_samples() {
    let a = arr(&[5, 1, 7]);
    let b = arr(&[2, 9, 7]);
    let d = manhattan_distance(&a, &b).unwrap();
    assert!(d >= 0);
    assert_eq!(d, 11);
}

#[test]
fn triangle_inequality_on_samples() {
    let a = arr(&[0, 0, 0]);
    let b = arr(&[3, -4, 10]);
    let c = arr(&[-7, 2, 1]);
    let ab = manhattan_distance(&a, &b).unwrap();
    let bc = manhattan_distance(&b, &c).unwrap();
    let ac = manhattan_distance(&a, &c).unwrap();
    assert!(ac <= ab + bc);
}

#[test]
fn extreme_magnitudes_stay_exact() {
    let a = arr(&[i64::MAX, i64::MIN]);
    let b = arr(&[i64::MIN, i64::MAX]);
    let width: i128 = u64::MAX as i128;
    assert_eq!(manhattan_distance(&a, &b), Ok(2 * width));
}

#[test]
fn coerce_number_accepts_numbers_only() {
    assert_eq!(coerce_number(&num(-3)), Ok(Number { units: -3 }));
    assert_eq!(
        coerce_number(&Value::Str("3".to_string())),
        Err(DistanceError::TypeMismatch)
    );
    assert_eq!(coerce_number(&Value::Undefined), Err(DistanceError::TypeMismatch));
}

#[test]
fn coerce_vector_keeps_order() {
    let v = vec![num(2), num(-5), num(9)];
    assert_eq!(
        coerce_vector(&v),
        Ok(vec![Number { units: 2 }, Number { units: -5 }, Number { units: 9 }])
    );
}

#[test]
fn coerce_vector_refuses_a_single_bad_element() {
    let v = vec![num(2), Value::Bool(false), num(9)];
    assert_eq!(coerce_vector(&v), Err(DistanceError::TypeMismatch));
}

#[test]
fn reduce_accumulates_left_to_right() {
    let a = vec![Number { units: 10 }, Number { units: -10 }];
    let b = vec![Number { units: -20 }, Number { units: 20 }];
    assert_eq!(reduce(&a, &b), 60);
}
