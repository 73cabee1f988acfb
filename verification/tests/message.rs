use bitarray_naive::text::append_decimal;
use bitarray_naive::OutOfRangeError;

#[test]
fn error_keeps_size_and_position() {
    let error = OutOfRangeError::new(12, 34);
    assert_eq!(error.bitarray_size, 12);
    assert_eq!(error.bitarray_position, 34);
    assert_eq!(error.clone(), error);
    assert_ne!(error, OutOfRangeError::new(34, 12));
}

#[test]
fn message_names_position_then_size() {
    assert_eq!(
        OutOfRangeError::new(10, 10).to_string(),
        "Given position: 10 is out of the bitarray size 10."
    );
    assert_eq!(
        OutOfRangeError::new(8, 4096).to_string(),
        "Given position: 4096 is out of the bitarray size 8."
    );
    assert_eq!(
        OutOfRangeError::new(0, 0).to_string(),
        "Given position: 0 is out of the bitarray size 0."
    );
}

#[test]
fn message_of_a_negative_position() {
    assert_eq!(
        OutOfRangeError::new(10, -1).to_string(),
        "Given position: -1 is out of the bitarray size 10."
    );
    assert_eq!(
        OutOfRangeError::new(74845, -120).to_string(),
        "Given position: -120 is out of the bitarray size 74845."
    );
}

#[test]
fn message_of_the_extreme_values() {
    assert_eq!(
        OutOfRangeError::new(i64::MAX, i64::MIN).to_string(),
        "Given position: -9223372036854775808 is out of the bitarray size 9223372036854775807."
    );
}

#[test]
fn message_agrees_with_std_formatting() {
    let values: [i64; 12] = [
        0,
        1,
        9,
        10,
        11,
        99,
        100,
        101,
        1_000_000_007,
        -5,
        -10,
        -1_000_000,
    ];
    for size in values {
        for position in values {
            assert_eq!(
                OutOfRangeError::new(size, position).to_string(),
                format!(
                    "Given position: {} is out of the bitarray size {}.",
                    position, size
                )
            );
        }
    }
}

#[test]
fn decimal_is_appended_to_what_is_there() {
    let mut text = String::from("n = ");
    append_decimal(&mut text, 305);
    assert_eq!(text, "n = 305");
    append_decimal(&mut text, -40);
    assert_eq!(text, "n = 305-40");
    append_decimal(&mut text, 0);
    assert_eq!(text, "n = 305-400");
}
