use as3_validator::{AS3Data, AS3ValidationError, AS3Validator, Dec};

#[test]
fn repeated_validation_is_deterministic() {
    let validator = AS3Validator::Object(vec![
        ("age".to_owned(), AS3Validator::Integer { minimum: Some(20) }),
        (
            "name".to_owned(),
            AS3Validator::String {
                regex: Some("^[A-Z]".to_owned()),
            },
        ),
    ]);
    let data = AS3Data::Object(vec![
        ("age".to_owned(), AS3Data::Integer(19)),
        ("name".to_owned(), AS3Data::String("Ada".to_owned())),
    ]);
    let first = validator.validate(&data);
    let second = validator.validate(&data);
    assert_eq!(first, second);
    assert_eq!(
        first,
        Err(AS3ValidationError::Minimum {
            number: Dec::from_i64(19),
            minimum: Dec::from_i64(20),
        })
    );
}

#[test]
fn extra_data_fields_are_ignored() {
    let validator = AS3Validator::Object(vec![(
        "age".to_owned(),
        AS3Validator::Integer { minimum: Some(1) },
    )]);
    let plain = AS3Data::Object(vec![("age".to_owned(), AS3Data::Integer(3))]);
    let extended = AS3Data::Object(vec![
        ("age".to_owned(), AS3Data::Integer(3)),
        ("nickname".to_owned(), AS3Data::String("Bo".to_owned())),
        ("pets".to_owned(), AS3Data::List(vec![AS3Data::Boolean(true)])),
    ]);
    assert_eq!(validator.validate(&plain), Ok(()));
    assert_eq!(validator.validate(&extended), Ok(()));
}

#[test]
fn fail_fast_reports_only_the_first_error() {
    // Both fields would fail; only the first declared one is reported.
    let validator = AS3Validator::Object(vec![
        ("x".to_owned(), AS3Validator::Integer { minimum: Some(5) }),
        ("y".to_owned(), AS3Validator::Integer { minimum: Some(5) }),
    ]);
    let data = AS3Data::Object(vec![
        ("x".to_owned(), AS3Data::Integer(1)),
        ("y".to_owned(), AS3Data::Integer(2)),
    ]);
    assert_eq!(
        validator.validate(&data),
        Err(AS3ValidationError::Minimum {
            number: Dec::from_i64(1),
            minimum: Dec::from_i64(5),
        })
    );
}

#[test]
fn integer_minimum_is_inclusive() {
    let validator = AS3Validator::Integer { minimum: Some(20) };
    assert_eq!(validator.validate(&AS3Data::Integer(20)), Ok(()));
    assert_eq!(
        validator.validate(&AS3Data::Integer(19)),
        Err(AS3ValidationError::Minimum {
            number: Dec::from_i64(19),
            minimum: Dec::from_i64(20),
        })
    );
}

#[test]
fn decimal_minimum_is_inclusive() {
    let bound = Dec {
        units: 2,
        micros: 500_000,
    };
    let validator = AS3Validator::Decimal {
        minimum: Some(bound),
    };
    assert_eq!(validator.validate(&AS3Data::Decimal(bound)), Ok(()));
    let below = Dec {
        units: 2,
        micros: 499_999,
    };
    assert_eq!(
        validator.validate(&AS3Data::Decimal(below)),
        Err(AS3ValidationError::Minimum {
            number: below,
            minimum: bound,
        })
    );
}

#[test]
fn string_without_pattern_accepts_everything() {
    let validator = AS3Validator::String { regex: None };
    assert_eq!(validator.validate(&AS3Data::String("".to_owned())), Ok(()));
    assert_eq!(
        validator.validate(&AS3Data::String("anything at all 123 !?".to_owned())),
        Ok(())
    );
}

#[test]
fn string_pattern_rejection_carries_word_and_pattern() {
    let validator = AS3Validator::String {
        regex: Some("^a".to_owned()),
    };
    assert_eq!(validator.validate(&AS3Data::String("abc".to_owned())), Ok(()));
    assert_eq!(
        validator.validate(&AS3Data::String("beta".to_owned())),
        Err(AS3ValidationError::RegexError {
            word: "beta".to_string(),
            regex: "^a".to_string(),
        })
    );
}

#[test]
fn integer_validator_against_decimal_is_a_type_error() {
    // 20.18 would satisfy the minimum numerically; the shape mismatch wins.
    let validator = AS3Validator::Integer { minimum: Some(20) };
    let value = Dec {
        units: 20,
        micros: 180_000,
    };
    assert_eq!(
        validator.validate(&AS3Data::Decimal(value)),
        Err(AS3ValidationError::TypeError {
            expected: AS3Validator::Integer { minimum: Some(20) },
            got: AS3Data::Decimal(value),
        })
    );
}

#[test]
fn age_and_children_scenario() {
    let validator = AS3Validator::Object(vec![
        ("age".to_owned(), AS3Validator::Integer { minimum: Some(20) }),
        (
            "children".to_owned(),
            AS3Validator::Integer { minimum: Some(2) },
        ),
    ]);

    let data = AS3Data::Object(vec![
        ("age".to_owned(), AS3Data::Integer(18)),
        ("children".to_owned(), AS3Data::Integer(5)),
    ]);
    assert_eq!(
        validator.validate(&data),
        Err(AS3ValidationError::Minimum {
            number: Dec::from_i64(18),
            minimum: Dec::from_i64(20),
        })
    );

    let data = AS3Data::Object(vec![
        ("age".to_owned(), AS3Data::Integer(20)),
        ("children".to_owned(), AS3Data::Integer(0)),
    ]);
    assert_eq!(
        validator.validate(&data),
        Err(AS3ValidationError::Minimum {
            number: Dec::from_i64(0),
            minimum: Dec::from_i64(2),
        })
    );

    let data = AS3Data::Object(vec![
        ("age".to_owned(), AS3Data::Integer(20)),
        ("children".to_owned(), AS3Data::Integer(20)),
    ]);
    assert_eq!(validator.validate(&data), Ok(()));
}

#[test]
fn missing_key_is_reported_by_name() {
    let validator = AS3Validator::Object(vec![(
        "id".to_owned(),
        AS3Validator::Integer { minimum: None },
    )]);
    let data = AS3Data::Object(vec![("other".to_owned(), AS3Data::Integer(1))]);
    assert_eq!(
        validator.validate(&data),
        Err(AS3ValidationError::MissingKey {
            key: "id".to_string(),
        })
    );
}

#[test]
fn empty_object_validator_accepts_any_object() {
    let validator = AS3Validator::Object(vec![]);
    assert_eq!(validator.validate(&AS3Data::Object(vec![])), Ok(()));
    let busy = AS3Data::Object(vec![
        ("a".to_owned(), AS3Data::Integer(1)),
        ("b".to_owned(), AS3Data::Boolean(false)),
    ]);
    assert_eq!(validator.validate(&busy), Ok(()));
    // But it still rejects data of another shape.
    assert_eq!(
        validator.validate(&AS3Data::Integer(1)),
        Err(AS3ValidationError::TypeError {
            expected: AS3Validator::Object(vec![]),
            got: AS3Data::Integer(1),
        })
    );
}

#[test]
fn list_validates_every_element_in_order() {
    let validator =
        AS3Validator::List(Box::new(AS3Validator::Integer { minimum: Some(0) }));
    assert_eq!(validator.validate(&AS3Data::List(vec![])), Ok(()));
    let good = AS3Data::List(vec![
        AS3Data::Integer(0),
        AS3Data::Integer(7),
        AS3Data::Integer(100),
    ]);
    assert_eq!(validator.validate(&good), Ok(()));
    // The first failing element decides the result.
    let bad = AS3Data::List(vec![
        AS3Data::Integer(3),
        AS3Data::Integer(-1),
        AS3Data::Integer(-2),
    ]);
    assert_eq!(
        validator.validate(&bad),
        Err(AS3ValidationError::Minimum {
            number: Dec::from_i64(-1),
            minimum: Dec::from_i64(0),
        })
    );
}

#[test]
fn try_validate_rejects_a_broken_pattern() {
    let broken = AS3Validator::String {
        regex: Some("(".to_owned()),
    };
    assert!(!broken.is_wf());
    assert_eq!(broken.try_validate(&AS3Data::String("x".to_owned())), None);

    let fine = AS3Validator::String {
        regex: Some("^[A-Z]".to_owned()),
    };
    assert!(fine.is_wf());
    assert_eq!(
        fine.try_validate(&AS3Data::String("Ok".to_owned())),
        Some(Ok(()))
    );
}

#[test]
fn boolean_data_never_matches_a_validator() {
    let validator = AS3Validator::Integer { minimum: None };
    assert_eq!(
        validator.validate(&AS3Data::Boolean(true)),
        Err(AS3ValidationError::TypeError {
            expected: AS3Validator::Integer { minimum: None },
            got: AS3Data::Boolean(true),
        })
    );
}

#[test]
fn decimal_ordering_is_numeric() {
    let a = Dec {
        units: 1,
        micros: 999_999,
    };
    let b = Dec { units: 2, micros: 0 };
    assert!(a.is_lt(b));
    assert!(!b.is_lt(a));
    assert!(!a.is_lt(a));
    assert_eq!(Dec::from_i64(7), Dec { units: 7, micros: 0 });
}
