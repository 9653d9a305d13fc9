use as3_validator::{AS3Data, AS3ValidationError, AS3Validator, Dec, Document};

fn dec_from_f64(x: f64) -> Dec {
    let units = x.floor();
    let micros = ((x - units) * 1_000_000.0).round() as u32;
    if micros == 1_000_000 {
        Dec { units: units as i64 + 1, micros: 0 }
    } else {
        Dec { units: units as i64, micros }
    }
}

fn data_from_json(v: &serde_json::Value) -> AS3Data {
    match v {
        serde_json::Value::Object(map) => AS3Data::Object(
            map.iter()
                .map(|(k, val)| (k.clone(), data_from_json(val)))
                .collect(),
        ),
        serde_json::Value::Array(items) => {
            AS3Data::List(items.iter().map(data_from_json).collect())
        }
        serde_json::Value::String(s) => AS3Data::String(s.clone()),
        serde_json::Value::Number(n) => match n.as_i64() {
            Some(i) => AS3Data::Integer(i),
            None => AS3Data::Decimal(dec_from_f64(n.as_f64().unwrap())),
        },
        serde_json::Value::Bool(b) => AS3Data::Boolean(*b),
        serde_json::Value::Null => panic!("a null value has no data representation"),
    }
}

fn document_from_yaml(v: &serde_yaml::Value) -> Document {
    match v {
        serde_yaml::Value::Mapping(m) => Document::Mapping(
            m.iter()
                .map(|(k, val)| (k.as_str().unwrap().to_string(), document_from_yaml(val)))
                .collect(),
        ),
        serde_yaml::Value::Sequence(items) => {
            Document::Sequence(items.iter().map(document_from_yaml).collect())
        }
        serde_yaml::Value::String(s) => Document::Text(s.clone()),
        serde_yaml::Value::Number(n) => match n.as_i64() {
            Some(i) => Document::Integer(i),
            None => Document::Decimal(dec_from_f64(n.as_f64().unwrap())),
        },
        serde_yaml::Value::Bool(b) => Document::Boolean(*b),
        serde_yaml::Value::Null => Document::Null,
        serde_yaml::Value::Tagged(t) => document_from_yaml(&t.value),
    }
}

fn person_validator() -> AS3Validator {
    AS3Validator::Object(vec![
        (
            "age".to_owned(),
            AS3Validator::Integer { minimum: Some(20) },
        ),
        (
            "children".to_owned(),
            AS3Validator::Integer { minimum: Some(2) },
        ),
        (
            "name".to_owned(),
            AS3Validator::String {
                // The name should start with an Uppercase letter
                regex: Some("^[A-Z][a-z]".to_owned()),
            },
        ),
        (
            "vehicles".to_owned(),
            AS3Validator::Object(vec![(
                "list".to_owned(),
                AS3Validator::List(Box::new(AS3Validator::Object(vec![
                    ("name".to_owned(), AS3Validator::String { regex: None }),
                    (
                        "maker".to_owned(),
                        AS3Validator::String {
                            regex: Some("^[A-Z][a-z]".to_owned()),
                        },
                    ),
                    ("year".to_owned(), AS3Validator::Integer { minimum: None }),
                ]))),
            )]),
        ),
    ])
}

#[test]
fn integration_test_should_run() {
    let json: serde_json::Value = serde_json::from_str(
        r#"{
          "age": 25,
          "children": 5,
          "name": "Dilec",
          "vehicles": {
            "list": [
              { "name": "model3", "maker": "Tesla", "year": 2018 },
              { "name": "Raptor", "maker": "Ford", "year": 2018 }
            ]
          }
        }"#,
    )
    .unwrap();

    let validator = person_validator();

    assert_eq!(validator.validate(&data_from_json(&json)), Ok(()));
}

#[test]
fn integration_test_with_decimal_error() {
    let json: serde_json::Value = serde_json::from_str(
        r#"{
          "age": 25,
          "children": 5,
          "name": "Dilec",
          "vehicles": {
            "list": [
              { "name": "model3", "maker": "Tesla", "year": 2018 },
              { "name": "Raptor", "maker": "Ford", "year": 20.18 }
            ]
          }
        }"#,
    )
    .unwrap();

    let validator = person_validator();

    assert_eq!(
        validator.validate(&data_from_json(&json)),
        Err(AS3ValidationError::TypeError {
            expected: AS3Validator::Integer { minimum: None },
            got: AS3Data::Decimal(dec_from_f64(20.18))
        })
    );
}

#[test]
fn integration_test_with_string_error() {
    let json: serde_json::Value = serde_json::from_str(
        r#"{
          "age": 25,
          "children": 5,
          "name": "Dilec",
          "vehicles": {
            "list": [
              { "name": "model3", "maker": "Tesla", "year": 2018 },
              { "name": "Raptor", "maker": "Ford", "year": "2018" }
            ]
          }
        }"#,
    )
    .unwrap();

    let validator = person_validator();

    assert_eq!(
        validator.validate(&data_from_json(&json)),
        Err(AS3ValidationError::TypeError {
            expected: AS3Validator::Integer { minimum: None },
            got: AS3Data::String("2018".to_string())
        })
    );
}

#[test]
fn integration_test_with_regex_error() {
    let json: serde_json::Value = serde_json::from_str(
        r#"{
          "age": 25,
          "children": 5,
          "name": "Dilec",
          "vehicles": {
            "list": [
              { "name": "model3", "maker": "Tesla", "year": 2018},
              { "name": "Raptor", "maker": "ford", "year": 2018 }
            ]
          }
        }"#,
    )
    .unwrap();

    let validator = person_validator();

    assert_eq!(
        validator.validate(&data_from_json(&json)),
        Err(AS3ValidationError::RegexError {
            word: "ford".to_string(),
            regex: "^[A-Z][a-z]".to_string()
        })
    )
}

#[test]
fn integration_test_with_minimum_error() {
    let json: serde_json::Value = serde_json::from_str(
        r#"{
          "age": 18,
          "children": 5
        }"#,
    )
    .unwrap();

    let validator = AS3Validator::Object(vec![
        (
            "age".to_owned(),
            AS3Validator::Integer { minimum: Some(20) },
        ),
        (
            "children".to_owned(),
            AS3Validator::Integer { minimum: Some(2) },
        ),
    ]);

    assert_eq!(
        validator.validate(&data_from_json(&json)),
        Err(AS3ValidationError::Minimum {
            number: dec_from_f64(18.0),
            minimum: dec_from_f64(20.0)
        })
    );

    let json: serde_json::Value = serde_json::from_str(
        r#"{
          "age": 20,
          "children": 0
        }"#,
    )
    .unwrap();

    assert_eq!(
        validator.validate(&data_from_json(&json)),
        Err(AS3ValidationError::Minimum {
            number: dec_from_f64(0.0),
            minimum: dec_from_f64(2.0)
        })
    );

    let json: serde_json::Value = serde_json::from_str(
        r#"{
          "age": 20,
          "children": 20
        }"#,
    )
    .unwrap();

    assert_eq!(validator.validate(&data_from_json(&json)), Ok(()))
}

#[test]
fn with_missing_field_error_validator_derive() {
    let mut json: serde_json::Value = serde_json::from_str(
        r#"{
          "vehicles": {
            "name": "raptor",
            "year": 2018
          },
          "Truks": {
            "name": "hummer",
            "maker": "ford",
            "year": 2019
          }
        }"#,
    )
    .unwrap();

    let data = data_from_json(&json);

    let yaml: serde_yaml::Value = serde_yaml::from_str(
        &r#"
        Root:
            +Type: Object
            vehicles:
                +Type: Object
                name:
                    +Type: String
                maker:
                    +Type: String
                year:
                    +Type: Integer
            Truks:
                +Type: Object
                name:
                    +Type: String
                maker:
                    +Type: String
                year:
                    +Type: Integer
                    "#,
    )
    .unwrap();

    let validator = AS3Validator::from_document(&document_from_yaml(&yaml)).unwrap();

    assert_eq!(
        validator.validate(&data),
        Err(AS3ValidationError::MissingKey {
            key: "maker".to_string()
        })
    );

    json["vehicles"]["maker"] = serde_json::Value::String("tesla".to_string());

    assert_eq!(validator.validate(&data_from_json(&json)), Ok(()))
}
