use diffai_python::codec::decode;
use diffai_python::codec::decode_results;
use diffai_python::codec::encode;
use diffai_python::codec::encode_results;
use diffai_python::codec::DiffRecord;
use diffai_python::codec::TensorStats;
use diffai_python::errors::BridgeError;
use diffai_python::value::HostValue;
use diffai_python::value::Value;

fn payload() -> Value {
    Value::Obj(vec![
        ("n".to_string(), Value::Int(1)),
        (
            "xs".to_string(),
            Value::Arr(vec![Value::Null, Value::Str("deep".to_string())]),
        ),
    ])
}

fn stats() -> TensorStats {
    TensorStats {
        mean: 0.5f64.to_bits(),
        std: 0.1f64.to_bits(),
        min: (-1.0f64).to_bits(),
        max: 1.0f64.to_bits(),
        shape: vec![2, 3],
        dtype: "f32".to_string(),
        element_count: 6,
    }
}

#[test]
fn encode_added_has_discriminant_path_and_value() {
    let rec = DiffRecord::Added {
        path: "w.a".to_string(),
        value: payload(),
    };
    let encoded = encode(&rec);
    assert_eq!(
        encoded,
        Value::Obj(vec![
            ("type".to_string(), Value::Str("Added".to_string())),
            ("path".to_string(), Value::Str("w.a".to_string())),
            ("value".to_string(), payload()),
        ])
    );
}

#[test]
fn encode_tensor_stats_changed_spells_out_the_seven_fields() {
    let rec = DiffRecord::TensorStatsChanged {
        path: "layer1".to_string(),
        old_stats: stats(),
        new_stats: stats(),
    };
    let encoded = encode(&rec);
    assert_eq!(
        encoded,
        Value::Obj(vec![
            (
                "type".to_string(),
                Value::Str("TensorStatsChanged".to_string())
            ),
            ("path".to_string(), Value::Str("layer1".to_string())),
            ("old_stats".to_string(), expected_stats_value()),
            ("new_stats".to_string(), expected_stats_value()),
        ])
    );
}

fn expected_stats_value() -> Value {
    Value::Obj(vec![
        ("mean".to_string(), Value::Float(0.5f64.to_bits())),
        ("std".to_string(), Value::Float(0.1f64.to_bits())),
        ("min".to_string(), Value::Float((-1.0f64).to_bits())),
        ("max".to_string(), Value::Float(1.0f64.to_bits())),
        (
            "shape".to_string(),
            Value::Arr(vec![Value::Int(2), Value::Int(3)]),
        ),
        ("dtype".to_string(), Value::Str("f32".to_string())),
        ("element_count".to_string(), Value::Int(6)),
    ])
}

#[test]
fn decode_encode_round_trip_for_the_four_supported_kinds() {
    let records = vec![
        DiffRecord::Added {
            path: "a".to_string(),
            value: payload(),
        },
        DiffRecord::Removed {
            path: "b".to_string(),
            value: payload(),
        },
        DiffRecord::Modified {
            path: "c".to_string(),
            old_value: payload(),
            new_value: Value::Int(2),
        },
        DiffRecord::TypeChanged {
            path: "d".to_string(),
            old_value: Value::Bool(true),
            new_value: Value::Str("x".to_string()),
        },
    ];
    for rec in &records {
        let first = encode(rec);
        let decoded = decode(&first).unwrap();
        assert_eq!(&decoded, rec);
        let second = encode(&decoded);
        assert_eq!(second, encode(rec));
    }
}

#[test]
fn decode_rejects_the_eleven_other_kinds_with_invalid_diff_type() {
    let records = vec![
        DiffRecord::TensorShapeChanged {
            path: "p".to_string(),
            old_shape: vec![2, 2],
            new_shape: vec![4],
        },
        DiffRecord::TensorStatsChanged {
            path: "p".to_string(),
            old_stats: stats(),
            new_stats: stats(),
        },
        DiffRecord::TensorDataChanged {
            path: "p".to_string(),
            old_mean: 0.1f64.to_bits(),
            new_mean: 0.2f64.to_bits(),
        },
        DiffRecord::ModelArchitectureChanged {
            path: "p".to_string(),
            old_architecture: "cnn".to_string(),
            new_architecture: "mlp".to_string(),
        },
        DiffRecord::WeightSignificantChange {
            path: "p".to_string(),
            change_magnitude: 0.9f64.to_bits(),
        },
        DiffRecord::ActivationFunctionChanged {
            path: "p".to_string(),
            old_activation: "relu".to_string(),
            new_activation: "gelu".to_string(),
        },
        DiffRecord::LearningRateChanged {
            path: "p".to_string(),
            old_learning_rate: 0.01f64.to_bits(),
            new_learning_rate: 0.001f64.to_bits(),
        },
        DiffRecord::OptimizerChanged {
            path: "p".to_string(),
            old_optimizer: "sgd".to_string(),
            new_optimizer: "adam".to_string(),
        },
        DiffRecord::LossChange {
            path: "p".to_string(),
            old_loss: 1.0f64.to_bits(),
            new_loss: 0.5f64.to_bits(),
        },
        DiffRecord::AccuracyChange {
            path: "p".to_string(),
            old_accuracy: 0.8f64.to_bits(),
            new_accuracy: 0.9f64.to_bits(),
        },
        DiffRecord::ModelVersionChanged {
            path: "p".to_string(),
            old_version: "1".to_string(),
            new_version: "2".to_string(),
        },
    ];
    let names = vec![
        "TensorShapeChanged",
        "TensorStatsChanged",
        "TensorDataChanged",
        "ModelArchitectureChanged",
        "WeightSignificantChange",
        "ActivationFunctionChanged",
        "LearningRateChanged",
        "OptimizerChanged",
        "LossChange",
        "AccuracyChange",
        "ModelVersionChanged",
    ];
    for (rec, name) in records.iter().zip(names.iter()) {
        let encoded = encode(rec);
        assert_eq!(
            decode(&encoded),
            Err(BridgeError::InvalidDiffType(name.to_string()))
        );
    }
}

#[test]
fn decode_reports_missing_fields() {
    let no_type = Value::Obj(vec![(
        "path".to_string(),
        Value::Str("p".to_string()),
    )]);
    assert_eq!(
        decode(&no_type),
        Err(BridgeError::MissingField("type".to_string()))
    );

    let no_path = Value::Obj(vec![(
        "type".to_string(),
        Value::Str("Added".to_string()),
    )]);
    assert_eq!(
        decode(&no_path),
        Err(BridgeError::MissingField("path".to_string()))
    );

    let no_value = Value::Obj(vec![
        ("type".to_string(), Value::Str("Added".to_string())),
        ("path".to_string(), Value::Str("p".to_string())),
    ]);
    assert_eq!(
        decode(&no_value),
        Err(BridgeError::MissingField("value".to_string()))
    );

    let no_new_value = Value::Obj(vec![
        ("type".to_string(), Value::Str("Modified".to_string())),
        ("path".to_string(), Value::Str("p".to_string())),
        ("old_value".to_string(), Value::Int(1)),
    ]);
    assert_eq!(
        decode(&no_new_value),
        Err(BridgeError::MissingField("new_value".to_string()))
    );
}

#[test]
fn decode_reports_non_text_discriminant_and_path() {
    let bad_type = Value::Obj(vec![
        ("type".to_string(), Value::Int(1)),
        ("path".to_string(), Value::Str("p".to_string())),
    ]);
    assert_eq!(
        decode(&bad_type),
        Err(BridgeError::WrongType("type".to_string()))
    );

    let bad_path = Value::Obj(vec![
        ("type".to_string(), Value::Str("Added".to_string())),
        ("path".to_string(), Value::Null),
    ]);
    assert_eq!(
        decode(&bad_path),
        Err(BridgeError::WrongType("path".to_string()))
    );
}

#[test]
fn decode_rejects_unknown_type_strings() {
    let unknown = Value::Obj(vec![
        ("type".to_string(), Value::Str("Exploded".to_string())),
        ("path".to_string(), Value::Str("p".to_string())),
    ]);
    assert_eq!(
        decode(&unknown),
        Err(BridgeError::InvalidDiffType("Exploded".to_string()))
    );
}

#[test]
fn decode_a_value_that_is_not_an_object_reports_the_missing_discriminant() {
    assert_eq!(
        decode(&Value::Int(3)),
        Err(BridgeError::MissingField("type".to_string()))
    );
}

#[test]
fn encode_results_then_decode_results_round_trips() {
    let recs = vec![
        DiffRecord::Added {
            path: "a".to_string(),
            value: Value::Int(1),
        },
        DiffRecord::Modified {
            path: "b".to_string(),
            old_value: Value::Int(1),
            new_value: Value::Int(2),
        },
    ];
    let hosts = encode_results(&recs);
    assert_eq!(hosts.len(), 2);
    match &hosts[0] {
        HostValue::Dict(entries) => {
            assert_eq!(
                entries[0],
                (
                    "type".to_string(),
                    HostValue::Str("Added".to_string())
                )
            );
        }
        other => panic!("expected a dict, got {:?}", other),
    }
    let decoded = decode_results(&hosts).unwrap();
    assert_eq!(decoded, recs);
}

#[test]
fn decode_results_propagates_the_element_errors() {
    let hosts = vec![HostValue::Int(1)];
    assert_eq!(
        decode_results(&hosts),
        Err(BridgeError::MissingField("type".to_string()))
    );
    let opaque = vec![HostValue::Opaque];
    assert_eq!(
        decode_results(&opaque),
        Err(BridgeError::UnsupportedType)
    );
}
