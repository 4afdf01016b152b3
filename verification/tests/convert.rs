use diffai_python::convert::lift;
use diffai_python::convert::lower;
use diffai_python::errors::BridgeError;
use diffai_python::value::HostValue;
use diffai_python::value::Value;

fn sample_tree() -> HostValue {
    HostValue::Dict(vec![
        ("flag".to_string(), HostValue::Bool(true)),
        ("count".to_string(), HostValue::Int(42)),
        ("ratio".to_string(), HostValue::Float(1.5f64.to_bits())),
        ("name".to_string(), HostValue::Str("model".to_string())),
        (
            "items".to_string(),
            HostValue::List(vec![
                HostValue::Int(1),
                HostValue::Null,
                HostValue::List(vec![HostValue::Str("x".to_string())]),
                HostValue::Dict(vec![("k".to_string(), HostValue::Int(-7))]),
            ]),
        ),
    ])
}

#[test]
fn round_trip_preserves_supported_values() {
    let tree = sample_tree();
    let lowered = lower(&tree).unwrap();
    let lifted = lift(&lowered);
    assert_eq!(lifted, sample_tree());
}

#[test]
fn round_trip_keeps_integers_and_floats_distinct() {
    let v = HostValue::List(vec![HostValue::Int(3), HostValue::Float(3.0f64.to_bits())]);
    let lowered = lower(&v).unwrap();
    assert_eq!(
        lowered,
        Value::Arr(vec![Value::Int(3), Value::Float(3.0f64.to_bits())])
    );
    let lifted = lift(&lowered);
    assert_eq!(
        lifted,
        HostValue::List(vec![HostValue::Int(3), HostValue::Float(3.0f64.to_bits())])
    );
}

#[test]
fn lowering_opaque_fails_with_unsupported_type() {
    assert_eq!(lower(&HostValue::Opaque), Err(BridgeError::UnsupportedType));
}

#[test]
fn lowering_nested_opaque_fails_with_unsupported_type() {
    let v = HostValue::List(vec![HostValue::Int(1), HostValue::Opaque]);
    assert_eq!(lower(&v), Err(BridgeError::UnsupportedType));
    let d = HostValue::Dict(vec![("k".to_string(), HostValue::Opaque)]);
    assert_eq!(lower(&d), Err(BridgeError::UnsupportedType));
}

#[test]
fn non_finite_floats_lower_to_integer_zero() {
    assert_eq!(
        lower(&HostValue::Float(f64::NAN.to_bits())).unwrap(),
        Value::Int(0)
    );
    assert_eq!(
        lower(&HostValue::Float(f64::INFINITY.to_bits())).unwrap(),
        Value::Int(0)
    );
    assert_eq!(
        lower(&HostValue::Float(f64::NEG_INFINITY.to_bits())).unwrap(),
        Value::Int(0)
    );
}

#[test]
fn lowering_leaves_are_mapped_directly() {
    assert_eq!(lower(&HostValue::Null).unwrap(), Value::Null);
    assert_eq!(lower(&HostValue::Bool(false)).unwrap(), Value::Bool(false));
    assert_eq!(
        lower(&HostValue::Str("abc".to_string())).unwrap(),
        Value::Str("abc".to_string())
    );
}
