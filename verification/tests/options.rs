use diffai_python::errors::BridgeError;
use diffai_python::options::build_options;
use diffai_python::options::parse_output_format;
use diffai_python::options::OutputKind;
use diffai_python::value::HostValue;

#[test]
fn build_with_no_configuration_leaves_every_field_empty() {
    let opts = build_options(None).unwrap();
    assert!(opts.epsilon.is_none());
    assert!(opts.array_id_key.is_none());
    assert!(opts.ignore_keys_regex.is_none());
    assert!(opts.path_filter.is_none());
    assert!(opts.output_format.is_none());
}

#[test]
fn build_with_empty_configuration_leaves_every_field_empty() {
    let empty = HostValue::Dict(vec![]);
    let opts = build_options(Some(&empty)).unwrap();
    assert!(opts.epsilon.is_none());
    assert!(opts.array_id_key.is_none());
    assert!(opts.ignore_keys_regex.is_none());
    assert!(opts.path_filter.is_none());
    assert!(opts.output_format.is_none());
}

#[test]
fn build_reads_the_five_recognized_keys() {
    let cfg = HostValue::Dict(vec![
        (
            "epsilon".to_string(),
            HostValue::Float(0.001f64.to_bits()),
        ),
        (
            "array_id_key".to_string(),
            HostValue::Str("id".to_string()),
        ),
        (
            "ignore_keys_regex".to_string(),
            HostValue::Str("^_.*$".to_string()),
        ),
        (
            "path_filter".to_string(),
            HostValue::Str("layer".to_string()),
        ),
        (
            "output_format".to_string(),
            HostValue::Str("json".to_string()),
        ),
    ]);
    let opts = build_options(Some(&cfg)).unwrap();
    assert_eq!(opts.epsilon, Some(0.001f64.to_bits()));
    assert_eq!(opts.array_id_key, Some("id".to_string()));
    let compiled = opts.ignore_keys_regex.unwrap();
    assert_eq!(compiled.pattern, "^_.*$".to_string());
    assert!(compiled.regex.is_match("_private"));
    assert!(!compiled.regex.is_match("weights"));
    assert_eq!(opts.path_filter, Some("layer".to_string()));
    assert_eq!(opts.output_format, Some(OutputKind::Json));
}

#[test]
fn build_ignores_unrecognized_keys() {
    let cfg = HostValue::Dict(vec![
        ("verbose".to_string(), HostValue::Bool(true)),
        ("epsilon".to_string(), HostValue::Float(2.0f64.to_bits())),
    ]);
    let opts = build_options(Some(&cfg)).unwrap();
    assert_eq!(opts.epsilon, Some(2.0f64.to_bits()));
    assert!(opts.array_id_key.is_none());
}

#[test]
fn build_with_unbalanced_parenthesis_fails_with_invalid_regex() {
    let cfg = HostValue::Dict(vec![(
        "ignore_keys_regex".to_string(),
        HostValue::Str("(".to_string()),
    )]);
    match build_options(Some(&cfg)) {
        Err(BridgeError::InvalidRegex(pattern, message)) => {
            assert_eq!(pattern, "(".to_string());
            assert!(!message.is_empty());
        }
        other => panic!("expected InvalidRegex, got {:?}", other.map(|_| ())),
    }
}

#[test]
fn build_with_unknown_output_format_fails_with_invalid_output_format() {
    let cfg = HostValue::Dict(vec![(
        "output_format".to_string(),
        HostValue::Str("xml".to_string()),
    )]);
    match build_options(Some(&cfg)) {
        Err(BridgeError::InvalidOutputFormat(value)) => {
            assert_eq!(value, "xml".to_string());
        }
        other => panic!("expected InvalidOutputFormat, got {:?}", other.map(|_| ())),
    }
}

#[test]
fn build_reports_a_key_present_with_the_wrong_type() {
    let cfg = HostValue::Dict(vec![(
        "epsilon".to_string(),
        HostValue::Str("tiny".to_string()),
    )]);
    match build_options(Some(&cfg)) {
        Err(BridgeError::WrongType(key)) => assert_eq!(key, "epsilon".to_string()),
        other => panic!("expected WrongType, got {:?}", other.map(|_| ())),
    }
    let cfg2 = HostValue::Dict(vec![(
        "array_id_key".to_string(),
        HostValue::Int(3),
    )]);
    match build_options(Some(&cfg2)) {
        Err(BridgeError::WrongType(key)) => assert_eq!(key, "array_id_key".to_string()),
        other => panic!("expected WrongType, got {:?}", other.map(|_| ())),
    }
}

#[test]
fn parse_output_format_accepts_the_fixed_names() {
    assert_eq!(parse_output_format("diffai").unwrap(), OutputKind::Diffai);
    assert_eq!(parse_output_format("json").unwrap(), OutputKind::Json);
    assert_eq!(parse_output_format("yaml").unwrap(), OutputKind::Yaml);
    assert_eq!(parse_output_format("yml").unwrap(), OutputKind::Yaml);
}

#[test]
fn parse_output_format_ignores_ascii_case() {
    assert_eq!(parse_output_format("JSON").unwrap(), OutputKind::Json);
    assert_eq!(parse_output_format("Diffai").unwrap(), OutputKind::Diffai);
    assert_eq!(parse_output_format("YaML").unwrap(), OutputKind::Yaml);
}

#[test]
fn parse_output_format_rejects_everything_else() {
    match parse_output_format("xml") {
        Err(BridgeError::InvalidOutputFormat(value)) => {
            assert_eq!(value, "xml".to_string());
        }
        other => panic!("expected InvalidOutputFormat, got {:?}", other),
    }
    assert!(parse_output_format("").is_err());
    assert!(parse_output_format("jsonx").is_err());
}
