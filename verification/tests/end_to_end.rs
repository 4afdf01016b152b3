use diffai_python::codec::decode_results;
use diffai_python::codec::encode_results;
use diffai_python::codec::DiffRecord;
use diffai_python::codec::TensorStats;
use diffai_python::convert::lower;
use diffai_python::options::build_options;
use diffai_python::options::DiffOptions;
use diffai_python::options::OutputKind;
use diffai_python::value::HostValue;
use diffai_python::value::Value;

fn to_json(v: &Value) -> serde_json::Value {
    match v {
        Value::Null => serde_json::Value::Null,
        Value::Bool(b) => serde_json::Value::Bool(*b),
        Value::Int(i) => serde_json::Value::Number((*i).into()),
        Value::Float(bits) => serde_json::Value::Number(
            serde_json::Number::from_f64(f64::from_bits(*bits)).unwrap_or(0.into()),
        ),
        Value::Str(s) => serde_json::Value::String(s.clone()),
        Value::Arr(items) => serde_json::Value::Array(items.iter().map(to_json).collect()),
        Value::Obj(entries) => serde_json::Value::Object(
            entries
                .iter()
                .map(|(k, v)| (k.clone(), to_json(v)))
                .collect(),
        ),
    }
}

fn from_json(v: &serde_json::Value) -> Value {
    match v {
        serde_json::Value::Null => Value::Null,
        serde_json::Value::Bool(b) => Value::Bool(*b),
        serde_json::Value::Number(n) => {
            if let Some(i) = n.as_i64() {
                Value::Int(i)
            } else if let Some(f) = n.as_f64() {
                Value::Float(f.to_bits())
            } else {
                Value::Null
            }
        }
        serde_json::Value::String(s) => Value::Str(s.clone()),
        serde_json::Value::Array(items) => Value::Arr(items.iter().map(from_json).collect()),
        serde_json::Value::Object(entries) => Value::Obj(
            entries
                .iter()
                .map(|(k, v)| (k.clone(), from_json(v)))
                .collect(),
        ),
    }
}

fn core_options(o: DiffOptions) -> diffai_core::DiffOptions {
    diffai_core::DiffOptions {
        epsilon: o.epsilon.map(f64::from_bits),
        array_id_key: o.array_id_key,
        ignore_keys_regex: o.ignore_keys_regex.map(|c| c.regex),
        path_filter: o.path_filter,
        output_format: o.output_format.map(|k| match k {
            OutputKind::Diffai => diffai_core::OutputFormat::Diffai,
            OutputKind::Json => diffai_core::OutputFormat::Json,
            OutputKind::Yaml => diffai_core::OutputFormat::Yaml,
        }),
    }
}

fn shape_to_i64(shape: Vec<usize>) -> Vec<i64> {
    shape.into_iter().map(|d| d as i64).collect()
}

fn stats_to_record(s: diffai_core::TensorStats) -> TensorStats {
    TensorStats {
        mean: s.mean.to_bits(),
        std: s.std.to_bits(),
        min: s.min.to_bits(),
        max: s.max.to_bits(),
        shape: shape_to_i64(s.shape),
        dtype: s.dtype,
        element_count: s.element_count as i64,
    }
}

fn to_record(r: diffai_core::DiffResult) -> DiffRecord {
    match r {
        diffai_core::DiffResult::Added(path, v) => DiffRecord::Added {
            path,
            value: from_json(&v),
        },
        diffai_core::DiffResult::Removed(path, v) => DiffRecord::Removed {
            path,
            value: from_json(&v),
        },
        diffai_core::DiffResult::Modified(path, ov, nv) => DiffRecord::Modified {
            path,
            old_value: from_json(&ov),
            new_value: from_json(&nv),
        },
        diffai_core::DiffResult::TypeChanged(path, ov, nv) => DiffRecord::TypeChanged {
            path,
            old_value: from_json(&ov),
            new_value: from_json(&nv),
        },
        diffai_core::DiffResult::TensorShapeChanged(path, os, ns) => {
            DiffRecord::TensorShapeChanged {
                path,
                old_shape: shape_to_i64(os),
                new_shape: shape_to_i64(ns),
            }
        }
        diffai_core::DiffResult::TensorStatsChanged(path, os, ns) => {
            DiffRecord::TensorStatsChanged {
                path,
                old_stats: stats_to_record(os),
                new_stats: stats_to_record(ns),
            }
        }
        diffai_core::DiffResult::TensorDataChanged(path, om, nm) => {
            DiffRecord::TensorDataChanged {
                path,
                old_mean: om.to_bits(),
                new_mean: nm.to_bits(),
            }
        }
        diffai_core::DiffResult::ModelArchitectureChanged(path, oa, na) => {
            DiffRecord::ModelArchitectureChanged {
                path,
                old_architecture: oa,
                new_architecture: na,
            }
        }
        diffai_core::DiffResult::WeightSignificantChange(path, m) => {
            DiffRecord::WeightSignificantChange {
                path,
                change_magnitude: m.to_bits(),
            }
        }
        diffai_core::DiffResult::ActivationFunctionChanged(path, of, nf) => {
            DiffRecord::ActivationFunctionChanged {
                path,
                old_activation: of,
                new_activation: nf,
            }
        }
        diffai_core::DiffResult::LearningRateChanged(path, ol, nl) => {
            DiffRecord::LearningRateChanged {
                path,
                old_learning_rate: ol.to_bits(),
                new_learning_rate: nl.to_bits(),
            }
        }
        diffai_core::DiffResult::OptimizerChanged(path, oo, no) => {
            DiffRecord::OptimizerChanged {
                path,
                old_optimizer: oo,
                new_optimizer: no,
            }
        }
        diffai_core::DiffResult::LossChange(path, ol, nl) => DiffRecord::LossChange {
            path,
            old_loss: ol.to_bits(),
            new_loss: nl.to_bits(),
        },
        diffai_core::DiffResult::AccuracyChange(path, oa, na) => DiffRecord::AccuracyChange {
            path,
            old_accuracy: oa.to_bits(),
            new_accuracy: na.to_bits(),
        },
        diffai_core::DiffResult::ModelVersionChanged(path, ov, nv) => {
            DiffRecord::ModelVersionChanged {
                path,
                old_version: ov,
                new_version: nv,
            }
        }
    }
}

fn record_to_core(r: DiffRecord) -> diffai_core::DiffResult {
    match r {
        DiffRecord::Added { path, value } => {
            diffai_core::DiffResult::Added(path, to_json(&value))
        }
        DiffRecord::Removed { path, value } => {
            diffai_core::DiffResult::Removed(path, to_json(&value))
        }
        DiffRecord::Modified {
            path,
            old_value,
            new_value,
        } => diffai_core::DiffResult::Modified(path, to_json(&old_value), to_json(&new_value)),
        DiffRecord::TypeChanged {
            path,
            old_value,
            new_value,
        } => diffai_core::DiffResult::TypeChanged(path, to_json(&old_value), to_json(&new_value)),
        other => panic!("only the four decodable kinds are rebuilt here: {:?}", other),
    }
}

#[test]
fn diff_of_two_small_objects_yields_one_modified_entry() {
    let old = HostValue::Dict(vec![("a".to_string(), HostValue::Int(1))]);
    let new = HostValue::Dict(vec![("a".to_string(), HostValue::Int(2))]);
    let opts = build_options(None).unwrap();
    let old_json = to_json(&lower(&old).unwrap());
    let new_json = to_json(&lower(&new).unwrap());
    let results = diffai_core::diff(&old_json, &new_json, Some(&core_options(opts))).unwrap();
    let recs: Vec<DiffRecord> = results.into_iter().map(to_record).collect();
    assert_eq!(recs.len(), 1);
    let hosts = encode_results(&recs);
    assert_eq!(hosts.len(), 1);
    let decoded = decode_results(&hosts).unwrap();
    assert_eq!(
        decoded,
        vec![DiffRecord::Modified {
            path: "a".to_string(),
            old_value: Value::Int(1),
            new_value: Value::Int(2),
        }]
    );
}

#[test]
fn diff_of_a_shrunk_list_yields_a_removed_entry_for_the_trailing_element() {
    let old = HostValue::List(vec![
        HostValue::Int(1),
        HostValue::Int(2),
        HostValue::Int(3),
    ]);
    let new = HostValue::List(vec![HostValue::Int(1), HostValue::Int(2)]);
    let opts = build_options(None).unwrap();
    let old_json = to_json(&lower(&old).unwrap());
    let new_json = to_json(&lower(&new).unwrap());
    let results = diffai_core::diff(&old_json, &new_json, Some(&core_options(opts))).unwrap();
    let recs: Vec<DiffRecord> = results.into_iter().map(to_record).collect();
    let removed: Vec<&DiffRecord> = recs
        .iter()
        .filter(|r| matches!(r, DiffRecord::Removed { .. }))
        .collect();
    assert_eq!(removed.len(), 1);
    match removed[0] {
        DiffRecord::Removed { path, value } => {
            assert!(path.contains('2'), "path was {:?}", path);
            assert_eq!(value, &Value::Int(3));
        }
        _ => unreachable!(),
    }
}

#[test]
fn format_output_of_one_added_entry_as_json_is_parseable_and_complete() {
    let recs = vec![DiffRecord::Added {
        path: "alpha".to_string(),
        value: Value::Int(42),
    }];
    let hosts = encode_results(&recs);
    let decoded = decode_results(&hosts).unwrap();
    let core_results: Vec<diffai_core::DiffResult> =
        decoded.into_iter().map(record_to_core).collect();
    let rendered =
        diffai_core::format_output(&core_results, diffai_core::OutputFormat::Json).unwrap();
    let parsed: serde_json::Value = serde_json::from_str(&rendered).unwrap();
    assert!(!parsed.is_null());
    assert!(rendered.contains("alpha"));
    assert!(rendered.contains("42"));
}
