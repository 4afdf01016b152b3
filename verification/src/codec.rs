//! The diff result codec: between the diff core's closed set of structured
//! result kinds and canonical object values with an explicit type-name
//! discriminant field.
//!
//! Encoding is total over all fifteen kinds. Decoding supports exactly four
//! kinds — Added, Removed, Modified, TypeChanged — and rejects every other
//! type string with `InvalidDiffType`; this asymmetry is part of the
//! behavioural contract.

use vstd::prelude::*;

use crate::convert::host_supported;
use crate::convert::lift;
use crate::convert::lift_model;
use crate::convert::lower;
use crate::convert::lower_model;
use crate::errors::BridgeError;
use crate::errors::ErrModel;
use crate::value::dup_value;
use crate::value::lemma_val_entries_m_index;
use crate::value::lemma_val_seq_m_index;
use crate::value::val_entries_m;
use crate::value::val_seq_m;
use crate::value::HostValue;
use crate::value::ValModel;
use crate::value::Value;

verus! {

broadcast use vstd::std_specs::vec::group_vec_axioms;

/// A statistics snapshot of a tensor, owned by the diff result that carries
/// it. Floating-point fields hold IEEE-754 double bit patterns.
#[derive(Debug, PartialEq, Eq)]
pub struct TensorStats {
    pub mean: u64,
    pub std: u64,
    pub min: u64,
    pub max: u64,
    pub shape: Vec<i64>,
    pub dtype: String,
    pub element_count: i64,
}

/// Mathematical model of a `TensorStats`.
pub struct StatsModel {
    pub mean: u64,
    pub std: u64,
    pub min: u64,
    pub max: u64,
    pub shape: Seq<i64>,
    pub dtype: Seq<char>,
    pub element_count: i64,
}

impl View for TensorStats {
    type V = StatsModel;

    open spec fn view(&self) -> StatsModel {
        StatsModel {
            mean: self.mean,
            std: self.std,
            min: self.min,
            max: self.max,
            shape: self.shape@,
            dtype: self.dtype@,
            element_count: self.element_count,
        }
    }
}

/// A structural or semantic change reported by the diff core: one case per
/// change kind, each carrying a locator path and its kind-specific payload.
/// Floating-point payloads hold IEEE-754 double bit patterns.
#[derive(Debug, PartialEq, Eq)]
pub enum DiffRecord {
    Added { path: String, value: Value },
    Removed { path: String, value: Value },
    Modified { path: String, old_value: Value, new_value: Value },
    TypeChanged { path: String, old_value: Value, new_value: Value },
    TensorShapeChanged { path: String, old_shape: Vec<i64>, new_shape: Vec<i64> },
    TensorStatsChanged { path: String, old_stats: TensorStats, new_stats: TensorStats },
    TensorDataChanged { path: String, old_mean: u64, new_mean: u64 },
    ModelArchitectureChanged { path: String, old_architecture: String, new_architecture: String },
    WeightSignificantChange { path: String, change_magnitude: u64 },
    ActivationFunctionChanged { path: String, old_activation: String, new_activation: String },
    LearningRateChanged { path: String, old_learning_rate: u64, new_learning_rate: u64 },
    OptimizerChanged { path: String, old_optimizer: String, new_optimizer: String },
    LossChange { path: String, old_loss: u64, new_loss: u64 },
    AccuracyChange { path: String, old_accuracy: u64, new_accuracy: u64 },
    ModelVersionChanged { path: String, old_version: String, new_version: String },
}

/// Mathematical model of a `DiffRecord`.
#[verifier::ext_equal]
pub enum RecModel {
    Added { path: Seq<char>, value: ValModel },
    Removed { path: Seq<char>, value: ValModel },
    Modified { path: Seq<char>, old_value: ValModel, new_value: ValModel },
    TypeChanged { path: Seq<char>, old_value: ValModel, new_value: ValModel },
    TensorShapeChanged { path: Seq<char>, old_shape: Seq<i64>, new_shape: Seq<i64> },
    TensorStatsChanged { path: Seq<char>, old_stats: StatsModel, new_stats: StatsModel },
    TensorDataChanged { path: Seq<char>, old_mean: u64, new_mean: u64 },
    ModelArchitectureChanged {
        path: Seq<char>,
        old_architecture: Seq<char>,
        new_architecture: Seq<char>,
    },
    WeightSignificantChange { path: Seq<char>, change_magnitude: u64 },
    ActivationFunctionChanged {
        path: Seq<char>,
        old_activation: Seq<char>,
        new_activation: Seq<char>,
    },
    LearningRateChanged { path: Seq<char>, old_learning_rate: u64, new_learning_rate: u64 },
    OptimizerChanged { path: Seq<char>, old_optimizer: Seq<char>, new_optimizer: Seq<char> },
    LossChange { path: Seq<char>, old_loss: u64, new_loss: u64 },
    AccuracyChange { path: Seq<char>, old_accuracy: u64, new_accuracy: u64 },
    ModelVersionChanged { path: Seq<char>, old_version: Seq<char>, new_version: Seq<char> },
}

impl View for DiffRecord {
    type V = RecModel;

    open spec fn view(&self) -> RecModel {
        match self {
            DiffRecord::Added { path, value } => RecModel::Added {
                path: path@,
                value: value@,
            },
            DiffRecord::Removed { path, value } => RecModel::Removed {
                path: path@,
                value: value@,
            },
            DiffRecord::Modified { path, old_value, new_value } => RecModel::Modified {
                path: path@,
                old_value: old_value@,
                new_value: new_value@,
            },
            DiffRecord::TypeChanged { path, old_value, new_value } => RecModel::TypeChanged {
                path: path@,
                old_value: old_value@,
                new_value: new_value@,
            },
            DiffRecord::TensorShapeChanged {
                path,
                old_shape,
                new_shape,
            } => RecModel::TensorShapeChanged {
                path: path@,
                old_shape: old_shape@,
                new_shape: new_shape@,
            },
            DiffRecord::TensorStatsChanged {
                path,
                old_stats,
                new_stats,
            } => RecModel::TensorStatsChanged {
                path: path@,
                old_stats: old_stats@,
                new_stats: new_stats@,
            },
            DiffRecord::TensorDataChanged { path, old_mean, new_mean } => {
                RecModel::TensorDataChanged {
                    path: path@,
                    old_mean: *old_mean,
                    new_mean: *new_mean,
                }
            },
            DiffRecord::ModelArchitectureChanged {
                path,
                old_architecture,
                new_architecture,
            } => RecModel::ModelArchitectureChanged {
                path: path@,
                old_architecture: old_architecture@,
                new_architecture: new_architecture@,
            },
            DiffRecord::WeightSignificantChange { path, change_magnitude } => {
                RecModel::WeightSignificantChange {
                    path: path@,
                    change_magnitude: *change_magnitude,
                }
            },
            DiffRecord::ActivationFunctionChanged {
                path,
                old_activation,
                new_activation,
            } => RecModel::ActivationFunctionChanged {
                path: path@,
                old_activation: old_activation@,
                new_activation: new_activation@,
            },
            DiffRecord::LearningRateChanged {
                path,
                old_learning_rate,
                new_learning_rate,
            } => RecModel::LearningRateChanged {
                path: path@,
                old_learning_rate: *old_learning_rate,
                new_learning_rate: *new_learning_rate,
            },
            DiffRecord::OptimizerChanged {
                path,
                old_optimizer,
                new_optimizer,
            } => RecModel::OptimizerChanged {
                path: path@,
                old_optimizer: old_optimizer@,
                new_optimizer: new_optimizer@,
            },
            DiffRecord::LossChange { path, old_loss, new_loss } => RecModel::LossChange {
                path: path@,
                old_loss: *old_loss,
                new_loss: *new_loss,
            },
            DiffRecord::AccuracyChange { path, old_accuracy, new_accuracy } => {
                RecModel::AccuracyChange {
                    path: path@,
                    old_accuracy: *old_accuracy,
                    new_accuracy: *new_accuracy,
                }
            },
            DiffRecord::ModelVersionChanged {
                path,
                old_version,
                new_version,
            } => RecModel::ModelVersionChanged {
                path: path@,
                old_version: old_version@,
                new_version: new_version@,
            },
        }
    }
}

/// The type-name discriminant under which a record kind is encoded.
pub open spec fn variant_name(r: RecModel) -> Seq<char> {
    match r {
        RecModel::Added { .. } => "Added"@,
        RecModel::Removed { .. } => "Removed"@,
        RecModel::Modified { .. } => "Modified"@,
        RecModel::TypeChanged { .. } => "TypeChanged"@,
        RecModel::TensorShapeChanged { .. } => "TensorShapeChanged"@,
        RecModel::TensorStatsChanged { .. } => "TensorStatsChanged"@,
        RecModel::TensorDataChanged { .. } => "TensorDataChanged"@,
        RecModel::ModelArchitectureChanged { .. } => "ModelArchitectureChanged"@,
        RecModel::WeightSignificantChange { .. } => "WeightSignificantChange"@,
        RecModel::ActivationFunctionChanged { .. } => "ActivationFunctionChanged"@,
        RecModel::LearningRateChanged { .. } => "LearningRateChanged"@,
        RecModel::OptimizerChanged { .. } => "OptimizerChanged"@,
        RecModel::LossChange { .. } => "LossChange"@,
        RecModel::AccuracyChange { .. } => "AccuracyChange"@,
        RecModel::ModelVersionChanged { .. } => "ModelVersionChanged"@,
    }
}

/// Whether a record kind is among the four that decoding supports.
pub open spec fn decodable(r: RecModel) -> bool {
    match r {
        RecModel::Added { .. } => true,
        RecModel::Removed { .. } => true,
        RecModel::Modified { .. } => true,
        RecModel::TypeChanged { .. } => true,
        _ => false,
    }
}

/// A sequence of integers as a canonical array value.
pub open spec fn ints_model(s: Seq<i64>) -> Seq<ValModel> {
    s.map_values(|x: i64| ValModel::Int(x))
}

/// A tensor statistics snapshot as a canonical object value with its seven
/// named fields.
pub open spec fn stats_value_model(st: StatsModel) -> ValModel {
    ValModel::Obj(
        seq![
            ("mean"@, ValModel::Float(st.mean)),
            ("std"@, ValModel::Float(st.std)),
            ("min"@, ValModel::Float(st.min)),
            ("max"@, ValModel::Float(st.max)),
            ("shape"@, ValModel::Arr(ints_model(st.shape))),
            ("dtype"@, ValModel::Str(st.dtype)),
            ("element_count"@, ValModel::Int(st.element_count)),
        ],
    )
}

/// What encoding produces: for every record kind, an object whose `"type"`
/// field is the kind's name, whose `"path"` field is the path text, and
/// whose remaining fields are the kind-specific payload.
pub open spec fn encode_model(r: RecModel) -> ValModel {
    match r {
        RecModel::Added { path, value } => ValModel::Obj(
            seq![
                ("type"@, ValModel::Str("Added"@)),
                ("path"@, ValModel::Str(path)),
                ("value"@, value),
            ],
        ),
        RecModel::Removed { path, value } => ValModel::Obj(
            seq![
                ("type"@, ValModel::Str("Removed"@)),
                ("path"@, ValModel::Str(path)),
                ("value"@, value),
            ],
        ),
        RecModel::Modified { path, old_value, new_value } => ValModel::Obj(
            seq![
                ("type"@, ValModel::Str("Modified"@)),
                ("path"@, ValModel::Str(path)),
                ("old_value"@, old_value),
                ("new_value"@, new_value),
            ],
        ),
        RecModel::TypeChanged { path, old_value, new_value } => ValModel::Obj(
            seq![
                ("type"@, ValModel::Str("TypeChanged"@)),
                ("path"@, ValModel::Str(path)),
                ("old_value"@, old_value),
                ("new_value"@, new_value),
            ],
        ),
        RecModel::TensorShapeChanged { path, old_shape, new_shape } => ValModel::Obj(
            seq![
                ("type"@, ValModel::Str("TensorShapeChanged"@)),
                ("path"@, ValModel::Str(path)),
                ("old_shape"@, ValModel::Arr(ints_model(old_shape))),
                ("new_shape"@, ValModel::Arr(ints_model(new_shape))),
            ],
        ),
        RecModel::TensorStatsChanged { path, old_stats, new_stats } => ValModel::Obj(
            seq![
                ("type"@, ValModel::Str("TensorStatsChanged"@)),
                ("path"@, ValModel::Str(path)),
                ("old_stats"@, stats_value_model(old_stats)),
                ("new_stats"@, stats_value_model(new_stats)),
            ],
        ),
        RecModel::TensorDataChanged { path, old_mean, new_mean } => ValModel::Obj(
            seq![
                ("type"@, ValModel::Str("TensorDataChanged"@)),
                ("path"@, ValModel::Str(path)),
                ("old_mean"@, ValModel::Float(old_mean)),
                ("new_mean"@, ValModel::Float(new_mean)),
            ],
        ),
        RecModel::ModelArchitectureChanged {
            path,
            old_architecture,
            new_architecture,
        } => ValModel::Obj(
            seq![
                ("type"@, ValModel::Str("ModelArchitectureChanged"@)),
                ("path"@, ValModel::Str(path)),
                ("old_architecture"@, ValModel::Str(old_architecture)),
                ("new_architecture"@, ValModel::Str(new_architecture)),
            ],
        ),
        RecModel::WeightSignificantChange { path, change_magnitude } => ValModel::Obj(
            seq![
                ("type"@, ValModel::Str("WeightSignificantChange"@)),
                ("path"@, ValModel::Str(path)),
                ("change_magnitude"@, ValModel::Float(change_magnitude)),
            ],
        ),
        RecModel::ActivationFunctionChanged {
            path,
            old_activation,
            new_activation,
        } => ValModel::Obj(
            seq![
                ("type"@, ValModel::Str("ActivationFunctionChanged"@)),
                ("path"@, ValModel::Str(path)),
                ("old_activation"@, ValModel::Str(old_activation)),
                ("new_activation"@, ValModel::Str(new_activation)),
            ],
        ),
        RecModel::LearningRateChanged {
            path,
            old_learning_rate,
            new_learning_rate,
        } => ValModel::Obj(
            seq![
                ("type"@, ValModel::Str("LearningRateChanged"@)),
                ("path"@, ValModel::Str(path)),
                ("old_learning_rate"@, ValModel::Float(old_learning_rate)),
                ("new_learning_rate"@, ValModel::Float(new_learning_rate)),
            ],
        ),
        RecModel::OptimizerChanged { path, old_optimizer, new_optimizer } => ValModel::Obj(
            seq![
                ("type"@, ValModel::Str("OptimizerChanged"@)),
                ("path"@, ValModel::Str(path)),
                ("old_optimizer"@, ValModel::Str(old_optimizer)),
                ("new_optimizer"@, ValModel::Str(new_optimizer)),
            ],
        ),
        RecModel::LossChange { path, old_loss, new_loss } => ValModel::Obj(
            seq![
                ("type"@, ValModel::Str("LossChange"@)),
                ("path"@, ValModel::Str(path)),
                ("old_loss"@, ValModel::Float(old_loss)),
                ("new_loss"@, ValModel::Float(new_loss)),
            ],
        ),
        RecModel::AccuracyChange { path, old_accuracy, new_accuracy } => ValModel::Obj(
            seq![
                ("type"@, ValModel::Str("AccuracyChange"@)),
                ("path"@, ValModel::Str(path)),
                ("old_accuracy"@, ValModel::Float(old_accuracy)),
                ("new_accuracy"@, ValModel::Float(new_accuracy)),
            ],
        ),
        RecModel::ModelVersionChanged { path, old_version, new_version } => ValModel::Obj(
            seq![
                ("type"@, ValModel::Str("ModelVersionChanged"@)),
                ("path"@, ValModel::Str(path)),
                ("old_version"@, ValModel::Str(old_version)),
                ("new_version"@, ValModel::Str(new_version)),
            ],
        ),
    }
}

/// A text payload as a canonical string value.
fn text(s: &str) -> (r: Value)
    ensures
        r@ == ValModel::Str(s@),
{
    Value::Str(s.to_owned())
}

/// One keyed field of an object under construction.
fn entry(key: &str, v: Value) -> (r: (String, Value))
    ensures
        r.0@ == key@,
        r.1 == v,
{
    (key.to_owned(), v)
}

/// A copy of a shape vector with the same model.
fn dup_shape(s: &Vec<i64>) -> (r: Vec<i64>)
    ensures
        r@ == s@,
{
    let mut out: Vec<i64> = Vec::new();
    let mut idx: usize = 0;
    while idx < s.len()
        invariant
            idx <= s.len(),
            out@ == s@.subrange(0, idx as int),
        decreases s.len() - idx,
    {
        out.push(s[idx]);
        proof {
            assert(out@ =~= s@.subrange(0, idx + 1));
        }
        idx += 1;
    }
    proof {
        assert(out@ =~= s@);
    }
    out
}

/// A sequence of integers as a canonical array value.
#[verifier::loop_isolation(false)]
fn ints_value(s: &Vec<i64>) -> (r: Value)
    ensures
        r@ == ValModel::Arr(ints_model(s@)),
{
    let mut out: Vec<Value> = Vec::new();
    let mut idx: usize = 0;
    while idx < s.len()
        invariant
            idx <= s.len(),
            out@.len() == idx,
            forall|j: int| 0 <= j < idx ==> (#[trigger] out@[j]).m() == ValModel::Int(s@[j]),
        decreases s.len() - idx,
    {
        out.push(Value::Int(s[idx]));
        idx += 1;
    }
    proof {
        lemma_val_seq_m_index(out@);
        assert(val_seq_m(out@) =~= ints_model(s@));
    }
    Value::Arr(out)
}

/// A tensor statistics snapshot as a canonical object value.
fn stats_value(st: &TensorStats) -> (r: Value)
    ensures
        r@ == stats_value_model(st@),
{
    let mut out: Vec<(String, Value)> = Vec::new();
    out.push(entry("mean", Value::Float(st.mean)));
    out.push(entry("std", Value::Float(st.std)));
    out.push(entry("min", Value::Float(st.min)));
    out.push(entry("max", Value::Float(st.max)));
    out.push(entry("shape", ints_value(&st.shape)));
    out.push(entry("dtype", text(st.dtype.as_str())));
    out.push(entry("element_count", Value::Int(st.element_count)));
    proof {
        lemma_val_entries_m_index(out@);
        assert(val_entries_m(out@) =~= seq![
            ("mean"@, ValModel::Float(st.mean)),
            ("std"@, ValModel::Float(st.std)),
            ("min"@, ValModel::Float(st.min)),
            ("max"@, ValModel::Float(st.max)),
            ("shape"@, ValModel::Arr(ints_model(st.shape@))),
            ("dtype"@, ValModel::Str(st.dtype@)),
            ("element_count"@, ValModel::Int(st.element_count)),
        ]);
    }
    Value::Obj(out)
}

/// Encode a diff record as a canonical object value, with an explicit
/// `"type"` discriminant field. Total over all fifteen kinds.
pub fn encode(rec: &DiffRecord) -> (r: Value)
    ensures
        r@ == encode_model(rec@),
{
    match rec {
        DiffRecord::Added { path, value } => {
            let mut out: Vec<(String, Value)> = Vec::new();
            out.push(entry("type", text("Added")));
            out.push(entry("path", text(path.as_str())));
            out.push(entry("value", dup_value(value)));
            proof {
                lemma_val_entries_m_index(out@);
                assert(val_entries_m(out@) =~= seq![
                    ("type"@, ValModel::Str("Added"@)),
                    ("path"@, ValModel::Str(path@)),
                    ("value"@, value@),
                ]);
            }
            Value::Obj(out)
        },
        DiffRecord::Removed { path, value } => {
            let mut out: Vec<(String, Value)> = Vec::new();
            out.push(entry("type", text("Removed")));
            out.push(entry("path", text(path.as_str())));
            out.push(entry("value", dup_value(value)));
            proof {
                lemma_val_entries_m_index(out@);
                assert(val_entries_m(out@) =~= seq![
                    ("type"@, ValModel::Str("Removed"@)),
                    ("path"@, ValModel::Str(path@)),
                    ("value"@, value@),
                ]);
            }
            Value::Obj(out)
        },
        DiffRecord::Modified { path, old_value, new_value } => {
            let mut out: Vec<(String, Value)> = Vec::new();
            out.push(entry("type", text("Modified")));
            out.push(entry("path", text(path.as_str())));
            out.push(entry("old_value", dup_value(old_value)));
            out.push(entry("new_value", dup_value(new_value)));
            proof {
                lemma_val_entries_m_index(out@);
                assert(val_entries_m(out@) =~= seq![
                    ("type"@, ValModel::Str("Modified"@)),
                    ("path"@, ValModel::Str(path@)),
                    ("old_value"@, old_value@),
                    ("new_value"@, new_value@),
                ]);
            }
            Value::Obj(out)
        },
        DiffRecord::TypeChanged { path, old_value, new_value } => {
            let mut out: Vec<(String, Value)> = Vec::new();
            out.push(entry("type", text("TypeChanged")));
            out.push(entry("path", text(path.as_str())));
            out.push(entry("old_value", dup_value(old_value)));
            out.push(entry("new_value", dup_value(new_value)));
            proof {
                lemma_val_entries_m_index(out@);
                assert(val_entries_m(out@) =~= seq![
                    ("type"@, ValModel::Str("TypeChanged"@)),
                    ("path"@, ValModel::Str(path@)),
                    ("old_value"@, old_value@),
                    ("new_value"@, new_value@),
                ]);
            }
            Value::Obj(out)
        },
        DiffRecord::TensorShapeChanged { path, old_shape, new_shape } => {
            let mut out: Vec<(String, Value)> = Vec::new();
            out.push(entry("type", text("TensorShapeChanged")));
            out.push(entry("path", text(path.as_str())));
            out.push(entry("old_shape", ints_value(old_shape)));
            out.push(entry("new_shape", ints_value(new_shape)));
            proof {
                lemma_val_entries_m_index(out@);
                assert(val_entries_m(out@) =~= seq![
                    ("type"@, ValModel::Str("TensorShapeChanged"@)),
                    ("path"@, ValModel::Str(path@)),
                    ("old_shape"@, ValModel::Arr(ints_model(old_shape@))),
                    ("new_shape"@, ValModel::Arr(ints_model(new_shape@))),
                ]);
            }
            Value::Obj(out)
        },
        DiffRecord::TensorStatsChanged { path, old_stats, new_stats } => {
            let mut out: Vec<(String, Value)> = Vec::new();
            out.push(entry("type", text("TensorStatsChanged")));
            out.push(entry("path", text(path.as_str())));
            out.push(entry("old_stats", stats_value(old_stats)));
            out.push(entry("new_stats", stats_value(new_stats)));
            proof {
                lemma_val_entries_m_index(out@);
                assert(val_entries_m(out@) =~= seq![
                    ("type"@, ValModel::Str("TensorStatsChanged"@)),
                    ("path"@, ValModel::Str(path@)),
                    ("old_stats"@, stats_value_model(old_stats@)),
                    ("new_stats"@, stats_value_model(new_stats@)),
                ]);
            }
            Value::Obj(out)
        },
        DiffRecord::TensorDataChanged { path, old_mean, new_mean } => {
            let mut out: Vec<(String, Value)> = Vec::new();
            out.push(entry("type", text("TensorDataChanged")));
            out.push(entry("path", text(path.as_str())));
            out.push(entry("old_mean", Value::Float(*old_mean)));
            out.push(entry("new_mean", Value::Float(*new_mean)));
            proof {
                lemma_val_entries_m_index(out@);
                assert(val_entries_m(out@) =~= seq![
                    ("type"@, ValModel::Str("TensorDataChanged"@)),
                    ("path"@, ValModel::Str(path@)),
                    ("old_mean"@, ValModel::Float(*old_mean)),
                    ("new_mean"@, ValModel::Float(*new_mean)),
                ]);
            }
            Value::Obj(out)
        },
        DiffRecord::ModelArchitectureChanged { path, old_architecture, new_architecture } => {
            let mut out: Vec<(String, Value)> = Vec::new();
            out.push(entry("type", text("ModelArchitectureChanged")));
            out.push(entry("path", text(path.as_str())));
            out.push(entry("old_architecture", text(old_architecture.as_str())));
            out.push(entry("new_architecture", text(new_architecture.as_str())));
            proof {
                lemma_val_entries_m_index(out@);
                assert(val_entries_m(out@) =~= seq![
                    ("type"@, ValModel::Str("ModelArchitectureChanged"@)),
                    ("path"@, ValModel::Str(path@)),
                    ("old_architecture"@, ValModel::Str(old_architecture@)),
                    ("new_architecture"@, ValModel::Str(new_architecture@)),
                ]);
            }
            Value::Obj(out)
        },
        DiffRecord::WeightSignificantChange { path, change_magnitude } => {
            let mut out: Vec<(String, Value)> = Vec::new();
            out.push(entry("type", text("WeightSignificantChange")));
            out.push(entry("path", text(path.as_str())));
            out.push(entry("change_magnitude", Value::Float(*change_magnitude)));
            proof {
                lemma_val_entries_m_index(out@);
                assert(val_entries_m(out@) =~= seq![
                    ("type"@, ValModel::Str("WeightSignificantChange"@)),
                    ("path"@, ValModel::Str(path@)),
                    ("change_magnitude"@, ValModel::Float(*change_magnitude)),
                ]);
            }
            Value::Obj(out)
        },
        DiffRecord::ActivationFunctionChanged { path, old_activation, new_activation } => {
            let mut out: Vec<(String, Value)> = Vec::new();
            out.push(entry("type", text("ActivationFunctionChanged")));
            out.push(entry("path", text(path.as_str())));
            out.push(entry("old_activation", text(old_activation.as_str())));
            out.push(entry("new_activation", text(new_activation.as_str())));
            proof {
                lemma_val_entries_m_index(out@);
                assert(val_entries_m(out@) =~= seq![
                    ("type"@, ValModel::Str("ActivationFunctionChanged"@)),
                    ("path"@, ValModel::Str(path@)),
                    ("old_activation"@, ValModel::Str(old_activation@)),
                    ("new_activation"@, ValModel::Str(new_activation@)),
                ]);
            }
            Value::Obj(out)
        },
        DiffRecord::LearningRateChanged { path, old_learning_rate, new_learning_rate } => {
            let mut out: Vec<(String, Value)> = Vec::new();
            out.push(entry("type", text("LearningRateChanged")));
            out.push(entry("path", text(path.as_str())));
            out.push(entry("old_learning_rate", Value::Float(*old_learning_rate)));
            out.push(entry("new_learning_rate", Value::Float(*new_learning_rate)));
            proof {
                lemma_val_entries_m_index(out@);
                assert(val_entries_m(out@) =~= seq![
                    ("type"@, ValModel::Str("LearningRateChanged"@)),
                    ("path"@, ValModel::Str(path@)),
                    ("old_learning_rate"@, ValModel::Float(*old_learning_rate)),
                    ("new_learning_rate"@, ValModel::Float(*new_learning_rate)),
                ]);
            }
            Value::Obj(out)
        },
        DiffRecord::OptimizerChanged { path, old_optimizer, new_optimizer } => {
            let mut out: Vec<(String, Value)> = Vec::new();
            out.push(entry("type", text("OptimizerChanged")));
            out.push(entry("path", text(path.as_str())));
            out.push(entry("old_optimizer", text(old_optimizer.as_str())));
            out.push(entry("new_optimizer", text(new_optimizer.as_str())));
            proof {
                lemma_val_entries_m_index(out@);
                assert(val_entries_m(out@) =~= seq![
                    ("type"@, ValModel::Str("OptimizerChanged"@)),
                    ("path"@, ValModel::Str(path@)),
                    ("old_optimizer"@, ValModel::Str(old_optimizer@)),
                    ("new_optimizer"@, ValModel::Str(new_optimizer@)),
                ]);
            }
            Value::Obj(out)
        },
        DiffRecord::LossChange { path, old_loss, new_loss } => {
            let mut out: Vec<(String, Value)> = Vec::new();
            out.push(entry("type", text("LossChange")));
            out.push(entry("path", text(path.as_str())));
            out.push(entry("old_loss", Value::Float(*old_loss)));
            out.push(entry("new_loss", Value::Float(*new_loss)));
            proof {
                lemma_val_entries_m_index(out@);
                assert(val_entries_m(out@) =~= seq![
                    ("type"@, ValModel::Str("LossChange"@)),
                    ("path"@, ValModel::Str(path@)),
                    ("old_loss"@, ValModel::Float(*old_loss)),
                    ("new_loss"@, ValModel::Float(*new_loss)),
                ]);
            }
            Value::Obj(out)
        },
        DiffRecord::AccuracyChange { path, old_accuracy, new_accuracy } => {
            let mut out: Vec<(String, Value)> = Vec::new();
            out.push(entry("type", text("AccuracyChange")));
            out.push(entry("path", text(path.as_str())));
            out.push(entry("old_accuracy", Value::Float(*old_accuracy)));
            out.push(entry("new_accuracy", Value::Float(*new_accuracy)));
            proof {
                lemma_val_entries_m_index(out@);
                assert(val_entries_m(out@) =~= seq![
                    ("type"@, ValModel::Str("AccuracyChange"@)),
                    ("path"@, ValModel::Str(path@)),
                    ("old_accuracy"@, ValModel::Float(*old_accuracy)),
                    ("new_accuracy"@, ValModel::Float(*new_accuracy)),
                ]);
            }
            Value::Obj(out)
        },
        DiffRecord::ModelVersionChanged { path, old_version, new_version } => {
            let mut out: Vec<(String, Value)> = Vec::new();
            out.push(entry("type", text("ModelVersionChanged")));
            out.push(entry("path", text(path.as_str())));
            out.push(entry("old_version", text(old_version.as_str())));
            out.push(entry("new_version", text(new_version.as_str())));
            proof {
                lemma_val_entries_m_index(out@);
                assert(val_entries_m(out@) =~= seq![
                    ("type"@, ValModel::Str("ModelVersionChanged"@)),
                    ("path"@, ValModel::Str(path@)),
                    ("old_version"@, ValModel::Str(old_version@)),
                    ("new_version"@, ValModel::Str(new_version@)),
                ]);
            }
            Value::Obj(out)
        },
    }
}

/// The first value under the given key in an object's entries, earlier
/// entries taking precedence.
pub open spec fn obj_get(entries: Seq<(Seq<char>, ValModel)>, key: Seq<char>) -> Option<ValModel>
    decreases entries,
{
    if entries.len() == 0 {
        None
    } else if entries[0].0 == key {
        Some(entries[0].1)
    } else {
        obj_get(entries.subrange(1, entries.len() as int), key)
    }
}

/// Find the first value under the given key in an object's entries.
#[verifier::loop_isolation(false)]
fn obj_find<'a>(entries: &'a Vec<(String, Value)>, key: &String) -> (r: Option<&'a Value>)
    ensures
        match r {
            Some(v) => obj_get(val_entries_m(entries@), key@) == Some(v@),
            None => obj_get(val_entries_m(entries@), key@) is None,
        },
{
    proof {
        lemma_val_entries_m_index(entries@);
    }
    let ghost em = val_entries_m(entries@);
    proof {
        assert(em.skip(0) =~= em);
    }
    let mut idx: usize = 0;
    while idx < entries.len()
        invariant
            idx <= entries.len(),
            obj_get(em, key@) == obj_get(em.skip(idx as int), key@),
        decreases entries.len() - idx,
    {
        proof {
            assert(em[idx as int] == (entries@[idx as int].0@, entries@[idx as int].1.m()));
            assert(em.skip(idx as int)[0] == em[idx as int]);
        }
        if entries[idx].0 == *key {
            return Some(&entries[idx].1);
        }
        proof {
            assert(em.skip(idx as int).subrange(1, em.skip(idx as int).len() as int) =~= em.skip(
                idx + 1,
            ));
        }
        idx += 1;
    }
    proof {
        assert(em.skip(entries.len() as int) =~= Seq::<(Seq<char>, ValModel)>::empty());
    }
    None
}

/// What decoding produces once the discriminant and the path are in hand:
/// the typed record for the four supported type strings, each payload field
/// read by name, and `InvalidDiffType` for every other type string.
pub open spec fn decode_variant(
    entries: Seq<(Seq<char>, ValModel)>,
    name: Seq<char>,
    path: Seq<char>,
) -> Result<RecModel, ErrModel> {
    if name == "Added"@ {
        match obj_get(entries, "value"@) {
            Some(v) => Ok(RecModel::Added { path, value: v }),
            None => Err(ErrModel::MissingField("value"@)),
        }
    } else if name == "Removed"@ {
        match obj_get(entries, "value"@) {
            Some(v) => Ok(RecModel::Removed { path, value: v }),
            None => Err(ErrModel::MissingField("value"@)),
        }
    } else if name == "Modified"@ {
        match obj_get(entries, "old_value"@) {
            Some(ov) => match obj_get(entries, "new_value"@) {
                Some(nv) => Ok(RecModel::Modified { path, old_value: ov, new_value: nv }),
                None => Err(ErrModel::MissingField("new_value"@)),
            },
            None => Err(ErrModel::MissingField("old_value"@)),
        }
    } else if name == "TypeChanged"@ {
        match obj_get(entries, "old_value"@) {
            Some(ov) => match obj_get(entries, "new_value"@) {
                Some(nv) => Ok(RecModel::TypeChanged { path, old_value: ov, new_value: nv }),
                None => Err(ErrModel::MissingField("new_value"@)),
            },
            None => Err(ErrModel::MissingField("old_value"@)),
        }
    } else {
        Err(ErrModel::InvalidDiffType(name))
    }
}

/// What decoding produces on a canonical value: the `"type"` and `"path"`
/// fields are read first, each absence failing with `MissingField` and each
/// non-text occurrence with the type-extraction error naming the key; a
/// value that is not an object has no `"type"` field at all.
pub open spec fn decode_model(v: ValModel) -> Result<RecModel, ErrModel> {
    match v {
        ValModel::Obj(entries) => match obj_get(entries, "type"@) {
            Some(tv) => match tv {
                ValModel::Str(name) => match obj_get(entries, "path"@) {
                    Some(pv) => match pv {
                        ValModel::Str(path) => decode_variant(entries, name, path),
                        _ => Err(ErrModel::WrongType("path"@)),
                    },
                    None => Err(ErrModel::MissingField("path"@)),
                },
                _ => Err(ErrModel::WrongType("type"@)),
            },
            None => Err(ErrModel::MissingField("type"@)),
        },
        _ => Err(ErrModel::MissingField("type"@)),
    }
}

/// A decode outcome, in model terms.
pub open spec fn rec_result_m(r: Result<DiffRecord, BridgeError>) -> Result<RecModel, ErrModel> {
    match r {
        Ok(d) => Ok(d@),
        Err(e) => Err(e@),
    }
}

/// Decode a canonical object value into a typed diff record.
///
/// Only the four kinds Added, Removed, Modified and TypeChanged are
/// supported; any other type string fails with `InvalidDiffType`.
pub fn decode(v: &Value) -> (r: Result<DiffRecord, BridgeError>)
    ensures
        rec_result_m(r) == decode_model(v@),
{
    let entries = match v {
        Value::Obj(entries) => entries,
        _ => {
            return Err(BridgeError::MissingField("type".to_owned()));
        },
    };
    let tkey: String = "type".to_owned();
    let tval = match obj_find(entries, &tkey) {
        Some(t) => t,
        None => {
            return Err(BridgeError::MissingField("type".to_owned()));
        },
    };
    let name = match tval {
        Value::Str(s) => s,
        _ => {
            return Err(BridgeError::WrongType("type".to_owned()));
        },
    };
    let pkey: String = "path".to_owned();
    let pval = match obj_find(entries, &pkey) {
        Some(p) => p,
        None => {
            return Err(BridgeError::MissingField("path".to_owned()));
        },
    };
    let path = match pval {
        Value::Str(s) => s,
        _ => {
            return Err(BridgeError::WrongType("path".to_owned()));
        },
    };
    let n_added: String = "Added".to_owned();
    let n_removed: String = "Removed".to_owned();
    let n_modified: String = "Modified".to_owned();
    let n_type_changed: String = "TypeChanged".to_owned();
    if *name == n_added {
        let vkey: String = "value".to_owned();
        match obj_find(entries, &vkey) {
            Some(payload) => Ok(
                DiffRecord::Added { path: path.clone(), value: dup_value(payload) },
            ),
            None => Err(BridgeError::MissingField("value".to_owned())),
        }
    } else if *name == n_removed {
        let vkey: String = "value".to_owned();
        match obj_find(entries, &vkey) {
            Some(payload) => Ok(
                DiffRecord::Removed { path: path.clone(), value: dup_value(payload) },
            ),
            None => Err(BridgeError::MissingField("value".to_owned())),
        }
    } else if *name == n_modified {
        let okey: String = "old_value".to_owned();
        let nkey: String = "new_value".to_owned();
        match obj_find(entries, &okey) {
            Some(ov) => match obj_find(entries, &nkey) {
                Some(nv) => Ok(
                    DiffRecord::Modified {
                        path: path.clone(),
                        old_value: dup_value(ov),
                        new_value: dup_value(nv),
                    },
                ),
                None => Err(BridgeError::MissingField("new_value".to_owned())),
            },
            None => Err(BridgeError::MissingField("old_value".to_owned())),
        }
    } else if *name == n_type_changed {
        let okey: String = "old_value".to_owned();
        let nkey: String = "new_value".to_owned();
        match obj_find(entries, &okey) {
            Some(ov) => match obj_find(entries, &nkey) {
                Some(nv) => Ok(
                    DiffRecord::TypeChanged {
                        path: path.clone(),
                        old_value: dup_value(ov),
                        new_value: dup_value(nv),
                    },
                ),
                None => Err(BridgeError::MissingField("new_value".to_owned())),
            },
            None => Err(BridgeError::MissingField("old_value".to_owned())),
        }
    } else {
        Err(BridgeError::InvalidDiffType(name.clone()))
    }
}

/// What decoding one dynamic result element produces: lowering first, then
/// the codec's decode direction on the lowered object.
pub open spec fn elem_decode(h: crate::value::HostModel) -> Result<RecModel, ErrModel> {
    if !host_supported(h) {
        Err(ErrModel::UnsupportedType)
    } else {
        decode_model(lower_model(h))
    }
}

/// Decode a sequence of dynamic result objects into typed diff records.
///
/// Succeeds exactly when every element decodes, and then returns the records
/// in order; otherwise fails with the first element's error.
#[verifier::loop_isolation(false)]
pub fn decode_results(results: &Vec<HostValue>) -> (r: Result<Vec<DiffRecord>, BridgeError>)
    ensures
        r matches Ok(out) ==> out@.len() == results@.len() && (forall|j: int|
            0 <= j < results@.len() ==> elem_decode((#[trigger] results@[j])@) == Ok::<RecModel, ErrModel>(out@[j]@)),
        r matches Err(e) ==> exists|j: int|
            0 <= j < results@.len() && elem_decode((#[trigger] results@[j])@) == Err::<RecModel, ErrModel>(e@) && (
            forall|k: int| 0 <= k < j ==> elem_decode((#[trigger] results@[k])@) is Ok),
{
    let mut out: Vec<DiffRecord> = Vec::new();
    let mut idx: usize = 0;
    while idx < results.len()
        invariant
            idx <= results.len(),
            out@.len() == idx,
            forall|k: int| 0 <= k < idx ==> elem_decode((#[trigger] results@[k])@) == Ok::<
                RecModel,
                ErrModel,
            >(out@[k]@),
        decreases results.len() - idx,
    {
        let lowered = match lower(&results[idx]) {
            Ok(v) => v,
            Err(e) => {
                proof {
                    assert(elem_decode(results@[idx as int]@) == Err::<RecModel, ErrModel>(e@));
                }
                return Err(e);
            },
        };
        let rec = match decode(&lowered) {
            Ok(d) => d,
            Err(e) => {
                proof {
                    assert(elem_decode(results@[idx as int]@) == Err::<RecModel, ErrModel>(e@));
                }
                return Err(e);
            },
        };
        out.push(rec);
        idx += 1;
    }
    Ok(out)
}

/// Encode a sequence of diff records as dynamic host objects, in order:
/// each record is encoded as a canonical object and lifted to a host value.
#[verifier::loop_isolation(false)]
pub fn encode_results(recs: &Vec<DiffRecord>) -> (out: Vec<HostValue>)
    ensures
        out@.len() == recs@.len(),
        forall|j: int| 0 <= j < recs@.len() ==> (#[trigger] out@[j])@ == lift_model(
            encode_model(recs@[j]@),
        ),
{
    let mut out: Vec<HostValue> = Vec::new();
    let mut idx: usize = 0;
    while idx < recs.len()
        invariant
            idx <= recs.len(),
            out@.len() == idx,
            forall|j: int| 0 <= j < idx ==> (#[trigger] out@[j])@ == lift_model(
                encode_model(recs@[j]@),
            ),
        decreases recs.len() - idx,
    {
        let v = encode(&recs[idx]);
        let h = lift(&v);
        out.push(h);
        idx += 1;
    }
    out
}

/// Law: decoding an encoded record of one of the four supported kinds gives
/// back exactly that record.
#[verifier::rlimit(60)]
pub proof fn lemma_decode_encode_inverse(r: RecModel)
    requires
        decodable(r),
    ensures
        decode_model(encode_model(r)) == Ok::<RecModel, ErrModel>(r),
{
    reveal_strlit("type");
    reveal_strlit("path");
    reveal_strlit("value");
    reveal_strlit("old_value");
    reveal_strlit("new_value");
    reveal_strlit("Added");
    reveal_strlit("Removed");
    reveal_strlit("Modified");
    reveal_strlit("TypeChanged");
    match r {
        RecModel::Added { path, value } => {
            let entries = seq![
                ("type"@, ValModel::Str("Added"@)),
                ("path"@, ValModel::Str(path)),
                ("value"@, value),
            ];
            assert(encode_model(r) == ValModel::Obj(entries));
            let t1 = entries.subrange(1, 3);
            assert(t1 =~= seq![("path"@, ValModel::Str(path)), ("value"@, value)]);
            let t2 = t1.subrange(1, 2);
            assert(t2 =~= seq![("value"@, value)]);
            assert("type"@ != "path"@) by {
                assert("type"@.len() == 4);
                assert("path"@.len() == 4);
                assert("type"@[0] == 't');
                assert("path"@[0] == 'p');
            }
            assert("type"@ != "value"@) by {
                assert("type"@.len() == 4);
                assert("value"@.len() == 5);
                assert("type"@[0] == 't');
                assert("value"@[0] == 'v');
            }
            assert("path"@ != "value"@) by {
                assert("path"@.len() == 4);
                assert("value"@.len() == 5);
                assert("path"@[0] == 'p');
                assert("value"@[0] == 'v');
            }
            assert(obj_get(entries, "type"@) == Some(ValModel::Str("Added"@)));
            assert(obj_get(entries, "path"@) == obj_get(t1, "path"@));
            assert(obj_get(entries, "path"@) == Some(ValModel::Str(path)));
            assert(obj_get(entries, "value"@) == obj_get(t1, "value"@));
            assert(obj_get(t1, "value"@) == obj_get(t2, "value"@));
            assert(obj_get(entries, "value"@) == Some(value));
            assert(decode_variant(entries, "Added"@, path) == Ok::<RecModel, ErrModel>(r));
        },
        RecModel::Removed { path, value } => {
            let entries = seq![
                ("type"@, ValModel::Str("Removed"@)),
                ("path"@, ValModel::Str(path)),
                ("value"@, value),
            ];
            assert(encode_model(r) == ValModel::Obj(entries));
            let t1 = entries.subrange(1, 3);
            assert(t1 =~= seq![("path"@, ValModel::Str(path)), ("value"@, value)]);
            let t2 = t1.subrange(1, 2);
            assert(t2 =~= seq![("value"@, value)]);
            assert("type"@ != "path"@) by {
                assert("type"@.len() == 4);
                assert("path"@.len() == 4);
                assert("type"@[0] == 't');
                assert("path"@[0] == 'p');
            }
            assert("type"@ != "value"@) by {
                assert("type"@.len() == 4);
                assert("value"@.len() == 5);
                assert("type"@[0] == 't');
                assert("value"@[0] == 'v');
            }
            assert("path"@ != "value"@) by {
                assert("path"@.len() == 4);
                assert("value"@.len() == 5);
                assert("path"@[0] == 'p');
                assert("value"@[0] == 'v');
            }
            assert("Removed"@ != "Added"@) by {
                assert("Removed"@.len() == 7);
                assert("Added"@.len() == 5);
                assert("Removed"@[0] == 'R');
                assert("Added"@[0] == 'A');
            }
            assert(obj_get(entries, "type"@) == Some(ValModel::Str("Removed"@)));
            assert(obj_get(entries, "path"@) == obj_get(t1, "path"@));
            assert(obj_get(entries, "path"@) == Some(ValModel::Str(path)));
            assert(obj_get(entries, "value"@) == obj_get(t1, "value"@));
            assert(obj_get(t1, "value"@) == obj_get(t2, "value"@));
            assert(obj_get(entries, "value"@) == Some(value));
            assert(decode_variant(entries, "Removed"@, path) == Ok::<RecModel, ErrModel>(r));
        },
        RecModel::Modified { path, old_value, new_value } => {
            let entries = seq![
                ("type"@, ValModel::Str("Modified"@)),
                ("path"@, ValModel::Str(path)),
                ("old_value"@, old_value),
                ("new_value"@, new_value),
            ];
            assert(encode_model(r) == ValModel::Obj(entries));
            let t1 = entries.subrange(1, 4);
            assert(t1 =~= seq![
                ("path"@, ValModel::Str(path)),
                ("old_value"@, old_value),
                ("new_value"@, new_value),
            ]);
            let t2 = t1.subrange(1, 3);
            assert(t2 =~= seq![("old_value"@, old_value), ("new_value"@, new_value)]);
            let t3 = t2.subrange(1, 2);
            assert(t3 =~= seq![("new_value"@, new_value)]);
            assert("type"@ != "path"@) by {
                assert("type"@.len() == 4);
                assert("path"@.len() == 4);
                assert("type"@[0] == 't');
                assert("path"@[0] == 'p');
            }
            assert("type"@ != "old_value"@) by {
                assert("type"@.len() == 4);
                assert("old_value"@.len() == 9);
                assert("type"@[0] == 't');
                assert("old_value"@[0] == 'o');
            }
            assert("path"@ != "old_value"@) by {
                assert("path"@.len() == 4);
                assert("old_value"@.len() == 9);
                assert("path"@[0] == 'p');
                assert("old_value"@[0] == 'o');
            }
            assert("type"@ != "new_value"@) by {
                assert("type"@.len() == 4);
                assert("new_value"@.len() == 9);
                assert("type"@[0] == 't');
                assert("new_value"@[0] == 'n');
            }
            assert("path"@ != "new_value"@) by {
                assert("path"@.len() == 4);
                assert("new_value"@.len() == 9);
                assert("path"@[0] == 'p');
                assert("new_value"@[0] == 'n');
            }
            assert("old_value"@ != "new_value"@) by {
                assert("old_value"@.len() == 9);
                assert("new_value"@.len() == 9);
                assert("old_value"@[0] == 'o');
                assert("new_value"@[0] == 'n');
            }
            assert("Modified"@ != "Added"@) by {
                assert("Modified"@.len() == 8);
                assert("Added"@.len() == 5);
                assert("Modified"@[0] == 'M');
                assert("Added"@[0] == 'A');
            }
            assert("Modified"@ != "Removed"@) by {
                assert("Modified"@.len() == 8);
                assert("Removed"@.len() == 7);
                assert("Modified"@[0] == 'M');
                assert("Removed"@[0] == 'R');
            }
            assert(obj_get(entries, "type"@) == Some(ValModel::Str("Modified"@)));
            assert(obj_get(entries, "path"@) == obj_get(t1, "path"@));
            assert(obj_get(entries, "path"@) == Some(ValModel::Str(path)));
            assert(obj_get(entries, "old_value"@) == obj_get(t1, "old_value"@));
            assert(obj_get(t1, "old_value"@) == obj_get(t2, "old_value"@));
            assert(obj_get(entries, "old_value"@) == Some(old_value));
            assert(obj_get(entries, "new_value"@) == obj_get(t1, "new_value"@));
            assert(obj_get(t1, "new_value"@) == obj_get(t2, "new_value"@));
            assert(obj_get(t2, "new_value"@) == obj_get(t3, "new_value"@));
            assert(obj_get(entries, "new_value"@) == Some(new_value));
            assert(decode_variant(entries, "Modified"@, path) == Ok::<RecModel, ErrModel>(r));
        },
        RecModel::TypeChanged { path, old_value, new_value } => {
            let entries = seq![
                ("type"@, ValModel::Str("TypeChanged"@)),
                ("path"@, ValModel::Str(path)),
                ("old_value"@, old_value),
                ("new_value"@, new_value),
            ];
            assert(encode_model(r) == ValModel::Obj(entries));
            let t1 = entries.subrange(1, 4);
            assert(t1 =~= seq![
                ("path"@, ValModel::Str(path)),
                ("old_value"@, old_value),
                ("new_value"@, new_value),
            ]);
            let t2 = t1.subrange(1, 3);
            assert(t2 =~= seq![("old_value"@, old_value), ("new_value"@, new_value)]);
            let t3 = t2.subrange(1, 2);
            assert(t3 =~= seq![("new_value"@, new_value)]);
            assert("type"@ != "path"@) by {
                assert("type"@.len() == 4);
                assert("path"@.len() == 4);
                assert("type"@[0] == 't');
                assert("path"@[0] == 'p');
            }
            assert("type"@ != "old_value"@) by {
                assert("type"@.len() == 4);
                assert("old_value"@.len() == 9);
                assert("type"@[0] == 't');
                assert("old_value"@[0] == 'o');
            }
            assert("path"@ != "old_value"@) by {
                assert("path"@.len() == 4);
                assert("old_value"@.len() == 9);
                assert("path"@[0] == 'p');
                assert("old_value"@[0] == 'o');
            }
            assert("type"@ != "new_value"@) by {
                assert("type"@.len() == 4);
                assert("new_value"@.len() == 9);
                assert("type"@[0] == 't');
                assert("new_value"@[0] == 'n');
            }
            assert("path"@ != "new_value"@) by {
                assert("path"@.len() == 4);
                assert("new_value"@.len() == 9);
                assert("path"@[0] == 'p');
                assert("new_value"@[0] == 'n');
            }
            assert("old_value"@ != "new_value"@) by {
                assert("old_value"@.len() == 9);
                assert("new_value"@.len() == 9);
                assert("old_value"@[0] == 'o');
                assert("new_value"@[0] == 'n');
            }
            assert("TypeChanged"@ != "Added"@) by {
                assert("TypeChanged"@.len() == 11);
                assert("Added"@.len() == 5);
                assert("TypeChanged"@[0] == 'T');
                assert("Added"@[0] == 'A');
            }
            assert("TypeChanged"@ != "Removed"@) by {
                assert("TypeChanged"@.len() == 11);
                assert("Removed"@.len() == 7);
                assert("TypeChanged"@[0] == 'T');
                assert("Removed"@[0] == 'R');
            }
            assert("TypeChanged"@ != "Modified"@) by {
                assert("TypeChanged"@.len() == 11);
                assert("Modified"@.len() == 8);
                assert("TypeChanged"@[0] == 'T');
                assert("Modified"@[0] == 'M');
            }
            assert(obj_get(entries, "type"@) == Some(ValModel::Str("TypeChanged"@)));
            assert(obj_get(entries, "path"@) == obj_get(t1, "path"@));
            assert(obj_get(entries, "path"@) == Some(ValModel::Str(path)));
            assert(obj_get(entries, "old_value"@) == obj_get(t1, "old_value"@));
            assert(obj_get(t1, "old_value"@) == obj_get(t2, "old_value"@));
            assert(obj_get(entries, "old_value"@) == Some(old_value));
            assert(obj_get(entries, "new_value"@) == obj_get(t1, "new_value"@));
            assert(obj_get(t1, "new_value"@) == obj_get(t2, "new_value"@));
            assert(obj_get(t2, "new_value"@) == obj_get(t3, "new_value"@));
            assert(obj_get(entries, "new_value"@) == Some(new_value));
            assert(decode_variant(entries, "TypeChanged"@, path) == Ok::<RecModel, ErrModel>(r));
        },
        _ => {},
    }
}

/// Law: encoding, then decoding, then encoding again gives the first
/// encoding, for every record of the four supported kinds.
pub proof fn lemma_encode_decode_encode(r: RecModel)
    requires
        decodable(r),
    ensures
        decode_model(encode_model(r)) matches Ok(d) && encode_model(d) == encode_model(r),
{
    lemma_decode_encode_inverse(r);
}

/// Law: decoding an encoded record of any of the eleven other kinds fails
/// with `InvalidDiffType` carrying that kind's type-name discriminant.
#[verifier::rlimit(60)]
pub proof fn lemma_decode_rejects_other_kinds(r: RecModel)
    requires
        !decodable(r),
    ensures
        decode_model(encode_model(r)) == Err::<RecModel, ErrModel>(
            ErrModel::InvalidDiffType(variant_name(r)),
        ),
{
    reveal_strlit("type");
    reveal_strlit("path");
    reveal_strlit("Added");
    reveal_strlit("Removed");
    reveal_strlit("Modified");
    reveal_strlit("TypeChanged");
    reveal_strlit("TensorShapeChanged");
    reveal_strlit("TensorStatsChanged");
    reveal_strlit("TensorDataChanged");
    reveal_strlit("ModelArchitectureChanged");
    reveal_strlit("WeightSignificantChange");
    reveal_strlit("ActivationFunctionChanged");
    reveal_strlit("LearningRateChanged");
    reveal_strlit("OptimizerChanged");
    reveal_strlit("LossChange");
    reveal_strlit("AccuracyChange");
    reveal_strlit("ModelVersionChanged");
    match r {
        RecModel::TensorShapeChanged { path, old_shape, new_shape } => {
            let entries = seq![
                ("type"@, ValModel::Str("TensorShapeChanged"@)),
                ("path"@, ValModel::Str(path)),
                ("old_shape"@, ValModel::Arr(ints_model(old_shape))),
                ("new_shape"@, ValModel::Arr(ints_model(new_shape))),
            ];
            assert(encode_model(r) == ValModel::Obj(entries));
            let t1 = entries.subrange(1, 4);
            assert(t1 =~= seq![
                ("path"@, ValModel::Str(path)),
                ("old_shape"@, ValModel::Arr(ints_model(old_shape))),
                ("new_shape"@, ValModel::Arr(ints_model(new_shape))),
            ]);
            assert("type"@ != "path"@) by {
                assert("type"@.len() == 4);
                assert("path"@.len() == 4);
                assert("type"@[0] == 't');
                assert("path"@[0] == 'p');
            }
            assert("TensorShapeChanged"@ != "Added"@) by {
                assert("TensorShapeChanged"@.len() == 18);
                assert("Added"@.len() == 5);
                assert("TensorShapeChanged"@[0] == 'T');
                assert("Added"@[0] == 'A');
            }
            assert("TensorShapeChanged"@ != "Removed"@) by {
                assert("TensorShapeChanged"@.len() == 18);
                assert("Removed"@.len() == 7);
                assert("TensorShapeChanged"@[0] == 'T');
                assert("Removed"@[0] == 'R');
            }
            assert("TensorShapeChanged"@ != "Modified"@) by {
                assert("TensorShapeChanged"@.len() == 18);
                assert("Modified"@.len() == 8);
                assert("TensorShapeChanged"@[0] == 'T');
                assert("Modified"@[0] == 'M');
            }
            assert("TensorShapeChanged"@ != "TypeChanged"@) by {
                assert("TensorShapeChanged"@.len() == 18);
                assert("TypeChanged"@.len() == 11);
                assert("TensorShapeChanged"@[0] == 'T');
                assert("TypeChanged"@[0] == 'T');
            }
            assert(obj_get(entries, "type"@) == Some(ValModel::Str("TensorShapeChanged"@)));
            assert(obj_get(entries, "path"@) == obj_get(t1, "path"@));
            assert(obj_get(entries, "path"@) == Some(ValModel::Str(path)));
            assert(decode_variant(entries, "TensorShapeChanged"@, path) == Err::<RecModel, ErrModel>(
                ErrModel::InvalidDiffType("TensorShapeChanged"@),
            ));
        },
        RecModel::TensorStatsChanged { path, old_stats, new_stats } => {
            let entries = seq![
                ("type"@, ValModel::Str("TensorStatsChanged"@)),
                ("path"@, ValModel::Str(path)),
                ("old_stats"@, stats_value_model(old_stats)),
                ("new_stats"@, stats_value_model(new_stats)),
            ];
            assert(encode_model(r) == ValModel::Obj(entries));
            let t1 = entries.subrange(1, 4);
            assert(t1 =~= seq![
                ("path"@, ValModel::Str(path)),
                ("old_stats"@, stats_value_model(old_stats)),
                ("new_stats"@, stats_value_model(new_stats)),
            ]);
            assert("type"@ != "path"@) by {
                assert("type"@.len() == 4);
                assert("path"@.len() == 4);
                assert("type"@[0] == 't');
                assert("path"@[0] == 'p');
            }
            assert("TensorStatsChanged"@ != "Added"@) by {
                assert("TensorStatsChanged"@.len() == 18);
                assert("Added"@.len() == 5);
                assert("TensorStatsChanged"@[0] == 'T');
                assert("Added"@[0] == 'A');
            }
            assert("TensorStatsChanged"@ != "Removed"@) by {
                assert("TensorStatsChanged"@.len() == 18);
                assert("Removed"@.len() == 7);
                assert("TensorStatsChanged"@[0] == 'T');
                assert("Removed"@[0] == 'R');
            }
            assert("TensorStatsChanged"@ != "Modified"@) by {
                assert("TensorStatsChanged"@.len() == 18);
                assert("Modified"@.len() == 8);
                assert("TensorStatsChanged"@[0] == 'T');
                assert("Modified"@[0] == 'M');
            }
            assert("TensorStatsChanged"@ != "TypeChanged"@) by {
                assert("TensorStatsChanged"@.len() == 18);
                assert("TypeChanged"@.len() == 11);
                assert("TensorStatsChanged"@[0] == 'T');
                assert("TypeChanged"@[0] == 'T');
            }
            assert(obj_get(entries, "type"@) == Some(ValModel::Str("TensorStatsChanged"@)));
            assert(obj_get(entries, "path"@) == obj_get(t1, "path"@));
            assert(obj_get(entries, "path"@) == Some(ValModel::Str(path)));
            assert(decode_variant(entries, "TensorStatsChanged"@, path) == Err::<RecModel, ErrModel>(
                ErrModel::InvalidDiffType("TensorStatsChanged"@),
            ));
        },
        RecModel::TensorDataChanged { path, old_mean, new_mean } => {
            let entries = seq![
                ("type"@, ValModel::Str("TensorDataChanged"@)),
                ("path"@, ValModel::Str(path)),
                ("old_mean"@, ValModel::Float(old_mean)),
                ("new_mean"@, ValModel::Float(new_mean)),
            ];
            assert(encode_model(r) == ValModel::Obj(entries));
            let t1 = entries.subrange(1, 4);
            assert(t1 =~= seq![
                ("path"@, ValModel::Str(path)),
                ("old_mean"@, ValModel::Float(old_mean)),
                ("new_mean"@, ValModel::Float(new_mean)),
            ]);
            assert("type"@ != "path"@) by {
                assert("type"@.len() == 4);
                assert("path"@.len() == 4);
                assert("type"@[0] == 't');
                assert("path"@[0] == 'p');
            }
            assert("TensorDataChanged"@ != "Added"@) by {
                assert("TensorDataChanged"@.len() == 17);
                assert("Added"@.len() == 5);
                assert("TensorDataChanged"@[0] == 'T');
                assert("Added"@[0] == 'A');
            }
            assert("TensorDataChanged"@ != "Removed"@) by {
                assert("TensorDataChanged"@.len() == 17);
                assert("Removed"@.len() == 7);
                assert("TensorDataChanged"@[0] == 'T');
                assert("Removed"@[0] == 'R');
            }
            assert("TensorDataChanged"@ != "Modified"@) by {
                assert("TensorDataChanged"@.len() == 17);
                assert("Modified"@.len() == 8);
                assert("TensorDataChanged"@[0] == 'T');
                assert("Modified"@[0] == 'M');
            }
            assert("TensorDataChanged"@ != "TypeChanged"@) by {
                assert("TensorDataChanged"@.len() == 17);
                assert("TypeChanged"@.len() == 11);
                assert("TensorDataChanged"@[0] == 'T');
                assert("TypeChanged"@[0] == 'T');
            }
            assert(obj_get(entries, "type"@) == Some(ValModel::Str("TensorDataChanged"@)));
            assert(obj_get(entries, "path"@) == obj_get(t1, "path"@));
            assert(obj_get(entries, "path"@) == Some(ValModel::Str(path)));
            assert(decode_variant(entries, "TensorDataChanged"@, path) == Err::<RecModel, ErrModel>(
                ErrModel::InvalidDiffType("TensorDataChanged"@),
            ));
        },
        RecModel::ModelArchitectureChanged { path, old_architecture, new_architecture } => {
            let entries = seq![
                ("type"@, ValModel::Str("ModelArchitectureChanged"@)),
                ("path"@, ValModel::Str(path)),
                ("old_architecture"@, ValModel::Str(old_architecture)),
                ("new_architecture"@, ValModel::Str(new_architecture)),
            ];
            assert(encode_model(r) == ValModel::Obj(entries));
            let t1 = entries.subrange(1, 4);
            assert(t1 =~= seq![
                ("path"@, ValModel::Str(path)),
                ("old_architecture"@, ValModel::Str(old_architecture)),
                ("new_architecture"@, ValModel::Str(new_architecture)),
            ]);
            assert("type"@ != "path"@) by {
                assert("type"@.len() == 4);
                assert("path"@.len() == 4);
                assert("type"@[0] == 't');
                assert("path"@[0] == 'p');
            }
            assert("ModelArchitectureChanged"@ != "Added"@) by {
                assert("ModelArchitectureChanged"@.len() == 24);
                assert("Added"@.len() == 5);
                assert("ModelArchitectureChanged"@[0] == 'M');
                assert("Added"@[0] == 'A');
            }
            assert("ModelArchitectureChanged"@ != "Removed"@) by {
                assert("ModelArchitectureChanged"@.len() == 24);
                assert("Removed"@.len() == 7);
                assert("ModelArchitectureChanged"@[0] == 'M');
                assert("Removed"@[0] == 'R');
            }
            assert("ModelArchitectureChanged"@ != "Modified"@) by {
                assert("ModelArchitectureChanged"@.len() == 24);
                assert("Modified"@.len() == 8);
                assert("ModelArchitectureChanged"@[0] == 'M');
                assert("Modified"@[0] == 'M');
            }
            assert("ModelArchitectureChanged"@ != "TypeChanged"@) by {
                assert("ModelArchitectureChanged"@.len() == 24);
                assert("TypeChanged"@.len() == 11);
                assert("ModelArchitectureChanged"@[0] == 'M');
                assert("TypeChanged"@[0] == 'T');
            }
            assert(obj_get(entries, "type"@) == Some(ValModel::Str("ModelArchitectureChanged"@)));
            assert(obj_get(entries, "path"@) == obj_get(t1, "path"@));
            assert(obj_get(entries, "path"@) == Some(ValModel::Str(path)));
            assert(decode_variant(entries, "ModelArchitectureChanged"@, path) == Err::<RecModel, ErrModel>(
                ErrModel::InvalidDiffType("ModelArchitectureChanged"@),
            ));
        },
        RecModel::WeightSignificantChange { path, change_magnitude } => {
            let entries = seq![
                ("type"@, ValModel::Str("WeightSignificantChange"@)),
                ("path"@, ValModel::Str(path)),
                ("change_magnitude"@, ValModel::Float(change_magnitude)),
            ];
            assert(encode_model(r) == ValModel::Obj(entries));
            let t1 = entries.subrange(1, 3);
            assert(t1 =~= seq![
                ("path"@, ValModel::Str(path)),
                ("change_magnitude"@, ValModel::Float(change_magnitude)),
            ]);
            assert("type"@ != "path"@) by {
                assert("type"@.len() == 4);
                assert("path"@.len() == 4);
                assert("type"@[0] == 't');
                assert("path"@[0] == 'p');
            }
            assert("WeightSignificantChange"@ != "Added"@) by {
                assert("WeightSignificantChange"@.len() == 23);
                assert("Added"@.len() == 5);
                assert("WeightSignificantChange"@[0] == 'W');
                assert("Added"@[0] == 'A');
            }
            assert("WeightSignificantChange"@ != "Removed"@) by {
                assert("WeightSignificantChange"@.len() == 23);
                assert("Removed"@.len() == 7);
                assert("WeightSignificantChange"@[0] == 'W');
                assert("Removed"@[0] == 'R');
            }
            assert("WeightSignificantChange"@ != "Modified"@) by {
                assert("WeightSignificantChange"@.len() == 23);
                assert("Modified"@.len() == 8);
                assert("WeightSignificantChange"@[0] == 'W');
                assert("Modified"@[0] == 'M');
            }
            assert("WeightSignificantChange"@ != "TypeChanged"@) by {
                assert("WeightSignificantChange"@.len() == 23);
                assert("TypeChanged"@.len() == 11);
                assert("WeightSignificantChange"@[0] == 'W');
                assert("TypeChanged"@[0] == 'T');
            }
            assert(obj_get(entries, "type"@) == Some(ValModel::Str("WeightSignificantChange"@)));
            assert(obj_get(entries, "path"@) == obj_get(t1, "path"@));
            assert(obj_get(entries, "path"@) == Some(ValModel::Str(path)));
            assert(decode_variant(entries, "WeightSignificantChange"@, path) == Err::<RecModel, ErrModel>(
                ErrModel::InvalidDiffType("WeightSignificantChange"@),
            ));
        },
        RecModel::ActivationFunctionChanged { path, old_activation, new_activation } => {
            let entries = seq![
                ("type"@, ValModel::Str("ActivationFunctionChanged"@)),
                ("path"@, ValModel::Str(path)),
                ("old_activation"@, ValModel::Str(old_activation)),
                ("new_activation"@, ValModel::Str(new_activation)),
            ];
            assert(encode_model(r) == ValModel::Obj(entries));
            let t1 = entries.subrange(1, 4);
            assert(t1 =~= seq![
                ("path"@, ValModel::Str(path)),
                ("old_activation"@, ValModel::Str(old_activation)),
                ("new_activation"@, ValModel::Str(new_activation)),
            ]);
            assert("type"@ != "path"@) by {
                assert("type"@.len() == 4);
                assert("path"@.len() == 4);
                assert("type"@[0] == 't');
                assert("path"@[0] == 'p');
            }
            assert("ActivationFunctionChanged"@ != "Added"@) by {
                assert("ActivationFunctionChanged"@.len() == 25);
                assert("Added"@.len() == 5);
                assert("ActivationFunctionChanged"@[0] == 'A');
                assert("Added"@[0] == 'A');
            }
            assert("ActivationFunctionChanged"@ != "Removed"@) by {
                assert("ActivationFunctionChanged"@.len() == 25);
                assert("Removed"@.len() == 7);
                assert("ActivationFunctionChanged"@[0] == 'A');
                assert("Removed"@[0] == 'R');
            }
            assert("ActivationFunctionChanged"@ != "Modified"@) by {
                assert("ActivationFunctionChanged"@.len() == 25);
                assert("Modified"@.len() == 8);
                assert("ActivationFunctionChanged"@[0] == 'A');
                assert("Modified"@[0] == 'M');
            }
            assert("ActivationFunctionChanged"@ != "TypeChanged"@) by {
                assert("ActivationFunctionChanged"@.len() == 25);
                assert("TypeChanged"@.len() == 11);
                assert("ActivationFunctionChanged"@[0] == 'A');
                assert("TypeChanged"@[0] == 'T');
            }
            assert(obj_get(entries, "type"@) == Some(ValModel::Str("ActivationFunctionChanged"@)));
            assert(obj_get(entries, "path"@) == obj_get(t1, "path"@));
            assert(obj_get(entries, "path"@) == Some(ValModel::Str(path)));
            assert(decode_variant(entries, "ActivationFunctionChanged"@, path) == Err::<RecModel, ErrModel>(
                ErrModel::InvalidDiffType("ActivationFunctionChanged"@),
            ));
        },
        RecModel::LearningRateChanged { path, old_learning_rate, new_learning_rate } => {
            let entries = seq![
                ("type"@, ValModel::Str("LearningRateChanged"@)),
                ("path"@, ValModel::Str(path)),
                ("old_learning_rate"@, ValModel::Float(old_learning_rate)),
                ("new_learning_rate"@, ValModel::Float(new_learning_rate)),
            ];
            assert(encode_model(r) == ValModel::Obj(entries));
            let t1 = entries.subrange(1, 4);
            assert(t1 =~= seq![
                ("path"@, ValModel::Str(path)),
                ("old_learning_rate"@, ValModel::Float(old_learning_rate)),
                ("new_learning_rate"@, ValModel::Float(new_learning_rate)),
            ]);
            assert("type"@ != "path"@) by {
                assert("type"@.len() == 4);
                assert("path"@.len() == 4);
                assert("type"@[0] == 't');
                assert("path"@[0] == 'p');
            }
            assert("LearningRateChanged"@ != "Added"@) by {
                assert("LearningRateChanged"@.len() == 19);
                assert("Added"@.len() == 5);
                assert("LearningRateChanged"@[0] == 'L');
                assert("Added"@[0] == 'A');
            }
            assert("LearningRateChanged"@ != "Removed"@) by {
                assert("LearningRateChanged"@.len() == 19);
                assert("Removed"@.len() == 7);
                assert("LearningRateChanged"@[0] == 'L');
                assert("Removed"@[0] == 'R');
            }
            assert("LearningRateChanged"@ != "Modified"@) by {
                assert("LearningRateChanged"@.len() == 19);
                assert("Modified"@.len() == 8);
                assert("LearningRateChanged"@[0] == 'L');
                assert("Modified"@[0] == 'M');
            }
            assert("LearningRateChanged"@ != "TypeChanged"@) by {
                assert("LearningRateChanged"@.len() == 19);
                assert("TypeChanged"@.len() == 11);
                assert("LearningRateChanged"@[0] == 'L');
                assert("TypeChanged"@[0] == 'T');
            }
            assert(obj_get(entries, "type"@) == Some(ValModel::Str("LearningRateChanged"@)));
            assert(obj_get(entries, "path"@) == obj_get(t1, "path"@));
            assert(obj_get(entries, "path"@) == Some(ValModel::Str(path)));
            assert(decode_variant(entries, "LearningRateChanged"@, path) == Err::<RecModel, ErrModel>(
                ErrModel::InvalidDiffType("LearningRateChanged"@),
            ));
        },
        RecModel::OptimizerChanged { path, old_optimizer, new_optimizer } => {
            let entries = seq![
                ("type"@, ValModel::Str("OptimizerChanged"@)),
                ("path"@, ValModel::Str(path)),
                ("old_optimizer"@, ValModel::Str(old_optimizer)),
                ("new_optimizer"@, ValModel::Str(new_optimizer)),
            ];
            assert(encode_model(r) == ValModel::Obj(entries));
            let t1 = entries.subrange(1, 4);
            assert(t1 =~= seq![
                ("path"@, ValModel::Str(path)),
                ("old_optimizer"@, ValModel::Str(old_optimizer)),
                ("new_optimizer"@, ValModel::Str(new_optimizer)),
            ]);
            assert("type"@ != "path"@) by {
                assert("type"@.len() == 4);
                assert("path"@.len() == 4);
                assert("type"@[0] == 't');
                assert("path"@[0] == 'p');
            }
            assert("OptimizerChanged"@ != "Added"@) by {
                assert("OptimizerChanged"@.len() == 16);
                assert("Added"@.len() == 5);
                assert("OptimizerChanged"@[0] == 'O');
                assert("Added"@[0] == 'A');
            }
            assert("OptimizerChanged"@ != "Removed"@) by {
                assert("OptimizerChanged"@.len() == 16);
                assert("Removed"@.len() == 7);
                assert("OptimizerChanged"@[0] == 'O');
                assert("Removed"@[0] == 'R');
            }
            assert("OptimizerChanged"@ != "Modified"@) by {
                assert("OptimizerChanged"@.len() == 16);
                assert("Modified"@.len() == 8);
                assert("OptimizerChanged"@[0] == 'O');
                assert("Modified"@[0] == 'M');
            }
            assert("OptimizerChanged"@ != "TypeChanged"@) by {
                assert("OptimizerChanged"@.len() == 16);
                assert("TypeChanged"@.len() == 11);
                assert("OptimizerChanged"@[0] == 'O');
                assert("TypeChanged"@[0] == 'T');
            }
            assert(obj_get(entries, "type"@) == Some(ValModel::Str("OptimizerChanged"@)));
            assert(obj_get(entries, "path"@) == obj_get(t1, "path"@));
            assert(obj_get(entries, "path"@) == Some(ValModel::Str(path)));
            assert(decode_variant(entries, "OptimizerChanged"@, path) == Err::<RecModel, ErrModel>(
                ErrModel::InvalidDiffType("OptimizerChanged"@),
            ));
        },
        RecModel::LossChange { path, old_loss, new_loss } => {
            let entries = seq![
                ("type"@, ValModel::Str("LossChange"@)),
                ("path"@, ValModel::Str(path)),
                ("old_loss"@, ValModel::Float(old_loss)),
                ("new_loss"@, ValModel::Float(new_loss)),
            ];
            assert(encode_model(r) == ValModel::Obj(entries));
            let t1 = entries.subrange(1, 4);
            assert(t1 =~= seq![
                ("path"@, ValModel::Str(path)),
                ("old_loss"@, ValModel::Float(old_loss)),
                ("new_loss"@, ValModel::Float(new_loss)),
            ]);
            assert("type"@ != "path"@) by {
                assert("type"@.len() == 4);
                assert("path"@.len() == 4);
                assert("type"@[0] == 't');
                assert("path"@[0] == 'p');
            }
            assert("LossChange"@ != "Added"@) by {
                assert("LossChange"@.len() == 10);
                assert("Added"@.len() == 5);
                assert("LossChange"@[0] == 'L');
                assert("Added"@[0] == 'A');
            }
            assert("LossChange"@ != "Removed"@) by {
                assert("LossChange"@.len() == 10);
                assert("Removed"@.len() == 7);
                assert("LossChange"@[0] == 'L');
                assert("Removed"@[0] == 'R');
            }
            assert("LossChange"@ != "Modified"@) by {
                assert("LossChange"@.len() == 10);
                assert("Modified"@.len() == 8);
                assert("LossChange"@[0] == 'L');
                assert("Modified"@[0] == 'M');
            }
            assert("LossChange"@ != "TypeChanged"@) by {
                assert("LossChange"@.len() == 10);
                assert("TypeChanged"@.len() == 11);
                assert("LossChange"@[0] == 'L');
                assert("TypeChanged"@[0] == 'T');
            }
            assert(obj_get(entries, "type"@) == Some(ValModel::Str("LossChange"@)));
            assert(obj_get(entries, "path"@) == obj_get(t1, "path"@));
            assert(obj_get(entries, "path"@) == Some(ValModel::Str(path)));
            assert(decode_variant(entries, "LossChange"@, path) == Err::<RecModel, ErrModel>(
                ErrModel::InvalidDiffType("LossChange"@),
            ));
        },
        RecModel::AccuracyChange { path, old_accuracy, new_accuracy } => {
            let entries = seq![
                ("type"@, ValModel::Str("AccuracyChange"@)),
                ("path"@, ValModel::Str(path)),
                ("old_accuracy"@, ValModel::Float(old_accuracy)),
                ("new_accuracy"@, ValModel::Float(new_accuracy)),
            ];
            assert(encode_model(r) == ValModel::Obj(entries));
            let t1 = entries.subrange(1, 4);
            assert(t1 =~= seq![
                ("path"@, ValModel::Str(path)),
                ("old_accuracy"@, ValModel::Float(old_accuracy)),
                ("new_accuracy"@, ValModel::Float(new_accuracy)),
            ]);
            assert("type"@ != "path"@) by {
                assert("type"@.len() == 4);
                assert("path"@.len() == 4);
                assert("type"@[0] == 't');
                assert("path"@[0] == 'p');
            }
            assert("AccuracyChange"@ != "Added"@) by {
                assert("AccuracyChange"@.len() == 14);
                assert("Added"@.len() == 5);
                assert("AccuracyChange"@[0] == 'A');
                assert("Added"@[0] == 'A');
            }
            assert("AccuracyChange"@ != "Removed"@) by {
                assert("AccuracyChange"@.len() == 14);
                assert("Removed"@.len() == 7);
                assert("AccuracyChange"@[0] == 'A');
                assert("Removed"@[0] == 'R');
            }
            assert("AccuracyChange"@ != "Modified"@) by {
                assert("AccuracyChange"@.len() == 14);
                assert("Modified"@.len() == 8);
                assert("AccuracyChange"@[0] == 'A');
                assert("Modified"@[0] == 'M');
            }
            assert("AccuracyChange"@ != "TypeChanged"@) by {
                assert("AccuracyChange"@.len() == 14);
                assert("TypeChanged"@.len() == 11);
                assert("AccuracyChange"@[0] == 'A');
                assert("TypeChanged"@[0] == 'T');
            }
            assert(obj_get(entries, "type"@) == Some(ValModel::Str("AccuracyChange"@)));
            assert(obj_get(entries, "path"@) == obj_get(t1, "path"@));
            assert(obj_get(entries, "path"@) == Some(ValModel::Str(path)));
            assert(decode_variant(entries, "AccuracyChange"@, path) == Err::<RecModel, ErrModel>(
                ErrModel::InvalidDiffType("AccuracyChange"@),
            ));
        },
        RecModel::ModelVersionChanged { path, old_version, new_version } => {
            let entries = seq![
                ("type"@, ValModel::Str("ModelVersionChanged"@)),
                ("path"@, ValModel::Str(path)),
                ("old_version"@, ValModel::Str(old_version)),
                ("new_version"@, ValModel::Str(new_version)),
            ];
            assert(encode_model(r) == ValModel::Obj(entries));
            let t1 = entries.subrange(1, 4);
            assert(t1 =~= seq![
                ("path"@, ValModel::Str(path)),
                ("old_version"@, ValModel::Str(old_version)),
                ("new_version"@, ValModel::Str(new_version)),
            ]);
            assert("type"@ != "path"@) by {
                assert("type"@.len() == 4);
                assert("path"@.len() == 4);
                assert("type"@[0] == 't');
                assert("path"@[0] == 'p');
            }
            assert("ModelVersionChanged"@ != "Added"@) by {
                assert("ModelVersionChanged"@.len() == 19);
                assert("Added"@.len() == 5);
                assert("ModelVersionChanged"@[0] == 'M');
                assert("Added"@[0] == 'A');
            }
            assert("ModelVersionChanged"@ != "Removed"@) by {
                assert("ModelVersionChanged"@.len() == 19);
                assert("Removed"@.len() == 7);
                assert("ModelVersionChanged"@[0] == 'M');
                assert("Removed"@[0] == 'R');
            }
            assert("ModelVersionChanged"@ != "Modified"@) by {
                assert("ModelVersionChanged"@.len() == 19);
                assert("Modified"@.len() == 8);
                assert("ModelVersionChanged"@[0] == 'M');
                assert("Modified"@[0] == 'M');
            }
            assert("ModelVersionChanged"@ != "TypeChanged"@) by {
                assert("ModelVersionChanged"@.len() == 19);
                assert("TypeChanged"@.len() == 11);
                assert("ModelVersionChanged"@[0] == 'M');
                assert("TypeChanged"@[0] == 'T');
            }
            assert(obj_get(entries, "type"@) == Some(ValModel::Str("ModelVersionChanged"@)));
            assert(obj_get(entries, "path"@) == obj_get(t1, "path"@));
            assert(obj_get(entries, "path"@) == Some(ValModel::Str(path)));
            assert(decode_variant(entries, "ModelVersionChanged"@, path) == Err::<RecModel, ErrModel>(
                ErrModel::InvalidDiffType("ModelVersionChanged"@),
            ));
        },
        _ => {},
    }
}

} // verus!
