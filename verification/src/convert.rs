//! The value converter: lowering dynamic host values to canonical values,
//! and lifting canonical values back to host values.
//!
//! Lowering fails exactly on values that contain an unsupported shape.
//! Lifting is total. On values of the six supported shapes whose
//! floating-point leaves are finite, lifting undoes lowering exactly.

use vstd::prelude::*;

use crate::errors::BridgeError;
use crate::errors::ErrModel;
use crate::value::float_bits_finite;
use crate::value::host_entries_m;
use crate::value::host_seq_m;
use crate::value::is_finite_bits;
use crate::value::lemma_host_entries_m;
use crate::value::lemma_host_seq_m;
use crate::value::lemma_val_entries_m;
use crate::value::lemma_val_seq_m;
use crate::value::val_entries_m;
use crate::value::val_seq_m;
use crate::value::HostModel;
use crate::value::HostValue;
use crate::value::ValModel;
use crate::value::Value;

verus! {

broadcast use vstd::std_specs::vec::group_vec_axioms;

/// Whether a host value uses only the six supported shapes
/// (null, bool, number, text, sequence, mapping).
pub open spec fn host_supported(h: HostModel) -> bool
    decreases h,
{
    match h {
        HostModel::Opaque => false,
        HostModel::List(items) => forall|i: int|
            0 <= i < items.len() ==> host_supported(#[trigger] items[i]),
        HostModel::Dict(entries) => forall|i: int|
            0 <= i < entries.len() ==> host_supported(#[trigger] entries[i].1),
        _ => true,
    }
}

/// Whether every floating-point leaf of a host value is finite.
pub open spec fn host_floats_finite(h: HostModel) -> bool
    decreases h,
{
    match h {
        HostModel::Float(bits) => float_bits_finite(bits),
        HostModel::List(items) => forall|i: int|
            0 <= i < items.len() ==> host_floats_finite(#[trigger] items[i]),
        HostModel::Dict(entries) => forall|i: int|
            0 <= i < entries.len() ==> host_floats_finite(#[trigger] entries[i].1),
        _ => true,
    }
}

/// What lowering produces on a supported host value: the same tree in
/// canonical form, with a non-finite floating-point leaf replaced by the
/// sentinel integer zero. On an unsupported value the result is immaterial
/// (lowering fails there).
pub open spec fn lower_model(h: HostModel) -> ValModel
    decreases h,
{
    match h {
        HostModel::Null => ValModel::Null,
        HostModel::Bool(b) => ValModel::Bool(b),
        HostModel::Int(i) => ValModel::Int(i),
        HostModel::Float(bits) => if float_bits_finite(bits) {
            ValModel::Float(bits)
        } else {
            ValModel::Int(0)
        },
        HostModel::Str(s) => ValModel::Str(s),
        HostModel::List(items) => ValModel::Arr(lower_seq_model(items)),
        HostModel::Dict(entries) => ValModel::Obj(lower_entries_model(entries)),
        HostModel::Opaque => ValModel::Null,
    }
}

pub open spec fn lower_seq_model(s: Seq<HostModel>) -> Seq<ValModel>
    decreases s,
{
    if s.len() == 0 {
        Seq::empty()
    } else {
        lower_seq_model(s.subrange(0, s.len() - 1)).push(lower_model(s[s.len() - 1]))
    }
}

pub open spec fn lower_entries_model(s: Seq<(Seq<char>, HostModel)>) -> Seq<
    (Seq<char>, ValModel),
>
    decreases s,
{
    if s.len() == 0 {
        Seq::empty()
    } else {
        lower_entries_model(s.subrange(0, s.len() - 1)).push(
            (s[s.len() - 1].0, lower_model(s[s.len() - 1].1)),
        )
    }
}

/// What lifting produces on a canonical value: the same tree as a host
/// value, with integers and floating-point numbers kept distinct.
pub open spec fn lift_model(v: ValModel) -> HostModel
    decreases v,
{
    match v {
        ValModel::Null => HostModel::Null,
        ValModel::Bool(b) => HostModel::Bool(b),
        ValModel::Int(i) => HostModel::Int(i),
        ValModel::Float(bits) => HostModel::Float(bits),
        ValModel::Str(s) => HostModel::Str(s),
        ValModel::Arr(items) => HostModel::List(lift_seq_model(items)),
        ValModel::Obj(entries) => HostModel::Dict(lift_entries_model(entries)),
    }
}

pub open spec fn lift_seq_model(s: Seq<ValModel>) -> Seq<HostModel>
    decreases s,
{
    if s.len() == 0 {
        Seq::empty()
    } else {
        lift_seq_model(s.subrange(0, s.len() - 1)).push(lift_model(s[s.len() - 1]))
    }
}

pub open spec fn lift_entries_model(s: Seq<(Seq<char>, ValModel)>) -> Seq<
    (Seq<char>, HostModel),
>
    decreases s,
{
    if s.len() == 0 {
        Seq::empty()
    } else {
        lift_entries_model(s.subrange(0, s.len() - 1)).push(
            (s[s.len() - 1].0, lift_model(s[s.len() - 1].1)),
        )
    }
}

/// Lowering a sequence lowers it elementwise.
pub proof fn lemma_lower_seq_model(s: Seq<HostModel>)
    ensures
        lower_seq_model(s).len() == s.len(),
        forall|i: int| 0 <= i < s.len() ==> lower_seq_model(s)[i] == lower_model(
            #[trigger] s[i],
        ),
    decreases s,
{
    if s.len() > 0 {
        let sub = s.subrange(0, s.len() - 1);
        lemma_lower_seq_model(sub);
        assert forall|i: int| 0 <= i < s.len() implies lower_seq_model(s)[i] == lower_model(
            #[trigger] s[i],
        ) by {
            if i < s.len() - 1 {
                assert(sub[i] == s[i]);
                assert(lower_seq_model(s)[i] == lower_seq_model(sub)[i]);
            }
        }
    }
}

/// Lowering a sequence of keyed entries lowers it entrywise, keeping keys.
pub proof fn lemma_lower_entries_model(s: Seq<(Seq<char>, HostModel)>)
    ensures
        lower_entries_model(s).len() == s.len(),
        forall|i: int| 0 <= i < s.len() ==> lower_entries_model(s)[i] == (
            (#[trigger] s[i]).0,
            lower_model(s[i].1),
        ),
    decreases s,
{
    if s.len() > 0 {
        let sub = s.subrange(0, s.len() - 1);
        lemma_lower_entries_model(sub);
        assert forall|i: int| 0 <= i < s.len() implies lower_entries_model(s)[i] == (
            (#[trigger] s[i]).0,
            lower_model(s[i].1),
        ) by {
            if i < s.len() - 1 {
                assert(sub[i] == s[i]);
                assert(lower_entries_model(s)[i] == lower_entries_model(sub)[i]);
            }
        }
    }
}

/// Lifting a sequence lifts it elementwise.
pub proof fn lemma_lift_seq_model(s: Seq<ValModel>)
    ensures
        lift_seq_model(s).len() == s.len(),
        forall|i: int| 0 <= i < s.len() ==> lift_seq_model(s)[i] == lift_model(
            #[trigger] s[i],
        ),
    decreases s,
{
    if s.len() > 0 {
        let sub = s.subrange(0, s.len() - 1);
        lemma_lift_seq_model(sub);
        assert forall|i: int| 0 <= i < s.len() implies lift_seq_model(s)[i] == lift_model(
            #[trigger] s[i],
        ) by {
            if i < s.len() - 1 {
                assert(sub[i] == s[i]);
                assert(lift_seq_model(s)[i] == lift_seq_model(sub)[i]);
            }
        }
    }
}

/// Lifting a sequence of keyed entries lifts it entrywise, keeping keys.
pub proof fn lemma_lift_entries_model(s: Seq<(Seq<char>, ValModel)>)
    ensures
        lift_entries_model(s).len() == s.len(),
        forall|i: int| 0 <= i < s.len() ==> lift_entries_model(s)[i] == (
            (#[trigger] s[i]).0,
            lift_model(s[i].1),
        ),
    decreases s,
{
    if s.len() > 0 {
        let sub = s.subrange(0, s.len() - 1);
        lemma_lift_entries_model(sub);
        assert forall|i: int| 0 <= i < s.len() implies lift_entries_model(s)[i] == (
            (#[trigger] s[i]).0,
            lift_model(s[i].1),
        ) by {
            if i < s.len() - 1 {
                assert(sub[i] == s[i]);
                assert(lift_entries_model(s)[i] == lift_entries_model(sub)[i]);
            }
        }
    }
}

/// Round trip: on a host value of the six supported shapes whose
/// floating-point leaves are finite, lifting the lowered value gives back
/// the original, integers and floating-point numbers kept distinct.
///
/// A non-finite floating-point leaf is the one excluded input: it lowers to
/// the sentinel integer zero and lifts back as that integer.
pub proof fn lemma_lift_lower_round_trip(h: HostModel)
    requires
        host_supported(h),
        host_floats_finite(h),
    ensures
        lift_model(lower_model(h)) == h,
    decreases h,
{
    match h {
        HostModel::List(items) => {
            lemma_lower_seq_model(items);
            lemma_lift_seq_model(lower_seq_model(items));
            assert forall|i: int| 0 <= i < items.len() implies lift_model(
                lower_model(#[trigger] items[i]),
            ) == items[i] by {
                lemma_lift_lower_round_trip(items[i]);
            }
            assert(lift_seq_model(lower_seq_model(items)) =~= items);
        },
        HostModel::Dict(entries) => {
            lemma_lower_entries_model(entries);
            lemma_lift_entries_model(lower_entries_model(entries));
            assert forall|i: int| 0 <= i < entries.len() implies lift_model(
                lower_model((#[trigger] entries[i]).1),
            ) == entries[i].1 by {
                lemma_lift_lower_round_trip(entries[i].1);
            }
            assert(lift_entries_model(lower_entries_model(entries)) =~= entries);
        },
        _ => {},
    }
}

/// Lower a dynamic host value to canonical form.
///
/// Succeeds exactly on values of the six supported shapes, and then returns
/// the canonical form of the tree; on any value containing an unsupported
/// shape it fails with `UnsupportedType`.
#[verifier::loop_isolation(false)]
pub fn lower(h: &HostValue) -> (r: Result<Value, BridgeError>)
    ensures
        host_supported(h@) ==> (r matches Ok(v) && v@ == lower_model(h@)),
        !host_supported(h@) ==> (r matches Err(e) && e@ == ErrModel::UnsupportedType),
    decreases h,
{
    match h {
        HostValue::Null => Ok(Value::Null),
        HostValue::Bool(b) => Ok(Value::Bool(*b)),
        HostValue::Int(i) => Ok(Value::Int(*i)),
        HostValue::Float(bits) => if is_finite_bits(*bits) {
            Ok(Value::Float(*bits))
        } else {
            Ok(Value::Int(0))
        },
        HostValue::Str(s) => Ok(Value::Str(s.clone())),
        HostValue::List(items) => {
            proof {
                lemma_host_seq_m(items@);
                lemma_lower_seq_model(host_seq_m(items@));
            }
            let mut out: Vec<Value> = Vec::new();
            let mut idx: usize = 0;
            while idx < items.len()
                invariant
                    idx <= items.len(),
                    out@.len() == idx,
                    forall|j: int| 0 <= j < idx ==> host_supported(
                        #[trigger] host_seq_m(items@)[j],
                    ),
                    forall|j: int| 0 <= j < idx ==> (#[trigger] out@[j])@ == lower_model(
                        host_seq_m(items@)[j],
                    ),
                decreases items.len() - idx,
            {
                match lower(&items[idx]) {
                    Ok(v) => {
                        out.push(v);
                    },
                    Err(e) => {
                        proof {
                            assert(!host_supported(host_seq_m(items@)[idx as int]));
                            assert(!host_supported(h@));
                        }
                        return Err(e);
                    },
                }
                idx += 1;
            }
            proof {
                lemma_val_seq_m(out@);
                assert forall|j: int| 0 <= j < out@.len() implies val_seq_m(out@)[j]
                    == lower_seq_model(host_seq_m(items@))[j] by {
                    assert(val_seq_m(out@)[j] == out@[j].m());
                    assert(out@[j]@ == lower_model(host_seq_m(items@)[j]));
                }
                assert(val_seq_m(out@) =~= lower_seq_model(host_seq_m(items@)));
            }
            Ok(Value::Arr(out))
        },
        HostValue::Dict(entries) => {
            proof {
                lemma_host_entries_m(entries@);
                lemma_lower_entries_model(host_entries_m(entries@));
            }
            let mut out: Vec<(String, Value)> = Vec::new();
            let mut idx: usize = 0;
            while idx < entries.len()
                invariant
                    idx <= entries.len(),
                    out@.len() == idx,
                    forall|j: int| 0 <= j < idx ==> host_supported(
                        (#[trigger] host_entries_m(entries@)[j]).1,
                    ),
                    forall|j: int| 0 <= j < idx ==> ((#[trigger] out@[j]).0@, out@[j].1@)
                        == (
                        host_entries_m(entries@)[j].0,
                        lower_model(host_entries_m(entries@)[j].1),
                    ),
                decreases entries.len() - idx,
            {
                match lower(&entries[idx].1) {
                    Ok(v) => {
                        let key = entries[idx].0.clone();
                        out.push((key, v));
                    },
                    Err(e) => {
                        proof {
                            assert(host_entries_m(entries@)[idx as int] == (
                                entries@[idx as int].0@,
                                entries@[idx as int].1.m(),
                            ));
                            assert(!host_supported(host_entries_m(entries@)[idx as int].1));
                            assert(!host_supported(h@));
                        }
                        return Err(e);
                    },
                }
                idx += 1;
            }
            proof {
                lemma_val_entries_m(out@);
                assert forall|j: int| 0 <= j < out@.len() implies val_entries_m(out@)[j]
                    == lower_entries_model(host_entries_m(entries@))[j] by {
                    assert(val_entries_m(out@)[j] == (out@[j].0@, out@[j].1.m()));
                    assert((out@[j].0@, out@[j].1@) == (
                        host_entries_m(entries@)[j].0,
                        lower_model(host_entries_m(entries@)[j].1),
                    ));
                }
                assert(val_entries_m(out@) =~= lower_entries_model(host_entries_m(entries@)));
            }
            Ok(Value::Obj(out))
        },
        HostValue::Opaque => Err(BridgeError::UnsupportedType),
    }
}

/// Lift a canonical value back to a dynamic host value. Total: every
/// canonical case has a defined host representation.
#[verifier::loop_isolation(false)]
pub fn lift(v: &Value) -> (r: HostValue)
    ensures
        r@ == lift_model(v@),
    decreases v,
{
    match v {
        Value::Null => HostValue::Null,
        Value::Bool(b) => HostValue::Bool(*b),
        Value::Int(i) => HostValue::Int(*i),
        Value::Float(bits) => HostValue::Float(*bits),
        Value::Str(s) => HostValue::Str(s.clone()),
        Value::Arr(items) => {
            proof {
                lemma_val_seq_m(items@);
                lemma_lift_seq_model(val_seq_m(items@));
            }
            let mut out: Vec<HostValue> = Vec::new();
            let mut idx: usize = 0;
            while idx < items.len()
                invariant
                    idx <= items.len(),
                    out@.len() == idx,
                    forall|j: int| 0 <= j < idx ==> (#[trigger] out@[j])@ == lift_model(
                        val_seq_m(items@)[j],
                    ),
                decreases items.len() - idx,
            {
                let item = lift(&items[idx]);
                out.push(item);
                idx += 1;
            }
            proof {
                lemma_host_seq_m(out@);
                assert forall|j: int| 0 <= j < out@.len() implies host_seq_m(out@)[j]
                    == lift_seq_model(val_seq_m(items@))[j] by {
                    assert(host_seq_m(out@)[j] == out@[j].m());
                    assert(out@[j]@ == lift_model(val_seq_m(items@)[j]));
                }
                assert(host_seq_m(out@) =~= lift_seq_model(val_seq_m(items@)));
            }
            HostValue::List(out)
        },
        Value::Obj(entries) => {
            proof {
                lemma_val_entries_m(entries@);
                lemma_lift_entries_model(val_entries_m(entries@));
            }
            let mut out: Vec<(String, HostValue)> = Vec::new();
            let mut idx: usize = 0;
            while idx < entries.len()
                invariant
                    idx <= entries.len(),
                    out@.len() == idx,
                    forall|j: int| 0 <= j < idx ==> ((#[trigger] out@[j]).0@, out@[j].1@)
                        == (
                        val_entries_m(entries@)[j].0,
                        lift_model(val_entries_m(entries@)[j].1),
                    ),
                decreases entries.len() - idx,
            {
                let item = lift(&entries[idx].1);
                let key = entries[idx].0.clone();
                out.push((key, item));
                idx += 1;
            }
            proof {
                lemma_host_entries_m(out@);
                assert forall|j: int| 0 <= j < out@.len() implies host_entries_m(out@)[j]
                    == lift_entries_model(val_entries_m(entries@))[j] by {
                    assert(host_entries_m(out@)[j] == (out@[j].0@, out@[j].1.m()));
                    assert((out@[j].0@, out@[j].1@) == (
                        val_entries_m(entries@)[j].0,
                        lift_model(val_entries_m(entries@)[j].1),
                    ));
                }
                assert(host_entries_m(out@) =~= lift_entries_model(val_entries_m(entries@)));
            }
            HostValue::Dict(out)
        },
    }
}

} // verus!
