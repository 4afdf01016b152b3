//! The two tree value models of the bridge: dynamic host values, and the
//! canonical value form that the diff core understands.

use vstd::prelude::*;

verus! {

/// A dynamic value of the host runtime, discriminated by runtime shape.
///
/// A floating-point payload is carried as the raw bit pattern of an IEEE-754
/// double, so that the verified logic can treat it as plain data. `Opaque`
/// stands for a host value of any unsupported runtime type.
#[derive(Debug, PartialEq, Eq)]
pub enum HostValue {
    Null,
    Bool(bool),
    Int(i64),
    Float(u64),
    Str(String),
    List(Vec<HostValue>),
    Dict(Vec<(String, HostValue)>),
    Opaque,
}

/// Mathematical model of a `HostValue`.
#[verifier::ext_equal]
pub enum HostModel {
    Null,
    Bool(bool),
    Int(i64),
    Float(u64),
    Str(Seq<char>),
    List(Seq<HostModel>),
    Dict(Seq<(Seq<char>, HostModel)>),
    Opaque,
}

/// A canonical tree value: the form in which the diff core receives and
/// returns structured data. Floating-point numbers are carried as raw bit
/// patterns, as in `HostValue`.
#[derive(Debug, PartialEq, Eq)]
pub enum Value {
    Null,
    Bool(bool),
    Int(i64),
    Float(u64),
    Str(String),
    Arr(Vec<Value>),
    Obj(Vec<(String, Value)>),
}

/// Mathematical model of a canonical `Value`.
#[verifier::ext_equal]
pub enum ValModel {
    Null,
    Bool(bool),
    Int(i64),
    Float(u64),
    Str(Seq<char>),
    Arr(Seq<ValModel>),
    Obj(Seq<(Seq<char>, ValModel)>),
}

impl HostValue {
    pub open spec fn m(&self) -> HostModel
        decreases self,
    {
        match self {
            HostValue::Null => HostModel::Null,
            HostValue::Bool(b) => HostModel::Bool(*b),
            HostValue::Int(i) => HostModel::Int(*i),
            HostValue::Float(bits) => HostModel::Float(*bits),
            HostValue::Str(s) => HostModel::Str(s@),
            HostValue::List(items) => HostModel::List(host_seq_m(items@)),
            HostValue::Dict(entries) => HostModel::Dict(host_entries_m(entries@)),
            HostValue::Opaque => HostModel::Opaque,
        }
    }
}

pub open spec fn host_seq_m(s: Seq<HostValue>) -> Seq<HostModel>
    decreases s,
{
    if s.len() == 0 {
        Seq::empty()
    } else {
        host_seq_m(s.subrange(0, s.len() - 1)).push(s[s.len() - 1].m())
    }
}

pub open spec fn host_entries_m(s: Seq<(String, HostValue)>) -> Seq<(Seq<char>, HostModel)>
    decreases s,
{
    if s.len() == 0 {
        Seq::empty()
    } else {
        host_entries_m(s.subrange(0, s.len() - 1)).push(
            (s[s.len() - 1].0@, s[s.len() - 1].1.m()),
        )
    }
}

impl View for HostValue {
    type V = HostModel;

    open spec fn view(&self) -> HostModel {
        self.m()
    }
}

impl Value {
    pub open spec fn m(&self) -> ValModel
        decreases self,
    {
        match self {
            Value::Null => ValModel::Null,
            Value::Bool(b) => ValModel::Bool(*b),
            Value::Int(i) => ValModel::Int(*i),
            Value::Float(bits) => ValModel::Float(*bits),
            Value::Str(s) => ValModel::Str(s@),
            Value::Arr(items) => ValModel::Arr(val_seq_m(items@)),
            Value::Obj(entries) => ValModel::Obj(val_entries_m(entries@)),
        }
    }
}

pub open spec fn val_seq_m(s: Seq<Value>) -> Seq<ValModel>
    decreases s,
{
    if s.len() == 0 {
        Seq::empty()
    } else {
        val_seq_m(s.subrange(0, s.len() - 1)).push(s[s.len() - 1].m())
    }
}

pub open spec fn val_entries_m(s: Seq<(String, Value)>) -> Seq<(Seq<char>, ValModel)>
    decreases s,
{
    if s.len() == 0 {
        Seq::empty()
    } else {
        val_entries_m(s.subrange(0, s.len() - 1)).push(
            (s[s.len() - 1].0@, s[s.len() - 1].1.m()),
        )
    }
}

impl View for Value {
    type V = ValModel;

    open spec fn view(&self) -> ValModel {
        self.m()
    }
}

/// The model of a sequence of host values is its elementwise model.
pub proof fn lemma_host_seq_m(s: Seq<HostValue>)
    ensures
        host_seq_m(s).len() == s.len(),
        forall|i: int| 0 <= i < s.len() ==> host_seq_m(s)[i] == #[trigger] s[i].m(),
    decreases s,
{
    if s.len() > 0 {
        let sub = s.subrange(0, s.len() - 1);
        lemma_host_seq_m(sub);
        assert forall|i: int| 0 <= i < s.len() implies host_seq_m(s)[i] == #[trigger] s[i].m() by {
            if i < s.len() - 1 {
                assert(sub[i] == s[i]);
                assert(host_seq_m(s)[i] == host_seq_m(sub)[i]);
            }
        }
    }
}

/// The model of a sequence of keyed host entries is its elementwise model.
pub proof fn lemma_host_entries_m(s: Seq<(String, HostValue)>)
    ensures
        host_entries_m(s).len() == s.len(),
        forall|i: int| 0 <= i < s.len() ==> host_entries_m(s)[i] == (
            #[trigger] s[i].0@,
            s[i].1.m(),
        ),
    decreases s,
{
    if s.len() > 0 {
        let sub = s.subrange(0, s.len() - 1);
        lemma_host_entries_m(sub);
        assert forall|i: int| 0 <= i < s.len() implies host_entries_m(s)[i] == (
            #[trigger] s[i].0@,
            s[i].1.m(),
        ) by {
            if i < s.len() - 1 {
                assert(sub[i] == s[i]);
                assert(host_entries_m(s)[i] == host_entries_m(sub)[i]);
            }
        }
    }
}

/// The model of a sequence of canonical values is its elementwise model.
pub proof fn lemma_val_seq_m(s: Seq<Value>)
    ensures
        val_seq_m(s).len() == s.len(),
        forall|i: int| 0 <= i < s.len() ==> val_seq_m(s)[i] == #[trigger] s[i].m(),
    decreases s,
{
    if s.len() > 0 {
        let sub = s.subrange(0, s.len() - 1);
        lemma_val_seq_m(sub);
        assert forall|i: int| 0 <= i < s.len() implies val_seq_m(s)[i] == #[trigger] s[i].m() by {
            if i < s.len() - 1 {
                assert(sub[i] == s[i]);
                assert(val_seq_m(s)[i] == val_seq_m(sub)[i]);
            }
        }
    }
}

/// The model of a sequence of keyed canonical entries is its elementwise model.
pub proof fn lemma_val_entries_m(s: Seq<(String, Value)>)
    ensures
        val_entries_m(s).len() == s.len(),
        forall|i: int| 0 <= i < s.len() ==> val_entries_m(s)[i] == (
            #[trigger] s[i].0@,
            s[i].1.m(),
        ),
    decreases s,
{
    if s.len() > 0 {
        let sub = s.subrange(0, s.len() - 1);
        lemma_val_entries_m(sub);
        assert forall|i: int| 0 <= i < s.len() implies val_entries_m(s)[i] == (
            #[trigger] s[i].0@,
            s[i].1.m(),
        ) by {
            if i < s.len() - 1 {
                assert(sub[i] == s[i]);
                assert(val_entries_m(s)[i] == val_entries_m(sub)[i]);
            }
        }
    }
}

/// As `lemma_host_entries_m`, triggered on the model sequence's indexing.
pub proof fn lemma_host_entries_m_index(s: Seq<(String, HostValue)>)
    ensures
        host_entries_m(s).len() == s.len(),
        forall|i: int| 0 <= i < s.len() ==> #[trigger] host_entries_m(s)[i] == (
            s[i].0@,
            s[i].1.m(),
        ),
{
    lemma_host_entries_m(s);
    assert forall|i: int| 0 <= i < s.len() implies #[trigger] host_entries_m(s)[i] == (
        s[i].0@,
        s[i].1.m(),
    ) by {
        assert(host_entries_m(s)[i] == (s[i].0@, s[i].1.m()));
    }
}

/// As `lemma_val_seq_m`, triggered on the model sequence's indexing.
pub proof fn lemma_val_seq_m_index(s: Seq<Value>)
    ensures
        val_seq_m(s).len() == s.len(),
        forall|i: int| 0 <= i < s.len() ==> #[trigger] val_seq_m(s)[i] == s[i].m(),
{
    lemma_val_seq_m(s);
    assert forall|i: int| 0 <= i < s.len() implies #[trigger] val_seq_m(s)[i] == s[i].m() by {
        assert(val_seq_m(s)[i] == s[i].m());
    }
}

/// As `lemma_val_entries_m`, triggered on the model sequence's indexing.
pub proof fn lemma_val_entries_m_index(s: Seq<(String, Value)>)
    ensures
        val_entries_m(s).len() == s.len(),
        forall|i: int| 0 <= i < s.len() ==> #[trigger] val_entries_m(s)[i] == (
            s[i].0@,
            s[i].1.m(),
        ),
{
    lemma_val_entries_m(s);
    assert forall|i: int| 0 <= i < s.len() implies #[trigger] val_entries_m(s)[i] == (
        s[i].0@,
        s[i].1.m(),
    ) by {
        assert(val_entries_m(s)[i] == (s[i].0@, s[i].1.m()));
    }
}

/// A deep copy of a canonical value: the copy has the same model.
#[verifier::loop_isolation(false)]
pub fn dup_value(v: &Value) -> (r: Value)
    ensures
        r@ == v@,
    decreases v,
{
    broadcast use vstd::std_specs::vec::group_vec_axioms;

    match v {
        Value::Null => Value::Null,
        Value::Bool(b) => Value::Bool(*b),
        Value::Int(i) => Value::Int(*i),
        Value::Float(bits) => Value::Float(*bits),
        Value::Str(s) => Value::Str(s.clone()),
        Value::Arr(items) => {
            proof {
                lemma_val_seq_m(items@);
            }
            let mut out: Vec<Value> = Vec::new();
            let mut idx: usize = 0;
            while idx < items.len()
                invariant
                    idx <= items.len(),
                    out@.len() == idx,
                    forall|j: int| 0 <= j < idx ==> (#[trigger] out@[j]).m() == items@[j].m(),
                decreases items.len() - idx,
            {
                let item = dup_value(&items[idx]);
                out.push(item);
                idx += 1;
            }
            proof {
                lemma_val_seq_m(out@);
                assert forall|j: int| 0 <= j < out@.len() implies val_seq_m(out@)[j]
                    == val_seq_m(items@)[j] by {
                    assert(val_seq_m(out@)[j] == out@[j].m());
                    assert(val_seq_m(items@)[j] == items@[j].m());
                }
                assert(val_seq_m(out@) =~= val_seq_m(items@));
            }
            Value::Arr(out)
        },
        Value::Obj(entries) => {
            proof {
                lemma_val_entries_m(entries@);
            }
            let mut out: Vec<(String, Value)> = Vec::new();
            let mut idx: usize = 0;
            while idx < entries.len()
                invariant
                    idx <= entries.len(),
                    out@.len() == idx,
                    forall|j: int| 0 <= j < idx ==> ((#[trigger] out@[j]).0@, out@[j].1.m())
                        == (entries@[j].0@, entries@[j].1.m()),
                decreases entries.len() - idx,
            {
                let item = dup_value(&entries[idx].1);
                let key = entries[idx].0.clone();
                out.push((key, item));
                idx += 1;
            }
            proof {
                lemma_val_entries_m(out@);
                assert forall|j: int| 0 <= j < out@.len() implies val_entries_m(out@)[j]
                    == val_entries_m(entries@)[j] by {
                    assert(val_entries_m(out@)[j] == (out@[j].0@, out@[j].1.m()));
                    assert(val_entries_m(entries@)[j] == (entries@[j].0@, entries@[j].1.m()));
                }
                assert(val_entries_m(out@) =~= val_entries_m(entries@));
            }
            Value::Obj(out)
        },
    }
}

/// An IEEE-754 double bit pattern is finite when its exponent field is not
/// all ones (all ones encodes an infinity or a NaN).
pub open spec fn float_bits_finite(bits: u64) -> bool {
    (bits >> 52) & 0x7ff != 0x7ff
}

/// Whether a double bit pattern encodes a finite number, decided on the
/// exponent field alone.
pub fn is_finite_bits(bits: u64) -> (r: bool)
    ensures
        r == float_bits_finite(bits),
{
    (bits >> 52) & 0x7ff != 0x7ff
}

} // verus!
