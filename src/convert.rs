//! Conversion between the value shapes of the interface generations.
//!
//! Every member has the same type in each generation, so a value converts to
//! the member of the same name and back without loss. The one difference is
//! that a legacy datapoint states why it has no value, where the other
//! generations leave the value out: a missing value becomes "not available",
//! and a legacy failure becomes a missing value.

use vstd::prelude::*;
use crate::sdv::{Failure, SdvDatapoint, SdvValue};
use crate::v1::{DataEntry, Datapoint, Timestamp, Value};
use crate::v2::TypedValue;

verus! {

/// The previous-generation value that a legacy value holds; none for a
/// failure.
pub open spec fn value_to_v1(v: SdvValue) -> Option<Value> {
    match v {
        SdvValue::FailureValue(_) => None,
        SdvValue::StringValue(x) => Some(Value::String(x)),
        SdvValue::BoolValue(x) => Some(Value::Bool(x)),
        SdvValue::Int32Value(x) => Some(Value::Int32(x)),
        SdvValue::Int64Value(x) => Some(Value::Int64(x)),
        SdvValue::Uint32Value(x) => Some(Value::Uint32(x)),
        SdvValue::Uint64Value(x) => Some(Value::Uint64(x)),
        SdvValue::FloatValue(x) => Some(Value::Float(x)),
        SdvValue::DoubleValue(x) => Some(Value::Double(x)),
        SdvValue::StringArray(x) => Some(Value::StringArray(x)),
        SdvValue::BoolArray(x) => Some(Value::BoolArray(x)),
        SdvValue::Int32Array(x) => Some(Value::Int32Array(x)),
        SdvValue::Int64Array(x) => Some(Value::Int64Array(x)),
        SdvValue::Uint32Array(x) => Some(Value::Uint32Array(x)),
        SdvValue::Uint64Array(x) => Some(Value::Uint64Array(x)),
        SdvValue::FloatArray(x) => Some(Value::FloatArray(x)),
        SdvValue::DoubleArray(x) => Some(Value::DoubleArray(x)),
    }
}

/// The legacy value of a previous-generation value.
pub open spec fn value_to_sdv(v: Value) -> SdvValue {
    match v {
        Value::String(x) => SdvValue::StringValue(x),
        Value::Bool(x) => SdvValue::BoolValue(x),
        Value::Int32(x) => SdvValue::Int32Value(x),
        Value::Int64(x) => SdvValue::Int64Value(x),
        Value::Uint32(x) => SdvValue::Uint32Value(x),
        Value::Uint64(x) => SdvValue::Uint64Value(x),
        Value::Float(x) => SdvValue::FloatValue(x),
        Value::Double(x) => SdvValue::DoubleValue(x),
        Value::StringArray(x) => SdvValue::StringArray(x),
        Value::BoolArray(x) => SdvValue::BoolArray(x),
        Value::Int32Array(x) => SdvValue::Int32Array(x),
        Value::Int64Array(x) => SdvValue::Int64Array(x),
        Value::Uint32Array(x) => SdvValue::Uint32Array(x),
        Value::Uint64Array(x) => SdvValue::Uint64Array(x),
        Value::FloatArray(x) => SdvValue::FloatArray(x),
        Value::DoubleArray(x) => SdvValue::DoubleArray(x),
    }
}

/// The legacy value of a current-generation value.
pub open spec fn typed_to_sdv(v: TypedValue) -> SdvValue {
    match v {
        TypedValue::String(x) => SdvValue::StringValue(x),
        TypedValue::Bool(x) => SdvValue::BoolValue(x),
        TypedValue::Int32(x) => SdvValue::Int32Value(x),
        TypedValue::Int64(x) => SdvValue::Int64Value(x),
        TypedValue::Uint32(x) => SdvValue::Uint32Value(x),
        TypedValue::Uint64(x) => SdvValue::Uint64Value(x),
        TypedValue::Float(x) => SdvValue::FloatValue(x),
        TypedValue::Double(x) => SdvValue::DoubleValue(x),
        TypedValue::StringArray(x) => SdvValue::StringArray(x),
        TypedValue::BoolArray(x) => SdvValue::BoolArray(x),
        TypedValue::Int32Array(x) => SdvValue::Int32Array(x),
        TypedValue::Int64Array(x) => SdvValue::Int64Array(x),
        TypedValue::Uint32Array(x) => SdvValue::Uint32Array(x),
        TypedValue::Uint64Array(x) => SdvValue::Uint64Array(x),
        TypedValue::FloatArray(x) => SdvValue::FloatArray(x),
        TypedValue::DoubleArray(x) => SdvValue::DoubleArray(x),
    }
}

/// The current-generation value that a legacy value holds; none for a
/// failure.
pub open spec fn sdv_to_typed(v: SdvValue) -> Option<TypedValue> {
    match v {
        SdvValue::FailureValue(_) => None,
        SdvValue::StringValue(x) => Some(TypedValue::String(x)),
        SdvValue::BoolValue(x) => Some(TypedValue::Bool(x)),
        SdvValue::Int32Value(x) => Some(TypedValue::Int32(x)),
        SdvValue::Int64Value(x) => Some(TypedValue::Int64(x)),
        SdvValue::Uint32Value(x) => Some(TypedValue::Uint32(x)),
        SdvValue::Uint64Value(x) => Some(TypedValue::Uint64(x)),
        SdvValue::FloatValue(x) => Some(TypedValue::Float(x)),
        SdvValue::DoubleValue(x) => Some(TypedValue::Double(x)),
        SdvValue::StringArray(x) => Some(TypedValue::StringArray(x)),
        SdvValue::BoolArray(x) => Some(TypedValue::BoolArray(x)),
        SdvValue::Int32Array(x) => Some(TypedValue::Int32Array(x)),
        SdvValue::Int64Array(x) => Some(TypedValue::Int64Array(x)),
        SdvValue::Uint32Array(x) => Some(TypedValue::Uint32Array(x)),
        SdvValue::Uint64Array(x) => Some(TypedValue::Uint64Array(x)),
        SdvValue::FloatArray(x) => Some(TypedValue::FloatArray(x)),
        SdvValue::DoubleArray(x) => Some(TypedValue::DoubleArray(x)),
    }
}

pub open spec fn datapoint_to_v1(dp: SdvDatapoint) -> Datapoint {
    Datapoint {
        timestamp: dp.timestamp,
        value: match dp.value {
            Some(v) => value_to_v1(v),
            None => None,
        },
    }
}

/// A legacy datapoint without a value: the value is not available.
pub open spec fn not_available(timestamp: Option<Timestamp>) -> SdvDatapoint {
    SdvDatapoint { timestamp, value: Some(SdvValue::FailureValue(Failure::NotAvailable)) }
}

pub open spec fn datapoint_to_sdv(dp: Datapoint) -> SdvDatapoint {
    match dp.value {
        Some(v) => SdvDatapoint { timestamp: dp.timestamp, value: Some(value_to_sdv(v)) },
        None => not_available(dp.timestamp),
    }
}

/// The legacy datapoint of an entry's current value.
pub open spec fn entry_to_sdv(e: DataEntry) -> (String, SdvDatapoint) {
    match e.value {
        Some(dp) => (e.path, datapoint_to_sdv(dp)),
        None => (e.path, not_available(None)),
    }
}

pub fn convert_value_to_v1(v: SdvValue) -> (r: Option<Value>)
    ensures
        r == value_to_v1(v),
{
    match v {
        SdvValue::FailureValue(_) => None,
            SdvValue::StringValue(x) => Some(Value::String(x)),
            SdvValue::BoolValue(x) => Some(Value::Bool(x)),
            SdvValue::Int32Value(x) => Some(Value::Int32(x)),
            SdvValue::Int64Value(x) => Some(Value::Int64(x)),
            SdvValue::Uint32Value(x) => Some(Value::Uint32(x)),
            SdvValue::Uint64Value(x) => Some(Value::Uint64(x)),
            SdvValue::FloatValue(x) => Some(Value::Float(x)),
            SdvValue::DoubleValue(x) => Some(Value::Double(x)),
            SdvValue::StringArray(x) => Some(Value::StringArray(x)),
            SdvValue::BoolArray(x) => Some(Value::BoolArray(x)),
            SdvValue::Int32Array(x) => Some(Value::Int32Array(x)),
            SdvValue::Int64Array(x) => Some(Value::Int64Array(x)),
            SdvValue::Uint32Array(x) => Some(Value::Uint32Array(x)),
            SdvValue::Uint64Array(x) => Some(Value::Uint64Array(x)),
            SdvValue::FloatArray(x) => Some(Value::FloatArray(x)),
            SdvValue::DoubleArray(x) => Some(Value::DoubleArray(x)),
    }
}

pub fn convert_value_to_sdv(v: Value) -> (r: SdvValue)
    ensures
        r == value_to_sdv(v),
{
    match v {
            Value::String(x) => SdvValue::StringValue(x),
            Value::Bool(x) => SdvValue::BoolValue(x),
            Value::Int32(x) => SdvValue::Int32Value(x),
            Value::Int64(x) => SdvValue::Int64Value(x),
            Value::Uint32(x) => SdvValue::Uint32Value(x),
            Value::Uint64(x) => SdvValue::Uint64Value(x),
            Value::Float(x) => SdvValue::FloatValue(x),
            Value::Double(x) => SdvValue::DoubleValue(x),
            Value::StringArray(x) => SdvValue::StringArray(x),
            Value::BoolArray(x) => SdvValue::BoolArray(x),
            Value::Int32Array(x) => SdvValue::Int32Array(x),
            Value::Int64Array(x) => SdvValue::Int64Array(x),
            Value::Uint32Array(x) => SdvValue::Uint32Array(x),
            Value::Uint64Array(x) => SdvValue::Uint64Array(x),
            Value::FloatArray(x) => SdvValue::FloatArray(x),
            Value::DoubleArray(x) => SdvValue::DoubleArray(x),
    }
}

pub fn convert_typed_to_sdv(v: TypedValue) -> (r: SdvValue)
    ensures
        r == typed_to_sdv(v),
{
    match v {
            TypedValue::String(x) => SdvValue::StringValue(x),
            TypedValue::Bool(x) => SdvValue::BoolValue(x),
            TypedValue::Int32(x) => SdvValue::Int32Value(x),
            TypedValue::Int64(x) => SdvValue::Int64Value(x),
            TypedValue::Uint32(x) => SdvValue::Uint32Value(x),
            TypedValue::Uint64(x) => SdvValue::Uint64Value(x),
            TypedValue::Float(x) => SdvValue::FloatValue(x),
            TypedValue::Double(x) => SdvValue::DoubleValue(x),
            TypedValue::StringArray(x) => SdvValue::StringArray(x),
            TypedValue::BoolArray(x) => SdvValue::BoolArray(x),
            TypedValue::Int32Array(x) => SdvValue::Int32Array(x),
            TypedValue::Int64Array(x) => SdvValue::Int64Array(x),
            TypedValue::Uint32Array(x) => SdvValue::Uint32Array(x),
            TypedValue::Uint64Array(x) => SdvValue::Uint64Array(x),
            TypedValue::FloatArray(x) => SdvValue::FloatArray(x),
            TypedValue::DoubleArray(x) => SdvValue::DoubleArray(x),
    }
}

pub fn convert_sdv_to_typed(v: SdvValue) -> (r: Option<TypedValue>)
    ensures
        r == sdv_to_typed(v),
{
    match v {
        SdvValue::FailureValue(_) => None,
            SdvValue::StringValue(x) => Some(TypedValue::String(x)),
            SdvValue::BoolValue(x) => Some(TypedValue::Bool(x)),
            SdvValue::Int32Value(x) => Some(TypedValue::Int32(x)),
            SdvValue::Int64Value(x) => Some(TypedValue::Int64(x)),
            SdvValue::Uint32Value(x) => Some(TypedValue::Uint32(x)),
            SdvValue::Uint64Value(x) => Some(TypedValue::Uint64(x)),
            SdvValue::FloatValue(x) => Some(TypedValue::Float(x)),
            SdvValue::DoubleValue(x) => Some(TypedValue::Double(x)),
            SdvValue::StringArray(x) => Some(TypedValue::StringArray(x)),
            SdvValue::BoolArray(x) => Some(TypedValue::BoolArray(x)),
            SdvValue::Int32Array(x) => Some(TypedValue::Int32Array(x)),
            SdvValue::Int64Array(x) => Some(TypedValue::Int64Array(x)),
            SdvValue::Uint32Array(x) => Some(TypedValue::Uint32Array(x)),
            SdvValue::Uint64Array(x) => Some(TypedValue::Uint64Array(x)),
            SdvValue::FloatArray(x) => Some(TypedValue::FloatArray(x)),
            SdvValue::DoubleArray(x) => Some(TypedValue::DoubleArray(x)),
    }
}

pub fn convert_datapoint_to_v1(dp: SdvDatapoint) -> (r: Datapoint)
    ensures
        r == datapoint_to_v1(dp),
{
    let value = match dp.value {
        Some(v) => convert_value_to_v1(v),
        None => None,
    };
    Datapoint { timestamp: dp.timestamp, value }
}

pub fn convert_datapoint_to_sdv(dp: Datapoint) -> (r: SdvDatapoint)
    ensures
        r == datapoint_to_sdv(dp),
{
    match dp.value {
        Some(v) => SdvDatapoint { timestamp: dp.timestamp, value: Some(convert_value_to_sdv(v)) },
        None => SdvDatapoint {
            timestamp: dp.timestamp,
            value: Some(SdvValue::FailureValue(Failure::NotAvailable)),
        },
    }
}

/// Converts legacy updates, keyed by path, into previous-generation ones, in
/// the same order.
pub fn updates_to_v1(datapoints: Vec<(String, SdvDatapoint)>) -> (r: Vec<(String, Datapoint)>)
    ensures
        r@.len() == datapoints@.len(),
        forall|i: int|
            0 <= i < r@.len() ==> #[trigger] r@[i] == (datapoints@[i].0, datapoint_to_v1(datapoints@[i].1)),
{
    let ghost all = datapoints@;
    let total: usize = datapoints.len();
    let mut rest = datapoints;
    let mut out: Vec<(String, Datapoint)> = Vec::new();
    let mut k: usize = 0;
    while rest.len() > 0
        invariant
            k + rest@.len() == all.len(),
            all.len() == total,
            rest@ == all.skip(k as int),
            out@.len() == k,
            forall|i: int| 0 <= i < k ==> #[trigger] out@[i] == (all[i].0, datapoint_to_v1(all[i].1)),
        decreases rest.len(),
    {
        let (path, datapoint) = rest.remove(0);
        assert(all[k as int] == (path, datapoint));
        out.push((path, convert_datapoint_to_v1(datapoint)));
        k += 1;
        assert(rest@ =~= all.skip(k as int));
    }
    out
}

/// Reshapes entries into legacy datapoints keyed by path, in the same
/// order. An entry without a current value becomes "not available".
pub fn entries_to_sdv(entries: Vec<DataEntry>) -> (r: Vec<(String, SdvDatapoint)>)
    ensures
        r@.len() == entries@.len(),
        forall|i: int| 0 <= i < r@.len() ==> #[trigger] r@[i] == entry_to_sdv(entries@[i]),
{
    let ghost all = entries@;
    let total: usize = entries.len();
    let mut rest = entries;
    let mut out: Vec<(String, SdvDatapoint)> = Vec::new();
    let mut k: usize = 0;
    while rest.len() > 0
        invariant
            k + rest@.len() == all.len(),
            all.len() == total,
            rest@ == all.skip(k as int),
            out@.len() == k,
            forall|i: int| 0 <= i < k ==> #[trigger] out@[i] == entry_to_sdv(all[i]),
        decreases rest.len(),
    {
        let entry = rest.remove(0);
        assert(all[k as int] == entry);
        let converted = match entry.value {
            Some(dp) => convert_datapoint_to_sdv(dp),
            None => SdvDatapoint { timestamp: None, value: Some(SdvValue::FailureValue(Failure::NotAvailable)) },
        };
        out.push((entry.path, converted));
        k += 1;
        assert(rest@ =~= all.skip(k as int));
    }
    out
}

/// A value converted to the legacy shape and back is the same value, and so
/// is a datapoint: nothing is lost on the way.
pub proof fn conversion_is_lossless(v: Value, dp: Datapoint, t: TypedValue)
    ensures
        value_to_v1(value_to_sdv(v)) == Some(v),
        datapoint_to_v1(datapoint_to_sdv(dp)) == dp,
        sdv_to_typed(typed_to_sdv(t)) == Some(t),
{
}

} // verus!
