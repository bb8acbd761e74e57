//! The data model of the previous stable interface generation: entries,
//! datapoints and their values, and the reading of a value from text
//! against a declared data type.

use vstd::prelude::*;
use crate::text::{
    canonical_int_text, i64_text, int_text, lemma_int_text_round_trip, parse_decimal, parse_int,
    same_text, u64_text, IntErrorKind,
};

verus! {

/// The declared element type of a signal.
#[derive(Debug, Clone, Copy, PartialEq, Eq, Structural)]
pub enum DataType {
    Unspecified,
    String,
    Boolean,
    Int8,
    Int16,
    Int32,
    Int64,
    Uint8,
    Uint16,
    Uint32,
    Uint64,
    Float,
    Double,
    Timestamp,
    StringArray,
    BooleanArray,
    Int8Array,
    Int16Array,
    Int32Array,
    Int64Array,
    Uint8Array,
    Uint16Array,
    Uint32Array,
    Uint64Array,
    FloatArray,
    DoubleArray,
    TimestampArray,
}

/// The name of a data type as it is written in text, in lower case.
pub open spec fn name_of_type(dt: DataType) -> Seq<char> {
    match dt {
        DataType::Unspecified => "unspecified"@,
        DataType::String => "string"@,
        DataType::Boolean => "bool"@,
        DataType::Int8 => "int8"@,
        DataType::Int16 => "int16"@,
        DataType::Int32 => "int32"@,
        DataType::Int64 => "int64"@,
        DataType::Uint8 => "uint8"@,
        DataType::Uint16 => "uint16"@,
        DataType::Uint32 => "uint32"@,
        DataType::Uint64 => "uint64"@,
        DataType::Float => "float"@,
        DataType::Double => "double"@,
        DataType::Timestamp => "timestamp"@,
        DataType::StringArray => "string[]"@,
        DataType::BooleanArray => "bool[]"@,
        DataType::Int8Array => "int8[]"@,
        DataType::Int16Array => "int16[]"@,
        DataType::Int32Array => "int32[]"@,
        DataType::Int64Array => "int64[]"@,
        DataType::Uint8Array => "uint8[]"@,
        DataType::Uint16Array => "uint16[]"@,
        DataType::Uint32Array => "uint32[]"@,
        DataType::Uint64Array => "uint64[]"@,
        DataType::FloatArray => "float[]"@,
        DataType::DoubleArray => "double[]"@,
        DataType::TimestampArray => "timestamp[]"@,
    }
}

/// The data type that a lower-case name denotes, if any. `unspecified` and
/// the timestamp types have no name that is read.
pub open spec fn data_type_named(name: Seq<char>) -> Option<DataType> {
    if name == "string"@ {
        Some(DataType::String)
    } else if name == "bool"@ {
        Some(DataType::Boolean)
    } else if name == "int8"@ {
        Some(DataType::Int8)
    } else if name == "int16"@ {
        Some(DataType::Int16)
    } else if name == "int32"@ {
        Some(DataType::Int32)
    } else if name == "int64"@ {
        Some(DataType::Int64)
    } else if name == "uint8"@ {
        Some(DataType::Uint8)
    } else if name == "uint16"@ {
        Some(DataType::Uint16)
    } else if name == "uint32"@ {
        Some(DataType::Uint32)
    } else if name == "uint64"@ {
        Some(DataType::Uint64)
    } else if name == "float"@ {
        Some(DataType::Float)
    } else if name == "double"@ {
        Some(DataType::Double)
    } else if name == "string[]"@ {
        Some(DataType::StringArray)
    } else if name == "bool[]"@ {
        Some(DataType::BooleanArray)
    } else if name == "int8[]"@ {
        Some(DataType::Int8Array)
    } else if name == "int16[]"@ {
        Some(DataType::Int16Array)
    } else if name == "int32[]"@ {
        Some(DataType::Int32Array)
    } else if name == "int64[]"@ {
        Some(DataType::Int64Array)
    } else if name == "uint8[]"@ {
        Some(DataType::Uint8Array)
    } else if name == "uint16[]"@ {
        Some(DataType::Uint16Array)
    } else if name == "uint32[]"@ {
        Some(DataType::Uint32Array)
    } else if name == "uint64[]"@ {
        Some(DataType::Uint64Array)
    } else if name == "float[]"@ {
        Some(DataType::FloatArray)
    } else if name == "double[]"@ {
        Some(DataType::DoubleArray)
    } else {
        None
    }
}

/// The lower-case form of a text, as `str::to_lowercase` gives it.
pub uninterp spec fn lower_of(s: Seq<char>) -> Seq<char>;

/// Relies on `str::to_lowercase`: its result is the Unicode lower-case mapping
/// of the characters, so it depends on them alone.
#[verifier::external_body]
fn lowercase(s: &str) -> (r: String)
    ensures
        r@ == lower_of(s@),
{
    s.to_lowercase()
}

/// Text could not be read as a data type or as a value.
#[derive(Debug, Clone)]
pub struct ParsingError {
    message: String,
}

impl View for ParsingError {
    type V = Seq<char>;

    closed spec fn view(&self) -> Seq<char> {
        self.message@
    }
}

impl ParsingError {
    pub fn new(message: String) -> (r: ParsingError)
        ensures
            r@ == message@,
    {
        ParsingError { message }
    }

    /// What went wrong, in words.
    pub fn message(&self) -> (r: &str)
        ensures
            r@ == self@,
    {
        self.message.as_str()
    }
}

pub open spec fn unsupported_type_message(s: Seq<char>) -> Seq<char> {
    "unsupported data type '"@ + s + "'"@
}

impl DataType {
    /// The name of the type in lower case, as [`DataType::from_str`] reads it.
    pub fn name(&self) -> (r: &'static str)
        ensures
            r@ == name_of_type(*self),
    {
        match self {
            DataType::Unspecified => "unspecified",
            DataType::String => "string",
            DataType::Boolean => "bool",
            DataType::Int8 => "int8",
            DataType::Int16 => "int16",
            DataType::Int32 => "int32",
            DataType::Int64 => "int64",
            DataType::Uint8 => "uint8",
            DataType::Uint16 => "uint16",
            DataType::Uint32 => "uint32",
            DataType::Uint64 => "uint64",
            DataType::Float => "float",
            DataType::Double => "double",
            DataType::Timestamp => "timestamp",
            DataType::StringArray => "string[]",
            DataType::BooleanArray => "bool[]",
            DataType::Int8Array => "int8[]",
            DataType::Int16Array => "int16[]",
            DataType::Int32Array => "int32[]",
            DataType::Int64Array => "int64[]",
            DataType::Uint8Array => "uint8[]",
            DataType::Uint16Array => "uint16[]",
            DataType::Uint32Array => "uint32[]",
            DataType::Uint64Array => "uint64[]",
            DataType::FloatArray => "float[]",
            DataType::DoubleArray => "double[]",
            DataType::TimestampArray => "timestamp[]",
        }
    }

    /// The data type that a lower-case name denotes.
    pub fn from_lowercase_name(name: &str) -> (r: Option<DataType>)
        ensures
            r == data_type_named(name@),
    {
        if same_text(name, "string") {
            Some(DataType::String)
        } else if same_text(name, "bool") {
            Some(DataType::Boolean)
        } else if same_text(name, "int8") {
            Some(DataType::Int8)
        } else if same_text(name, "int16") {
            Some(DataType::Int16)
        } else if same_text(name, "int32") {
            Some(DataType::Int32)
        } else if same_text(name, "int64") {
            Some(DataType::Int64)
        } else if same_text(name, "uint8") {
            Some(DataType::Uint8)
        } else if same_text(name, "uint16") {
            Some(DataType::Uint16)
        } else if same_text(name, "uint32") {
            Some(DataType::Uint32)
        } else if same_text(name, "uint64") {
            Some(DataType::Uint64)
        } else if same_text(name, "float") {
            Some(DataType::Float)
        } else if same_text(name, "double") {
            Some(DataType::Double)
        } else if same_text(name, "string[]") {
            Some(DataType::StringArray)
        } else if same_text(name, "bool[]") {
            Some(DataType::BooleanArray)
        } else if same_text(name, "int8[]") {
            Some(DataType::Int8Array)
        } else if same_text(name, "int16[]") {
            Some(DataType::Int16Array)
        } else if same_text(name, "int32[]") {
            Some(DataType::Int32Array)
        } else if same_text(name, "int64[]") {
            Some(DataType::Int64Array)
        } else if same_text(name, "uint8[]") {
            Some(DataType::Uint8Array)
        } else if same_text(name, "uint16[]") {
            Some(DataType::Uint16Array)
        } else if same_text(name, "uint32[]") {
            Some(DataType::Uint32Array)
        } else if same_text(name, "uint64[]") {
            Some(DataType::Uint64Array)
        } else if same_text(name, "float[]") {
            Some(DataType::FloatArray)
        } else if same_text(name, "double[]") {
            Some(DataType::DoubleArray)
        } else {
            None
        }
    }

    /// Reads a data type from its name, in any letter case.
    pub fn from_str(s: &str) -> (r: Result<DataType, ParsingError>)
        ensures
            match r {
                Ok(dt) => data_type_named(lower_of(s@)) == Some(dt),
                Err(e) => data_type_named(lower_of(s@)) is None && e@ == unsupported_type_message(s@),
            },
    {
        let lowered = lowercase(s);
        match DataType::from_lowercase_name(lowered.as_str()) {
            Some(dt) => Ok(dt),
            None => {
                let message = String::from_str("unsupported data type '").concat(s).concat("'");
                Err(ParsingError::new(message))
            },
        }
    }

    /// Whether the type holds floating-point numbers.
    pub fn is_floating(&self) -> (r: bool)
        ensures
            r == (*self == DataType::Float || *self == DataType::Double),
    {
        match self {
            DataType::Float | DataType::Double => true,
            _ => false,
        }
    }
}

/// The value of a datapoint. Exactly one member is active. Floating-point
/// members hold their IEEE-754 bit pattern.
#[derive(Debug, Clone, PartialEq)]
pub enum Value {
    String(String),
    Bool(bool),
    Int32(i32),
    Int64(i64),
    Uint32(u32),
    Uint64(u64),
    Float(u32),
    Double(u64),
    StringArray(Vec<String>),
    BoolArray(Vec<bool>),
    Int32Array(Vec<i32>),
    Int64Array(Vec<i64>),
    Uint32Array(Vec<u32>),
    Uint64Array(Vec<u64>),
    FloatArray(Vec<u32>),
    DoubleArray(Vec<u64>),
}

/// The scalar members of a [`Value`] that text is read into, with strings
/// as their characters.
pub enum Scalar {
    Text(Seq<char>),
    Bool(bool),
    Int32(i32),
    Int64(i64),
    Uint32(u32),
    Uint64(u64),
}

/// The scalar that a value holds, if its active member is one that text is
/// read into.
pub open spec fn scalar_of(v: Value) -> Option<Scalar> {
    match v {
        Value::String(s) => Some(Scalar::Text(s@)),
        Value::Bool(b) => Some(Scalar::Bool(b)),
        Value::Int32(x) => Some(Scalar::Int32(x)),
        Value::Int64(x) => Some(Scalar::Int64(x)),
        Value::Uint32(x) => Some(Scalar::Uint32(x)),
        Value::Uint64(x) => Some(Scalar::Uint64(x)),
        _ => None,
    }
}

/// The text that a scalar is written as.
pub open spec fn scalar_text(x: Scalar) -> Seq<char> {
    match x {
        Scalar::Text(s) => s,
        Scalar::Bool(b) => if b {
            "true"@
        } else {
            "false"@
        },
        Scalar::Int32(v) => int_text(v as int),
        Scalar::Int64(v) => int_text(v as int),
        Scalar::Uint32(v) => int_text(v as int),
        Scalar::Uint64(v) => int_text(v as int),
    }
}

pub open spec fn int_error_message(e: IntErrorKind) -> Seq<char> {
    match e {
        IntErrorKind::Empty => "cannot parse integer from empty string"@,
        IntErrorKind::InvalidDigit => "invalid digit found in string"@,
        IntErrorKind::PosOverflow => "number too large to fit in target type"@,
        IntErrorKind::NegOverflow => "number too small to fit in target type"@,
    }
}

pub open spec fn bool_error_message() -> Seq<char> {
    "provided string was not `true` or `false`"@
}

pub open spec fn unparsable_type_message(dt: DataType) -> Seq<char> {
    "data type '"@ + name_of_type(dt) + "' not supported for parsing string into typed value"@
}

/// Reads `s` as an integer of `lo..=hi` and turns it into a scalar.
pub open spec fn int_outcome(s: Seq<char>, lo: int, hi: int, make: spec_fn(int) -> Scalar) -> Result<Scalar, Seq<char>> {
    match parse_int(s, lo, hi) {
        Ok(v) => Ok(make(v)),
        Err(e) => Err(int_error_message(e)),
    }
}

/// What reading `s` as a value of the declared type `dt` gives: the scalar,
/// or the message of the error. The 8- and 16-bit types are read in their
/// own range and held in the 32-bit member of their signedness.
pub open spec fn text_outcome(dt: DataType, s: Seq<char>) -> Result<Scalar, Seq<char>> {
    match dt {
        DataType::String => Ok(Scalar::Text(s)),
        DataType::Boolean => if s == "true"@ {
            Ok(Scalar::Bool(true))
        } else if s == "false"@ {
            Ok(Scalar::Bool(false))
        } else {
            Err(bool_error_message())
        },
        DataType::Int8 => int_outcome(s, i8::MIN as int, i8::MAX as int, |v: int| Scalar::Int32(v as i32)),
        DataType::Int16 => int_outcome(s, i16::MIN as int, i16::MAX as int, |v: int| Scalar::Int32(v as i32)),
        DataType::Int32 => int_outcome(s, i32::MIN as int, i32::MAX as int, |v: int| Scalar::Int32(v as i32)),
        DataType::Int64 => int_outcome(s, i64::MIN as int, i64::MAX as int, |v: int| Scalar::Int64(v as i64)),
        DataType::Uint8 => int_outcome(s, 0, u8::MAX as int, |v: int| Scalar::Uint32(v as u32)),
        DataType::Uint16 => int_outcome(s, 0, u16::MAX as int, |v: int| Scalar::Uint32(v as u32)),
        DataType::Uint32 => int_outcome(s, 0, u32::MAX as int, |v: int| Scalar::Uint32(v as u32)),
        DataType::Uint64 => int_outcome(s, 0, u64::MAX as int, |v: int| Scalar::Uint64(v as u64)),
        _ => Err(unparsable_type_message(dt)),
    }
}

/// The text that reads back as the same value: integers without a `+` and
/// without superfluous zeros; any text for strings and booleans.
pub open spec fn canonical_text(dt: DataType, s: Seq<char>) -> bool {
    match dt {
        DataType::String | DataType::Boolean => true,
        _ => canonical_int_text(s),
    }
}

fn int_error(e: IntErrorKind) -> (r: ParsingError)
    ensures
        r@ == int_error_message(e),
{
    let message = match e {
        IntErrorKind::Empty => "cannot parse integer from empty string",
        IntErrorKind::InvalidDigit => "invalid digit found in string",
        IntErrorKind::PosOverflow => "number too large to fit in target type",
        IntErrorKind::NegOverflow => "number too small to fit in target type",
    };
    ParsingError::new(String::from_str(message))
}

impl Value {
    /// Reads `value` as a value of the declared type `vss_type`. The text must
    /// match the type: nothing is coerced. Array and timestamp types are not
    /// read from text. Floating-point text is read by the caller, since this
    /// library holds floating-point numbers only as bit patterns.
    pub fn new(vss_type: DataType, value: &str) -> (r: Result<Value, ParsingError>)
        requires
            !(vss_type == DataType::Float || vss_type == DataType::Double),
        ensures
            match r {
                Ok(v) => scalar_of(v) is Some && text_outcome(vss_type, value@) == Ok::<Scalar, Seq<char>>(
                    scalar_of(v)->Some_0,
                ),
                Err(e) => text_outcome(vss_type, value@) == Err::<Scalar, Seq<char>>(e@),
            },
    {
        match vss_type {
            DataType::String => Ok(Value::String(String::from_str(value))),
            DataType::Boolean => {
                if same_text(value, "true") {
                    Ok(Value::Bool(true))
                } else if same_text(value, "false") {
                    Ok(Value::Bool(false))
                } else {
                    Err(ParsingError::new(String::from_str("provided string was not `true` or `false`")))
                }
            },
            DataType::Int8 => match parse_decimal(value, i8::MIN as i128, i8::MAX as i128) {
                Ok(v) => Ok(Value::Int32(v as i32)),
                Err(e) => Err(int_error(e)),
            },
            DataType::Int16 => match parse_decimal(value, i16::MIN as i128, i16::MAX as i128) {
                Ok(v) => Ok(Value::Int32(v as i32)),
                Err(e) => Err(int_error(e)),
            },
            DataType::Int32 => match parse_decimal(value, i32::MIN as i128, i32::MAX as i128) {
                Ok(v) => Ok(Value::Int32(v as i32)),
                Err(e) => Err(int_error(e)),
            },
            DataType::Int64 => match parse_decimal(value, i64::MIN as i128, i64::MAX as i128) {
                Ok(v) => Ok(Value::Int64(v as i64)),
                Err(e) => Err(int_error(e)),
            },
            DataType::Uint8 => match parse_decimal(value, 0, u8::MAX as i128) {
                Ok(v) => Ok(Value::Uint32(v as u32)),
                Err(e) => Err(int_error(e)),
            },
            DataType::Uint16 => match parse_decimal(value, 0, u16::MAX as i128) {
                Ok(v) => Ok(Value::Uint32(v as u32)),
                Err(e) => Err(int_error(e)),
            },
            DataType::Uint32 => match parse_decimal(value, 0, u32::MAX as i128) {
                Ok(v) => Ok(Value::Uint32(v as u32)),
                Err(e) => Err(int_error(e)),
            },
            DataType::Uint64 => match parse_decimal(value, 0, u64::MAX as i128) {
                Ok(v) => Ok(Value::Uint64(v as u64)),
                Err(e) => Err(int_error(e)),
            },
            _ => {
                let message = String::from_str("data type '").concat(vss_type.name()).concat(
                    "' not supported for parsing string into typed value",
                );
                Err(ParsingError::new(message))
            },
        }
    }

    /// The text of a scalar value, which [`Value::new`] reads back as the same
    /// value; `None` for floating-point and array values.
    pub fn to_text(&self) -> (r: Option<String>)
        ensures
            match r {
                Some(t) => scalar_of(*self) is Some && t@ == scalar_text(scalar_of(*self)->Some_0),
                None => scalar_of(*self) is None,
            },
    {
        match self {
            Value::String(s) => Some(s.clone()),
            Value::Bool(b) => if *b {
                Some(String::from_str("true"))
            } else {
                Some(String::from_str("false"))
            },
            Value::Int32(x) => Some(i64_text(*x as i64)),
            Value::Int64(x) => Some(i64_text(*x)),
            Value::Uint32(x) => Some(u64_text(*x as u64)),
            Value::Uint64(x) => Some(u64_text(*x)),
            _ => None,
        }
    }
}

/// Reading a value from its canonical text and writing it again gives the
/// same text.
pub proof fn text_round_trip(dt: DataType, s: Seq<char>)
    requires
        canonical_text(dt, s),
        text_outcome(dt, s) is Ok,
    ensures
        scalar_text(text_outcome(dt, s)->Ok_0) == s,
{
    match dt {
        DataType::String | DataType::Boolean => {},
        DataType::Int8 => lemma_int_text_round_trip(s, i8::MIN as int, i8::MAX as int),
        DataType::Int16 => lemma_int_text_round_trip(s, i16::MIN as int, i16::MAX as int),
        DataType::Int32 => lemma_int_text_round_trip(s, i32::MIN as int, i32::MAX as int),
        DataType::Int64 => lemma_int_text_round_trip(s, i64::MIN as int, i64::MAX as int),
        DataType::Uint8 => lemma_int_text_round_trip(s, 0, u8::MAX as int),
        DataType::Uint16 => lemma_int_text_round_trip(s, 0, u16::MAX as int),
        DataType::Uint32 => lemma_int_text_round_trip(s, 0, u32::MAX as int),
        DataType::Uint64 => lemma_int_text_round_trip(s, 0, u64::MAX as int),
        _ => {},
    }
}

/// A point in time: seconds and nanoseconds since the Unix epoch.
#[derive(Debug, Clone, Copy, PartialEq, Eq, Structural)]
pub struct Timestamp {
    pub seconds: i64,
    pub nanos: i32,
}

/// A value with an optional timestamp. A datapoint without a value stands
/// for "no current value", which is not the same as an empty or zero value.
#[derive(Debug, Clone, PartialEq)]
pub struct Datapoint {
    pub timestamp: Option<Timestamp>,
    pub value: Option<Value>,
}

/// What is known of a signal besides its value.
#[derive(Debug, Clone, PartialEq)]
pub struct Metadata {
    pub data_type: DataType,
    pub description: String,
}

/// A path bound to its current value, its target value and its metadata, as
/// far as a call asked for them.
#[derive(Debug, Clone, PartialEq)]
pub struct DataEntry {
    pub path: String,
    pub value: Option<Datapoint>,
    pub actuator_target: Option<Datapoint>,
    pub metadata: Option<Metadata>,
}

/// A member of an entry that a call asks to have filled or pushed.
#[derive(Debug, Clone, Copy, PartialEq, Eq, Structural)]
pub enum Field {
    Unspecified,
    Path,
    Value,
    ActuatorTarget,
    Metadata,
}

/// Which facet of an entry a get or subscribe call requests.
#[derive(Debug, Clone, Copy, PartialEq, Eq, Structural)]
pub enum EntryView {
    Unspecified,
    CurrentValue,
    TargetValue,
    Metadata,
    Fields,
    All,
}

/// An application-level error record carried in a response.
#[derive(Debug, Clone, PartialEq)]
pub struct ErrorRecord {
    pub code: u32,
    pub reason: String,
    pub message: String,
}

/// The error, if any, that a response reports for one path.
#[derive(Debug, Clone, PartialEq)]
pub struct DataEntryError {
    pub path: String,
    pub error: Option<ErrorRecord>,
}

/// One entry to write, with the members of it that are written.
#[derive(Debug, Clone, PartialEq)]
pub struct EntryUpdate {
    pub entry: DataEntry,
    pub fields: Vec<Field>,
}

/// A request to write entries.
#[derive(Debug, Clone, PartialEq)]
pub struct SetRequest {
    pub updates: Vec<EntryUpdate>,
}

/// One path to read, with the facet and the members asked for.
#[derive(Debug, Clone, PartialEq)]
pub struct EntryRequest {
    pub path: String,
    pub view: EntryView,
    pub fields: Vec<Field>,
}

/// A request to read entries.
#[derive(Debug, Clone, PartialEq)]
pub struct GetRequest {
    pub entries: Vec<EntryRequest>,
}

/// One path to subscribe to, with the facet and the members to push.
#[derive(Debug, Clone, PartialEq)]
pub struct SubscribeEntry {
    pub path: String,
    pub view: EntryView,
    pub fields: Vec<Field>,
}

/// A request to subscribe to entries.
#[derive(Debug, Clone, PartialEq)]
pub struct SubscribeRequest {
    pub entries: Vec<SubscribeEntry>,
}

/// The answer to a [`SetRequest`].
#[derive(Debug, Clone, PartialEq)]
pub struct SetResponse {
    pub error: Option<ErrorRecord>,
    pub errors: Vec<DataEntryError>,
}

/// The answer to a [`GetRequest`].
#[derive(Debug, Clone, PartialEq)]
pub struct GetResponse {
    pub entries: Vec<DataEntry>,
    pub errors: Vec<DataEntryError>,
    pub error: Option<ErrorRecord>,
}

} // verus!
