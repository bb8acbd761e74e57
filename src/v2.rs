//! The tagged value of the current interface generation and its checked
//! conversions into plain Rust values.
//!
//! A conversion succeeds only where the active member of the value can be
//! represented exactly in the requested type: widening (for example an
//! unsigned 32-bit member read as `i64`) always succeeds, narrowing (an
//! unsigned 32-bit member read as `i32`) succeeds only inside the range of the
//! destination, and an array converts element by element and fails as a whole
//! if any element fails.

use vstd::prelude::*;

verus! {

/// A value of the current interface generation. Exactly one member is
/// active. Floating-point members hold their IEEE-754 bit pattern.
#[derive(Debug, Clone, PartialEq)]
pub enum TypedValue {
    String(String),
    Bool(bool),
    Int32(i32),
    Int64(i64),
    Uint32(u32),
    Uint64(u64),
    Float(u32),
    Double(u64),
    StringArray(Vec<String>),
    BoolArray(Vec<bool>),
    Int32Array(Vec<i32>),
    Int64Array(Vec<i64>),
    Uint32Array(Vec<u32>),
    Uint64Array(Vec<u64>),
    FloatArray(Vec<u32>),
    DoubleArray(Vec<u64>),
}

/// A [`TypedValue`] cannot be converted to the requested type because its
/// active member has an incompatible type, or a value outside the range of
/// the requested type.
#[derive(Debug, Clone, Copy, PartialEq, Eq)]
pub struct IncompatibleValueTypeError {}

/// The characters of each string of a sequence.
pub open spec fn texts(v: Seq<String>) -> Seq<Seq<char>> {
    v.map_values(|s: String| s@)
}

pub open spec fn fits_i32(x: int) -> bool {
    i32::MIN <= x <= i32::MAX
}

pub open spec fn fits_i64(x: int) -> bool {
    i64::MIN <= x <= i64::MAX
}

pub open spec fn string_of(v: TypedValue) -> Option<Seq<char>> {
    match v {
        TypedValue::String(s) => Some(s@),
        _ => None,
    }
}

pub open spec fn strings_of(v: TypedValue) -> Option<Seq<Seq<char>>> {
    match v {
        TypedValue::StringArray(a) => Some(texts(a@)),
        _ => None,
    }
}

pub open spec fn bool_of(v: TypedValue) -> Option<bool> {
    match v {
        TypedValue::Bool(b) => Some(b),
        _ => None,
    }
}

pub open spec fn bools_of(v: TypedValue) -> Option<Seq<bool>> {
    match v {
        TypedValue::BoolArray(a) => Some(a@),
        _ => None,
    }
}

pub open spec fn u32_of(v: TypedValue) -> Option<u32> {
    match v {
        TypedValue::Uint32(x) => Some(x),
        _ => None,
    }
}

pub open spec fn u32s_of(v: TypedValue) -> Option<Seq<u32>> {
    match v {
        TypedValue::Uint32Array(a) => Some(a@),
        _ => None,
    }
}

pub open spec fn u64_of(v: TypedValue) -> Option<u64> {
    match v {
        TypedValue::Uint32(x) => Some(x as u64),
        TypedValue::Uint64(x) => Some(x),
        _ => None,
    }
}

pub open spec fn u64s_of(v: TypedValue) -> Option<Seq<u64>> {
    match v {
        TypedValue::Uint32Array(a) => Some(a@.map_values(|x: u32| x as u64)),
        TypedValue::Uint64Array(a) => Some(a@),
        _ => None,
    }
}

pub open spec fn i32_of(v: TypedValue) -> Option<i32> {
    match v {
        TypedValue::Uint32(x) => if fits_i32(x as int) {
            Some(x as i32)
        } else {
            None
        },
        TypedValue::Int32(x) => Some(x),
        _ => None,
    }
}

pub open spec fn i32s_of(v: TypedValue) -> Option<Seq<i32>> {
    match v {
        TypedValue::Uint32Array(a) => if forall|i: int| 0 <= i < a@.len() ==> fits_i32(#[trigger] a@[i] as int) {
            Some(a@.map_values(|x: u32| x as i32))
        } else {
            None
        },
        TypedValue::Int32Array(a) => Some(a@),
        _ => None,
    }
}

pub open spec fn i64_of(v: TypedValue) -> Option<i64> {
    match v {
        TypedValue::Uint32(x) => Some(x as i64),
        TypedValue::Uint64(x) => if fits_i64(x as int) {
            Some(x as i64)
        } else {
            None
        },
        TypedValue::Int32(x) => Some(x as i64),
        TypedValue::Int64(x) => Some(x),
        _ => None,
    }
}

pub open spec fn i64s_of(v: TypedValue) -> Option<Seq<i64>> {
    match v {
        TypedValue::Uint32Array(a) => Some(a@.map_values(|x: u32| x as i64)),
        TypedValue::Uint64Array(a) => if forall|i: int| 0 <= i < a@.len() ==> fits_i64(#[trigger] a@[i] as int) {
            Some(a@.map_values(|x: u64| x as i64))
        } else {
            None
        },
        TypedValue::Int32Array(a) => Some(a@.map_values(|x: i32| x as i64)),
        TypedValue::Int64Array(a) => Some(a@),
        _ => None,
    }
}

/// The result of a conversion whose outcome is described by `expected`.
pub open spec fn outcome<T>(expected: Option<T>) -> Result<T, IncompatibleValueTypeError> {
    match expected {
        Some(x) => Ok(x),
        None => Err(IncompatibleValueTypeError {}),
    }
}

/// Whether an array conversion gave what `expected` describes, over the
/// view of the produced vector.
pub open spec fn array_outcome<T>(r: Result<Vec<T>, IncompatibleValueTypeError>, expected: Option<Seq<T>>) -> bool {
    match r {
        Ok(out) => expected == Some(out@),
        Err(_) => expected is None,
    }
}

impl<'a> TryFrom<&'a TypedValue> for u32 {
    type Error = IncompatibleValueTypeError;

    fn try_from(value: &'a TypedValue) -> (r: Result<u32, IncompatibleValueTypeError>)
        ensures
            r == outcome(u32_of(*value)),
    {
        match value {
            TypedValue::Uint32(v) => Ok(*v),
            _ => Err(IncompatibleValueTypeError {}),
        }
    }
}

impl<'a> vstd::std_specs::convert::TryFromSpecImpl<&'a TypedValue> for u32 {
    open spec fn obeys_try_from_spec() -> bool {
        true
    }

    open spec fn try_from_spec(v: &'a TypedValue) -> Result<u32, IncompatibleValueTypeError> {
        outcome(u32_of(*v))
    }
}

impl TryFrom<TypedValue> for u32 {
    type Error = IncompatibleValueTypeError;

    fn try_from(value: TypedValue) -> (r: Result<u32, IncompatibleValueTypeError>)
        ensures
            r == outcome(u32_of(value)),
    {
        <u32 as TryFrom<&TypedValue>>::try_from(&value)
    }
}

impl vstd::std_specs::convert::TryFromSpecImpl<TypedValue> for u32 {
    open spec fn obeys_try_from_spec() -> bool {
        true
    }

    open spec fn try_from_spec(v: TypedValue) -> Result<u32, IncompatibleValueTypeError> {
        outcome(u32_of(v))
    }
}

impl<'a> TryFrom<&'a TypedValue> for Vec<u32> {
    type Error = IncompatibleValueTypeError;

    fn try_from(value: &'a TypedValue) -> (r: Result<Vec<u32>, IncompatibleValueTypeError>)
        ensures
            array_outcome(r, u32s_of(*value)),
    {
        match value {
            TypedValue::Uint32Array(v) => Ok(v.clone()),
            _ => Err(IncompatibleValueTypeError {}),
        }
    }
}

/// The contract of the conversion is stated on `try_from` over views.
impl<'a> vstd::std_specs::convert::TryFromSpecImpl<&'a TypedValue> for Vec<u32> {
    open spec fn obeys_try_from_spec() -> bool {
        false
    }

    open spec fn try_from_spec(v: &'a TypedValue) -> Result<Vec<u32>, IncompatibleValueTypeError> {
        Err(IncompatibleValueTypeError {})
    }
}

impl TryFrom<TypedValue> for Vec<u32> {
    type Error = IncompatibleValueTypeError;

    fn try_from(value: TypedValue) -> (r: Result<Vec<u32>, IncompatibleValueTypeError>)
        ensures
            array_outcome(r, u32s_of(value)),
    {
        <Vec<u32> as TryFrom<&TypedValue>>::try_from(&value)
    }
}

/// The contract of the conversion is stated on `try_from` over views.
impl vstd::std_specs::convert::TryFromSpecImpl<TypedValue> for Vec<u32> {
    open spec fn obeys_try_from_spec() -> bool {
        false
    }

    open spec fn try_from_spec(v: TypedValue) -> Result<Vec<u32>, IncompatibleValueTypeError> {
        Err(IncompatibleValueTypeError {})
    }
}

impl<'a> TryFrom<&'a TypedValue> for u64 {
    type Error = IncompatibleValueTypeError;

    fn try_from(value: &'a TypedValue) -> (r: Result<u64, IncompatibleValueTypeError>)
        ensures
            r == outcome(u64_of(*value)),
    {
        match value {
            TypedValue::Uint32(v) => Ok(*v as u64),
            TypedValue::Uint64(v) => Ok(*v),
            _ => Err(IncompatibleValueTypeError {}),
        }
    }
}

impl<'a> vstd::std_specs::convert::TryFromSpecImpl<&'a TypedValue> for u64 {
    open spec fn obeys_try_from_spec() -> bool {
        true
    }

    open spec fn try_from_spec(v: &'a TypedValue) -> Result<u64, IncompatibleValueTypeError> {
        outcome(u64_of(*v))
    }
}

impl TryFrom<TypedValue> for u64 {
    type Error = IncompatibleValueTypeError;

    fn try_from(value: TypedValue) -> (r: Result<u64, IncompatibleValueTypeError>)
        ensures
            r == outcome(u64_of(value)),
    {
        <u64 as TryFrom<&TypedValue>>::try_from(&value)
    }
}

impl vstd::std_specs::convert::TryFromSpecImpl<TypedValue> for u64 {
    open spec fn obeys_try_from_spec() -> bool {
        true
    }

    open spec fn try_from_spec(v: TypedValue) -> Result<u64, IncompatibleValueTypeError> {
        outcome(u64_of(v))
    }
}

impl<'a> TryFrom<&'a TypedValue> for Vec<u64> {
    type Error = IncompatibleValueTypeError;

    fn try_from(value: &'a TypedValue) -> (r: Result<Vec<u64>, IncompatibleValueTypeError>)
        ensures
            array_outcome(r, u64s_of(*value)),
    {
        match value {
            TypedValue::Uint32Array(v) => Ok(widen_u32_to_u64(v)),
            TypedValue::Uint64Array(v) => Ok(v.clone()),
            _ => Err(IncompatibleValueTypeError {}),
        }
    }
}

/// The contract of the conversion is stated on `try_from` over views.
impl<'a> vstd::std_specs::convert::TryFromSpecImpl<&'a TypedValue> for Vec<u64> {
    open spec fn obeys_try_from_spec() -> bool {
        false
    }

    open spec fn try_from_spec(v: &'a TypedValue) -> Result<Vec<u64>, IncompatibleValueTypeError> {
        Err(IncompatibleValueTypeError {})
    }
}

impl TryFrom<TypedValue> for Vec<u64> {
    type Error = IncompatibleValueTypeError;

    fn try_from(value: TypedValue) -> (r: Result<Vec<u64>, IncompatibleValueTypeError>)
        ensures
            array_outcome(r, u64s_of(value)),
    {
        <Vec<u64> as TryFrom<&TypedValue>>::try_from(&value)
    }
}

/// The contract of the conversion is stated on `try_from` over views.
impl vstd::std_specs::convert::TryFromSpecImpl<TypedValue> for Vec<u64> {
    open spec fn obeys_try_from_spec() -> bool {
        false
    }

    open spec fn try_from_spec(v: TypedValue) -> Result<Vec<u64>, IncompatibleValueTypeError> {
        Err(IncompatibleValueTypeError {})
    }
}

impl<'a> TryFrom<&'a TypedValue> for i32 {
    type Error = IncompatibleValueTypeError;

    fn try_from(value: &'a TypedValue) -> (r: Result<i32, IncompatibleValueTypeError>)
        ensures
            r == outcome(i32_of(*value)),
    {
        match value {
            TypedValue::Uint32(v) => if *v <= i32::MAX as u32 {
                Ok(*v as i32)
            } else {
                Err(IncompatibleValueTypeError {})
            },
            TypedValue::Int32(v) => Ok(*v),
            _ => Err(IncompatibleValueTypeError {}),
        }
    }
}

impl<'a> vstd::std_specs::convert::TryFromSpecImpl<&'a TypedValue> for i32 {
    open spec fn obeys_try_from_spec() -> bool {
        true
    }

    open spec fn try_from_spec(v: &'a TypedValue) -> Result<i32, IncompatibleValueTypeError> {
        outcome(i32_of(*v))
    }
}

impl TryFrom<TypedValue> for i32 {
    type Error = IncompatibleValueTypeError;

    fn try_from(value: TypedValue) -> (r: Result<i32, IncompatibleValueTypeError>)
        ensures
            r == outcome(i32_of(value)),
    {
        <i32 as TryFrom<&TypedValue>>::try_from(&value)
    }
}

impl vstd::std_specs::convert::TryFromSpecImpl<TypedValue> for i32 {
    open spec fn obeys_try_from_spec() -> bool {
        true
    }

    open spec fn try_from_spec(v: TypedValue) -> Result<i32, IncompatibleValueTypeError> {
        outcome(i32_of(v))
    }
}

impl<'a> TryFrom<&'a TypedValue> for Vec<i32> {
    type Error = IncompatibleValueTypeError;

    fn try_from(value: &'a TypedValue) -> (r: Result<Vec<i32>, IncompatibleValueTypeError>)
        ensures
            array_outcome(r, i32s_of(*value)),
    {
        match value {
            TypedValue::Uint32Array(v) => narrow_u32_to_i32(v),
            TypedValue::Int32Array(v) => Ok(v.clone()),
            _ => Err(IncompatibleValueTypeError {}),
        }
    }
}

/// The contract of the conversion is stated on `try_from` over views.
impl<'a> vstd::std_specs::convert::TryFromSpecImpl<&'a TypedValue> for Vec<i32> {
    open spec fn obeys_try_from_spec() -> bool {
        false
    }

    open spec fn try_from_spec(v: &'a TypedValue) -> Result<Vec<i32>, IncompatibleValueTypeError> {
        Err(IncompatibleValueTypeError {})
    }
}

impl TryFrom<TypedValue> for Vec<i32> {
    type Error = IncompatibleValueTypeError;

    fn try_from(value: TypedValue) -> (r: Result<Vec<i32>, IncompatibleValueTypeError>)
        ensures
            array_outcome(r, i32s_of(value)),
    {
        <Vec<i32> as TryFrom<&TypedValue>>::try_from(&value)
    }
}

/// The contract of the conversion is stated on `try_from` over views.
impl vstd::std_specs::convert::TryFromSpecImpl<TypedValue> for Vec<i32> {
    open spec fn obeys_try_from_spec() -> bool {
        false
    }

    open spec fn try_from_spec(v: TypedValue) -> Result<Vec<i32>, IncompatibleValueTypeError> {
        Err(IncompatibleValueTypeError {})
    }
}

impl<'a> TryFrom<&'a TypedValue> for i64 {
    type Error = IncompatibleValueTypeError;

    fn try_from(value: &'a TypedValue) -> (r: Result<i64, IncompatibleValueTypeError>)
        ensures
            r == outcome(i64_of(*value)),
    {
        match value {
            TypedValue::Uint32(v) => Ok(*v as i64),
            TypedValue::Uint64(v) => if *v <= i64::MAX as u64 {
                Ok(*v as i64)
            } else {
                Err(IncompatibleValueTypeError {})
            },
            TypedValue::Int32(v) => Ok(*v as i64),
            TypedValue::Int64(v) => Ok(*v),
            _ => Err(IncompatibleValueTypeError {}),
        }
    }
}

impl<'a> vstd::std_specs::convert::TryFromSpecImpl<&'a TypedValue> for i64 {
    open spec fn obeys_try_from_spec() -> bool {
        true
    }

    open spec fn try_from_spec(v: &'a TypedValue) -> Result<i64, IncompatibleValueTypeError> {
        outcome(i64_of(*v))
    }
}

impl TryFrom<TypedValue> for i64 {
    type Error = IncompatibleValueTypeError;

    fn try_from(value: TypedValue) -> (r: Result<i64, IncompatibleValueTypeError>)
        ensures
            r == outcome(i64_of(value)),
    {
        <i64 as TryFrom<&TypedValue>>::try_from(&value)
    }
}

impl vstd::std_specs::convert::TryFromSpecImpl<TypedValue> for i64 {
    open spec fn obeys_try_from_spec() -> bool {
        true
    }

    open spec fn try_from_spec(v: TypedValue) -> Result<i64, IncompatibleValueTypeError> {
        outcome(i64_of(v))
    }
}

impl<'a> TryFrom<&'a TypedValue> for Vec<i64> {
    type Error = IncompatibleValueTypeError;

    fn try_from(value: &'a TypedValue) -> (r: Result<Vec<i64>, IncompatibleValueTypeError>)
        ensures
            array_outcome(r, i64s_of(*value)),
    {
        match value {
            TypedValue::Uint32Array(v) => Ok(widen_u32_to_i64(v)),
            TypedValue::Uint64Array(v) => narrow_u64_to_i64(v),
            TypedValue::Int32Array(v) => Ok(widen_i32_to_i64(v)),
            TypedValue::Int64Array(v) => Ok(v.clone()),
            _ => Err(IncompatibleValueTypeError {}),
        }
    }
}

/// The contract of the conversion is stated on `try_from` over views.
impl<'a> vstd::std_specs::convert::TryFromSpecImpl<&'a TypedValue> for Vec<i64> {
    open spec fn obeys_try_from_spec() -> bool {
        false
    }

    open spec fn try_from_spec(v: &'a TypedValue) -> Result<Vec<i64>, IncompatibleValueTypeError> {
        Err(IncompatibleValueTypeError {})
    }
}

impl TryFrom<TypedValue> for Vec<i64> {
    type Error = IncompatibleValueTypeError;

    fn try_from(value: TypedValue) -> (r: Result<Vec<i64>, IncompatibleValueTypeError>)
        ensures
            array_outcome(r, i64s_of(value)),
    {
        <Vec<i64> as TryFrom<&TypedValue>>::try_from(&value)
    }
}

/// The contract of the conversion is stated on `try_from` over views.
impl vstd::std_specs::convert::TryFromSpecImpl<TypedValue> for Vec<i64> {
    open spec fn obeys_try_from_spec() -> bool {
        false
    }

    open spec fn try_from_spec(v: TypedValue) -> Result<Vec<i64>, IncompatibleValueTypeError> {
        Err(IncompatibleValueTypeError {})
    }
}

impl<'a> TryFrom<&'a TypedValue> for bool {
    type Error = IncompatibleValueTypeError;

    fn try_from(value: &'a TypedValue) -> (r: Result<bool, IncompatibleValueTypeError>)
        ensures
            r == outcome(bool_of(*value)),
    {
        match value {
            TypedValue::Bool(v) => Ok(*v),
            _ => Err(IncompatibleValueTypeError {}),
        }
    }
}

impl<'a> vstd::std_specs::convert::TryFromSpecImpl<&'a TypedValue> for bool {
    open spec fn obeys_try_from_spec() -> bool {
        true
    }

    open spec fn try_from_spec(v: &'a TypedValue) -> Result<bool, IncompatibleValueTypeError> {
        outcome(bool_of(*v))
    }
}

impl TryFrom<TypedValue> for bool {
    type Error = IncompatibleValueTypeError;

    fn try_from(value: TypedValue) -> (r: Result<bool, IncompatibleValueTypeError>)
        ensures
            r == outcome(bool_of(value)),
    {
        <bool as TryFrom<&TypedValue>>::try_from(&value)
    }
}

impl vstd::std_specs::convert::TryFromSpecImpl<TypedValue> for bool {
    open spec fn obeys_try_from_spec() -> bool {
        true
    }

    open spec fn try_from_spec(v: TypedValue) -> Result<bool, IncompatibleValueTypeError> {
        outcome(bool_of(v))
    }
}

impl<'a> TryFrom<&'a TypedValue> for Vec<bool> {
    type Error = IncompatibleValueTypeError;

    fn try_from(value: &'a TypedValue) -> (r: Result<Vec<bool>, IncompatibleValueTypeError>)
        ensures
            array_outcome(r, bools_of(*value)),
    {
        match value {
            TypedValue::BoolArray(v) => Ok(v.clone()),
            _ => Err(IncompatibleValueTypeError {}),
        }
    }
}

/// The contract of the conversion is stated on `try_from` over views.
impl<'a> vstd::std_specs::convert::TryFromSpecImpl<&'a TypedValue> for Vec<bool> {
    open spec fn obeys_try_from_spec() -> bool {
        false
    }

    open spec fn try_from_spec(v: &'a TypedValue) -> Result<Vec<bool>, IncompatibleValueTypeError> {
        Err(IncompatibleValueTypeError {})
    }
}

impl TryFrom<TypedValue> for Vec<bool> {
    type Error = IncompatibleValueTypeError;

    fn try_from(value: TypedValue) -> (r: Result<Vec<bool>, IncompatibleValueTypeError>)
        ensures
            array_outcome(r, bools_of(value)),
    {
        <Vec<bool> as TryFrom<&TypedValue>>::try_from(&value)
    }
}

/// The contract of the conversion is stated on `try_from` over views.
impl vstd::std_specs::convert::TryFromSpecImpl<TypedValue> for Vec<bool> {
    open spec fn obeys_try_from_spec() -> bool {
        false
    }

    open spec fn try_from_spec(v: TypedValue) -> Result<Vec<bool>, IncompatibleValueTypeError> {
        Err(IncompatibleValueTypeError {})
    }
}

impl<'a> TryFrom<&'a TypedValue> for String {
    type Error = IncompatibleValueTypeError;

    fn try_from(value: &'a TypedValue) -> (r: Result<String, IncompatibleValueTypeError>)
        ensures
            match r {
                Ok(s) => string_of(*value) == Some(s@),
                Err(_) => string_of(*value) is None,
            },
    {
        match value {
            TypedValue::String(v) => Ok(v.clone()),
            _ => Err(IncompatibleValueTypeError {}),
        }
    }
}

/// The contract of the conversion is stated on `try_from` over views.
impl<'a> vstd::std_specs::convert::TryFromSpecImpl<&'a TypedValue> for String {
    open spec fn obeys_try_from_spec() -> bool {
        false
    }

    open spec fn try_from_spec(v: &'a TypedValue) -> Result<String, IncompatibleValueTypeError> {
        Err(IncompatibleValueTypeError {})
    }
}

impl TryFrom<TypedValue> for String {
    type Error = IncompatibleValueTypeError;

    fn try_from(value: TypedValue) -> (r: Result<String, IncompatibleValueTypeError>)
        ensures
            match r {
                Ok(s) => string_of(value) == Some(s@),
                Err(_) => string_of(value) is None,
            },
    {
        <String as TryFrom<&TypedValue>>::try_from(&value)
    }
}

/// The contract of the conversion is stated on `try_from` over views.
impl vstd::std_specs::convert::TryFromSpecImpl<TypedValue> for String {
    open spec fn obeys_try_from_spec() -> bool {
        false
    }

    open spec fn try_from_spec(v: TypedValue) -> Result<String, IncompatibleValueTypeError> {
        Err(IncompatibleValueTypeError {})
    }
}

impl<'a> TryFrom<&'a TypedValue> for Vec<String> {
    type Error = IncompatibleValueTypeError;

    fn try_from(value: &'a TypedValue) -> (r: Result<Vec<String>, IncompatibleValueTypeError>)
        ensures
            match r {
                Ok(out) => strings_of(*value) == Some(texts(out@)),
                Err(_) => strings_of(*value) is None,
            },
    {
        match value {
            TypedValue::StringArray(v) => Ok(clone_strings(v)),
            _ => Err(IncompatibleValueTypeError {}),
        }
    }
}

/// The contract of the conversion is stated on `try_from` over views.
impl<'a> vstd::std_specs::convert::TryFromSpecImpl<&'a TypedValue> for Vec<String> {
    open spec fn obeys_try_from_spec() -> bool {
        false
    }

    open spec fn try_from_spec(v: &'a TypedValue) -> Result<Vec<String>, IncompatibleValueTypeError> {
        Err(IncompatibleValueTypeError {})
    }
}

impl TryFrom<TypedValue> for Vec<String> {
    type Error = IncompatibleValueTypeError;

    fn try_from(value: TypedValue) -> (r: Result<Vec<String>, IncompatibleValueTypeError>)
        ensures
            match r {
                Ok(out) => strings_of(value) == Some(texts(out@)),
                Err(_) => strings_of(value) is None,
            },
    {
        <Vec<String> as TryFrom<&TypedValue>>::try_from(&value)
    }
}

/// The contract of the conversion is stated on `try_from` over views.
impl vstd::std_specs::convert::TryFromSpecImpl<TypedValue> for Vec<String> {
    open spec fn obeys_try_from_spec() -> bool {
        false
    }

    open spec fn try_from_spec(v: TypedValue) -> Result<Vec<String>, IncompatibleValueTypeError> {
        Err(IncompatibleValueTypeError {})
    }
}

fn clone_strings(v: &Vec<String>) -> (r: Vec<String>)
    ensures
        texts(r@) == texts(v@),
{
    let mut out: Vec<String> = Vec::new();
    let mut i: usize = 0;
    while i < v.len()
        invariant
            i <= v.len(),
            out@.len() == i,
            forall|j: int| 0 <= j < i ==> #[trigger] out@[j]@ == v@[j]@,
        decreases v.len() - i,
    {
        out.push(v[i].clone());
        i += 1;
    }
    assert(texts(out@) =~= texts(v@));
    out
}

fn widen_u32_to_u64(v: &Vec<u32>) -> (r: Vec<u64>)
    ensures
        r@ == v@.map_values(|x: u32| x as u64),
{
    let mut out: Vec<u64> = Vec::new();
    let mut i: usize = 0;
    while i < v.len()
        invariant
            i <= v.len(),
            out@ == v@.subrange(0, i as int).map_values(|x: u32| x as u64),
        decreases v.len() - i,
    {
        out.push(v[i] as u64);
        i += 1;
        assert(v@.subrange(0, i as int).drop_last() =~= v@.subrange(0, i - 1));
        assert(out@ =~= v@.subrange(0, i as int).map_values(|x: u32| x as u64));
    }
    assert(v@.subrange(0, i as int) =~= v@);
    out
}

fn widen_u32_to_i64(v: &Vec<u32>) -> (r: Vec<i64>)
    ensures
        r@ == v@.map_values(|x: u32| x as i64),
{
    let mut out: Vec<i64> = Vec::new();
    let mut i: usize = 0;
    while i < v.len()
        invariant
            i <= v.len(),
            out@ == v@.subrange(0, i as int).map_values(|x: u32| x as i64),
        decreases v.len() - i,
    {
        out.push(v[i] as i64);
        i += 1;
        assert(out@ =~= v@.subrange(0, i as int).map_values(|x: u32| x as i64));
    }
    assert(v@.subrange(0, i as int) =~= v@);
    out
}

fn widen_i32_to_i64(v: &Vec<i32>) -> (r: Vec<i64>)
    ensures
        r@ == v@.map_values(|x: i32| x as i64),
{
    let mut out: Vec<i64> = Vec::new();
    let mut i: usize = 0;
    while i < v.len()
        invariant
            i <= v.len(),
            out@ == v@.subrange(0, i as int).map_values(|x: i32| x as i64),
        decreases v.len() - i,
    {
        out.push(v[i] as i64);
        i += 1;
        assert(out@ =~= v@.subrange(0, i as int).map_values(|x: i32| x as i64));
    }
    assert(v@.subrange(0, i as int) =~= v@);
    out
}

/// Converts element by element; fails as a whole at the first element that
/// does not fit.
fn narrow_u32_to_i32(v: &Vec<u32>) -> (r: Result<Vec<i32>, IncompatibleValueTypeError>)
    ensures
        array_outcome(r, i32s_of(TypedValue::Uint32Array(*v))),
{
    let mut out: Vec<i32> = Vec::new();
    let mut i: usize = 0;
    while i < v.len()
        invariant
            i <= v.len(),
            forall|j: int| 0 <= j < i ==> fits_i32(#[trigger] v@[j] as int),
            out@ == v@.subrange(0, i as int).map_values(|x: u32| x as i32),
        decreases v.len() - i,
    {
        if v[i] > i32::MAX as u32 {
            return Err(IncompatibleValueTypeError {});
        }
        out.push(v[i] as i32);
        i += 1;
        assert(out@ =~= v@.subrange(0, i as int).map_values(|x: u32| x as i32));
    }
    assert(v@.subrange(0, i as int) =~= v@);
    Ok(out)
}

/// Converts element by element; fails as a whole at the first element that
/// does not fit.
fn narrow_u64_to_i64(v: &Vec<u64>) -> (r: Result<Vec<i64>, IncompatibleValueTypeError>)
    ensures
        array_outcome(r, i64s_of(TypedValue::Uint64Array(*v))),
{
    let mut out: Vec<i64> = Vec::new();
    let mut i: usize = 0;
    while i < v.len()
        invariant
            i <= v.len(),
            forall|j: int| 0 <= j < i ==> fits_i64(#[trigger] v@[j] as int),
            out@ == v@.subrange(0, i as int).map_values(|x: u64| x as i64),
        decreases v.len() - i,
    {
        if v[i] > i64::MAX as u64 {
            return Err(IncompatibleValueTypeError {});
        }
        out.push(v[i] as i64);
        i += 1;
        assert(out@ =~= v@.subrange(0, i as int).map_values(|x: u64| x as i64));
    }
    assert(v@.subrange(0, i as int) =~= v@);
    Ok(out)
}

/// Narrowing is checked: an unsigned value converts to the signed type of
/// its width exactly when it lies inside that type's range, and then to the
/// same number. An array converts exactly when every element does, element
/// by element.
pub proof fn narrowing_is_checked(x: u32, y: u64, xs: Vec<u32>, ys: Vec<u64>)
    ensures
        i32_of(TypedValue::Uint32(x)) is Some <==> x as int <= i32::MAX,
        i32_of(TypedValue::Uint32(x)) matches Some(v) ==> v as int == x as int,
        i64_of(TypedValue::Uint64(y)) is Some <==> y as int <= i64::MAX,
        i64_of(TypedValue::Uint64(y)) matches Some(v) ==> v as int == y as int,
        i32s_of(TypedValue::Uint32Array(xs)) is Some <==> forall|i: int|
            0 <= i < xs@.len() ==> #[trigger] xs@[i] as int <= i32::MAX,
        i32s_of(TypedValue::Uint32Array(xs)) matches Some(v) ==> v.len() == xs@.len() && forall|i: int|
            0 <= i < v.len() ==> #[trigger] v[i] as int == xs@[i] as int,
        i64s_of(TypedValue::Uint64Array(ys)) is Some <==> forall|i: int|
            0 <= i < ys@.len() ==> #[trigger] ys@[i] as int <= i64::MAX,
        i64s_of(TypedValue::Uint64Array(ys)) matches Some(v) ==> v.len() == ys@.len() && forall|i: int|
            0 <= i < v.len() ==> #[trigger] v[i] as int == ys@[i] as int,
{
}

/// Widening always succeeds and keeps the number: an unsigned 32-bit value
/// read as a 64-bit integer of either signedness, a signed 32-bit value read
/// as a signed 64-bit integer, element by element for arrays.
pub proof fn widening_is_exact(x: u32, y: i32, xs: Vec<u32>, ys: Vec<i32>)
    ensures
        u64_of(TypedValue::Uint32(x)) matches Some(v) && v as int == x as int,
        i64_of(TypedValue::Uint32(x)) matches Some(v) && v as int == x as int,
        i64_of(TypedValue::Int32(y)) matches Some(v) && v as int == y as int,
        u64s_of(TypedValue::Uint32Array(xs)) matches Some(v) && v.len() == xs@.len() && forall|i: int|
            0 <= i < v.len() ==> #[trigger] v[i] as int == xs@[i] as int,
        i64s_of(TypedValue::Uint32Array(xs)) matches Some(v) && v.len() == xs@.len() && forall|i: int|
            0 <= i < v.len() ==> #[trigger] v[i] as int == xs@[i] as int,
        i64s_of(TypedValue::Int32Array(ys)) matches Some(v) && v.len() == ys@.len() && forall|i: int|
            0 <= i < v.len() ==> #[trigger] v[i] as int == ys@[i] as int,
{
}

} // verus!
