use kuksa_rust_sdk::{IncompatibleValueTypeError, TypedValue};

fn converts<T>(data: TypedValue, expected: T)
where
    T: TryFrom<TypedValue, Error = IncompatibleValueTypeError> + PartialEq + std::fmt::Debug,
{
    let got = T::try_from(data);
    assert!(got.is_ok());
    assert_eq!(got.unwrap(), expected);
}

#[test]
fn test_try_from_uint32_fails() {
    assert!(i32::try_from(TypedValue::Uint32(0x90000000_u32)).is_err());
}

#[test]
fn test_try_from_uint32array_fails() {
    let v = TypedValue::Uint32Array(vec![0x90000000_u32]);
    assert!(Vec::<i32>::try_from(v).is_err());
}

#[test]
fn test_try_from_uint64_fails() {
    assert!(i64::try_from(TypedValue::Uint64(0x9000000000000000_u64)).is_err());
}

#[test]
fn test_try_from_uint64array_fails() {
    let v = TypedValue::Uint64Array(vec![0x9000000000000000_u64]);
    assert!(Vec::<i64>::try_from(v).is_err());
}

#[test]
fn converts_same_member() {
    converts(TypedValue::String("one".to_string()), "one".to_string());
    converts(
        TypedValue::StringArray(vec!["one".to_string(), "two".to_string()]),
        vec!["one".to_string(), "two".to_string()],
    );
    converts(TypedValue::Bool(true), true);
    converts(TypedValue::BoolArray(vec![true, false]), vec![true, false]);
    converts(TypedValue::Uint32(0x01234567_u32), 0x01234567_u32);
    converts(
        TypedValue::Uint32Array(vec![0x01234567_u32, 0x89abcdef_u32]),
        vec![0x01234567_u32, 0x89abcdef_u32],
    );
    converts(TypedValue::Int32(0x01234567_i32), 0x01234567_i32);
    converts(
        TypedValue::Int32Array(vec![0x01234567_i32, 0x89abcdef_u32 as i32]),
        vec![0x01234567_i32, 0x89abcdef_u32 as i32],
    );
    converts(TypedValue::Uint64(0x0123456789abcdef_u64), 0x0123456789abcdef_u64);
    converts(
        TypedValue::Uint64Array(vec![0x0123456789abcdef_u64, 0x0123456789abcdef_u64]),
        vec![0x0123456789abcdef_u64, 0x0123456789abcdef_u64],
    );
    converts(TypedValue::Int64(0x0123456789abcdef_i64), 0x0123456789abcdef_i64);
    converts(
        TypedValue::Int64Array(vec![0x0123456789abcdef_i64, 0xfedcba9876543210_u64 as i64]),
        vec![0x0123456789abcdef_i64, 0xfedcba9876543210_u64 as i64],
    );
}

#[test]
fn widening_keeps_the_number() {
    converts(TypedValue::Uint32(0x01234567_u32), 0x01234567_i32);
    converts(TypedValue::Uint32(0x01234567_u32), 0x01234567_u64);
    converts(
        TypedValue::Uint32Array(vec![0x01234567_u32, 0x89abcdef_u32]),
        vec![0x01234567_u64, 0x89abcdef_u64],
    );
    converts(TypedValue::Uint32(0x89abcdef_u32), 0x89abcdef_i64);
    converts(
        TypedValue::Uint32Array(vec![0x01234567_u32, 0x89abcdef_u32]),
        vec![0x01234567_i64, 0x89abcdef_i64],
    );
    converts(TypedValue::Int32(-5), -5_i64);
    converts(
        TypedValue::Int32Array(vec![0x01234567_i32, 0x89abcdef_u32 as i32]),
        vec![0x01234567_i64, (0x89abcdef_u32 as i32) as i64],
    );
}

#[test]
fn narrowing_inside_range_is_exact() {
    converts(TypedValue::Uint32(0x7fffffff_u32), i32::MAX);
    converts(TypedValue::Uint64(0x7fffffffffffffff_u64), i64::MAX);
    converts(TypedValue::Uint32Array(vec![0, 0x7fffffff_u32]), vec![0_i32, i32::MAX]);
    converts(TypedValue::Uint64Array(vec![1, 0x7fffffffffffffff_u64]), vec![1_i64, i64::MAX]);
}

#[test]
fn narrowing_fails_on_any_element_out_of_range() {
    let v = TypedValue::Uint32Array(vec![1, 2, 0x80000000_u32, 3]);
    assert!(Vec::<i32>::try_from(&v).is_err());
    let v = TypedValue::Uint64Array(vec![0x8000000000000000_u64, 1]);
    assert!(Vec::<i64>::try_from(&v).is_err());
    assert!(i32::try_from(TypedValue::Uint32(0x80000000_u32)).is_err());
}

#[test]
fn incompatible_members_fail() {
    assert!(bool::try_from(TypedValue::Int32(1)).is_err());
    assert!(String::try_from(TypedValue::Bool(true)).is_err());
    assert!(u32::try_from(TypedValue::Int32(1)).is_err());
    assert!(u32::try_from(TypedValue::Uint64(1)).is_err());
    assert!(u64::try_from(TypedValue::Int64(1)).is_err());
    assert!(i32::try_from(TypedValue::Int64(1)).is_err());
    assert!(i64::try_from(TypedValue::Float(0)).is_err());
    assert!(Vec::<String>::try_from(TypedValue::String("a".to_string())).is_err());
    assert!(Vec::<bool>::try_from(TypedValue::Bool(true)).is_err());
    assert!(Vec::<u64>::try_from(TypedValue::Int64Array(vec![1])).is_err());
}
