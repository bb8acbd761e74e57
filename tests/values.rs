use kuksa_rust_sdk::text::{i64_text, parse_decimal, u64_text, IntErrorKind};
use kuksa_rust_sdk::{DataType, ParsingError, Value};

fn message(r: Result<Value, ParsingError>) -> String {
    r.unwrap_err().message().to_string()
}

#[test]
fn data_type_names_in_any_case() {
    assert_eq!(DataType::from_str("int8").unwrap(), DataType::Int8);
    assert_eq!(DataType::from_str("INT8").unwrap(), DataType::Int8);
    assert_eq!(DataType::from_str("Double[]").unwrap(), DataType::DoubleArray);
    assert_eq!(DataType::from_str("bool").unwrap(), DataType::Boolean);
    assert_eq!(DataType::from_str("String[]").unwrap(), DataType::StringArray);
    assert_eq!(DataType::from_str("uint64").unwrap(), DataType::Uint64);
}

#[test]
fn unknown_data_type_is_rejected() {
    let e = DataType::from_str("Int128").unwrap_err();
    assert_eq!(e.message(), "unsupported data type 'Int128'");
    assert!(DataType::from_str("timestamp").is_err());
    assert!(DataType::from_str("").is_err());
}

#[test]
fn lowercase_names_are_exact() {
    assert_eq!(DataType::from_lowercase_name("float"), Some(DataType::Float));
    assert_eq!(DataType::from_lowercase_name("uint16[]"), Some(DataType::Uint16Array));
    assert_eq!(DataType::from_lowercase_name("Float"), None);
    assert_eq!(DataType::from_lowercase_name("float "), None);
    assert_eq!(DataType::Int16Array.name(), "int16[]");
}

#[test]
fn values_are_read_against_their_type() {
    assert_eq!(Value::new(DataType::String, "Vehicle").unwrap(), Value::String("Vehicle".to_string()));
    assert_eq!(Value::new(DataType::Boolean, "true").unwrap(), Value::Bool(true));
    assert_eq!(Value::new(DataType::Boolean, "false").unwrap(), Value::Bool(false));
    assert_eq!(Value::new(DataType::Int8, "-128").unwrap(), Value::Int32(-128));
    assert_eq!(Value::new(DataType::Int16, "+300").unwrap(), Value::Int32(300));
    assert_eq!(Value::new(DataType::Int32, "-2147483648").unwrap(), Value::Int32(i32::MIN));
    assert_eq!(Value::new(DataType::Int64, "9223372036854775807").unwrap(), Value::Int64(i64::MAX));
    assert_eq!(Value::new(DataType::Int64, "-9223372036854775808").unwrap(), Value::Int64(i64::MIN));
    assert_eq!(Value::new(DataType::Uint8, "255").unwrap(), Value::Uint32(255));
    assert_eq!(Value::new(DataType::Uint16, "007").unwrap(), Value::Uint32(7));
    assert_eq!(Value::new(DataType::Uint32, "4294967295").unwrap(), Value::Uint32(u32::MAX));
    assert_eq!(Value::new(DataType::Uint64, "18446744073709551615").unwrap(), Value::Uint64(u64::MAX));
}

#[test]
fn malformed_text_is_rejected_not_coerced() {
    assert_eq!(message(Value::new(DataType::Boolean, "True")), "provided string was not `true` or `false`");
    assert_eq!(message(Value::new(DataType::Int8, "")), "cannot parse integer from empty string");
    assert_eq!(message(Value::new(DataType::Int8, "12a")), "invalid digit found in string");
    assert_eq!(message(Value::new(DataType::Int8, "-")), "invalid digit found in string");
    assert_eq!(message(Value::new(DataType::Int8, " 1")), "invalid digit found in string");
    assert_eq!(message(Value::new(DataType::Int8, "128")), "number too large to fit in target type");
    assert_eq!(message(Value::new(DataType::Int8, "-129")), "number too small to fit in target type");
    assert_eq!(message(Value::new(DataType::Uint8, "-1")), "invalid digit found in string");
    assert_eq!(message(Value::new(DataType::Uint8, "256")), "number too large to fit in target type");
    assert_eq!(message(Value::new(DataType::Uint64, "18446744073709551616")), "number too large to fit in target type");
    assert_eq!(message(Value::new(DataType::Int32, "99999999999x")), "number too large to fit in target type");
}

#[test]
fn arrays_and_timestamps_are_not_read_from_text() {
    assert_eq!(
        message(Value::new(DataType::Int8Array, "1")),
        "data type 'int8[]' not supported for parsing string into typed value"
    );
    assert!(Value::new(DataType::Timestamp, "1").is_err());
    assert!(Value::new(DataType::Unspecified, "1").is_err());
}

#[test]
fn canonical_text_round_trips() {
    let cases = [
        (DataType::String, "Vehicle.Speed"),
        (DataType::Boolean, "false"),
        (DataType::Int8, "-7"),
        (DataType::Int16, "32767"),
        (DataType::Int32, "0"),
        (DataType::Int64, "-9223372036854775808"),
        (DataType::Uint8, "200"),
        (DataType::Uint16, "65535"),
        (DataType::Uint32, "19088743"),
        (DataType::Uint64, "18446744073709551615"),
    ];
    for (dt, text) in cases {
        let v = Value::new(dt, text).unwrap();
        assert_eq!(v.to_text().unwrap(), text);
    }
    assert_eq!(Value::new(DataType::Int32, "+012").unwrap().to_text().unwrap(), "12");
    assert_eq!(Value::Float(0).to_text(), None);
    assert_eq!(Value::Int32Array(vec![1]).to_text(), None);
}

#[test]
fn decimal_text() {
    assert_eq!(parse_decimal("-0", -5, 5), Ok(0));
    assert_eq!(parse_decimal("+", -5, 5), Err(IntErrorKind::InvalidDigit));
    assert_eq!(parse_decimal("6", -5, 5), Err(IntErrorKind::PosOverflow));
    assert_eq!(parse_decimal("-6", -5, 5), Err(IntErrorKind::NegOverflow));
    assert_eq!(i64_text(-1234), "-1234");
    assert_eq!(i64_text(i64::MIN), "-9223372036854775808");
    assert_eq!(u64_text(0), "0");
    assert_eq!(u64_text(u64::MAX), "18446744073709551615");
}

#[test]
fn parsing_error_keeps_its_message() {
    let e = ParsingError::new("bad".to_string());
    assert_eq!(e.message(), "bad");
}
