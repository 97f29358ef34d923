use crazyflie_agent_cli::text::{decimal_string, parse_integer, signed_decimal_string, IntErrorKind};
use crazyflie_agent_cli::value::{
    format_value, format_value_type, parse_integer_value, Value, ValueType,
};

#[test]
fn decimal_rendering_of_edges() {
    assert_eq!(decimal_string(0), "0");
    assert_eq!(decimal_string(7), "7");
    assert_eq!(decimal_string(10), "10");
    assert_eq!(decimal_string(1234567890), "1234567890");
    assert_eq!(decimal_string(u64::MAX), u64::MAX.to_string());
    assert_eq!(signed_decimal_string(-42), "-42");
    assert_eq!(signed_decimal_string(0), "0");
    assert_eq!(signed_decimal_string(i64::MIN), "-9223372036854775808");
    assert_eq!(signed_decimal_string(i64::MAX), "9223372036854775807");
}

#[test]
fn parse_integer_accepts_signs_and_digits() {
    assert_eq!(parse_integer("+5", 0, 255), Ok(5));
    assert_eq!(parse_integer("0042", 0, 255), Ok(42));
    assert_eq!(parse_integer("-128", -128, 127), Ok(-128));
    assert_eq!(parse_integer("255", 0, 255), Ok(255));
}

#[test]
fn parse_integer_error_kinds() {
    assert_eq!(parse_integer("", 0, 255), Err(IntErrorKind::Empty));
    assert_eq!(parse_integer("+", 0, 255), Err(IntErrorKind::InvalidDigit));
    assert_eq!(parse_integer("-", -128, 127), Err(IntErrorKind::InvalidDigit));
    assert_eq!(parse_integer("-5", 0, 255), Err(IntErrorKind::InvalidDigit));
    assert_eq!(parse_integer("12a", 0, 255), Err(IntErrorKind::InvalidDigit));
    assert_eq!(parse_integer(" 1", 0, 255), Err(IntErrorKind::InvalidDigit));
    assert_eq!(parse_integer("256", 0, 255), Err(IntErrorKind::PosOverflow));
    assert_eq!(parse_integer("999a", 0, 255), Err(IntErrorKind::PosOverflow));
    assert_eq!(parse_integer("-129", -128, 127), Err(IntErrorKind::NegOverflow));
}

#[test]
fn error_descriptions_match_std() {
    assert_eq!(IntErrorKind::Empty.description(), "".parse::<u8>().unwrap_err().to_string());
    assert_eq!(IntErrorKind::InvalidDigit.description(), "x".parse::<u8>().unwrap_err().to_string());
    assert_eq!(IntErrorKind::PosOverflow.description(), "300".parse::<u8>().unwrap_err().to_string());
    assert_eq!(IntErrorKind::NegOverflow.description(), "-300".parse::<i8>().unwrap_err().to_string());
}

fn std_parse(t: ValueType, s: &str) -> Result<Value, String> {
    fn e<E: ToString>(x: E) -> String {
        x.to_string()
    }
    match t {
        ValueType::U8 => s.parse::<u8>().map(Value::U8).map_err(e),
        ValueType::U16 => s.parse::<u16>().map(Value::U16).map_err(e),
        ValueType::U32 => s.parse::<u32>().map(Value::U32).map_err(e),
        ValueType::U64 => s.parse::<u64>().map(Value::U64).map_err(e),
        ValueType::I8 => s.parse::<i8>().map(Value::I8).map_err(e),
        ValueType::I16 => s.parse::<i16>().map(Value::I16).map_err(e),
        ValueType::I32 => s.parse::<i32>().map(Value::I32).map_err(e),
        ValueType::I64 => s.parse::<i64>().map(Value::I64).map_err(e),
        _ => unreachable!(),
    }
}

#[test]
fn integer_parsing_agrees_with_std() {
    let types = [
        ValueType::U8, ValueType::U16, ValueType::U32, ValueType::U64,
        ValueType::I8, ValueType::I16, ValueType::I32, ValueType::I64,
    ];
    let inputs = [
        "", "+", "-", "0", "-0", "+0", "1", "-1", "+17", "127", "128", "-128", "-129", "255", "256",
        "32767", "32768", "-32768", "-32769", "65535", "65536", "2147483647", "2147483648",
        "-2147483648", "-2147483649", "4294967295", "4294967296", "9223372036854775807",
        "9223372036854775808", "-9223372036854775808", "-9223372036854775809",
        "18446744073709551615", "18446744073709551616", "99999999999999999999999", "1a", "a1",
        "1 ", " 1", "1_000", "--1", "+-1", "0x10", "1.5", "not_a_number", "٣",
    ];
    for t in types {
        for s in inputs {
            let ours = parse_integer_value(t, s).map_err(|k| k.description());
            assert_eq!(ours, std_parse(t, s), "type {:?} input {:?}", t, s);
        }
    }
}

#[test]
fn value_type_labels() {
    let all = [
        (ValueType::U8, "u8"), (ValueType::U16, "u16"), (ValueType::U32, "u32"),
        (ValueType::U64, "u64"), (ValueType::I8, "i8"), (ValueType::I16, "i16"),
        (ValueType::I32, "i32"), (ValueType::I64, "i64"), (ValueType::F16, "f16"),
        (ValueType::F32, "f32"), (ValueType::F64, "f64"),
    ];
    for (t, label) in all {
        assert_eq!(format_value_type(t), label);
        assert_eq!(t.is_integer_type(), !label.starts_with('f'));
    }
}

#[test]
fn value_formatting() {
    assert_eq!(format_value(&Value::U8(200)), "200");
    assert_eq!(format_value(&Value::I8(-128)), "-128");
    assert_eq!(format_value(&Value::U64(u64::MAX)), "18446744073709551615");
    assert_eq!(format_value(&Value::I64(i64::MIN)), "-9223372036854775808");
    assert_eq!(format_value(&Value::F32(1.5f32.to_string())), "1.5");
    assert_eq!(format_value(&Value::F64("0.1".to_string())), "0.1");
}

#[test]
fn format_then_parse_gives_the_value_back() {
    let values = [
        Value::U8(0), Value::U8(255), Value::U16(65535), Value::U32(4294967295),
        Value::U64(u64::MAX), Value::I8(-128), Value::I8(127), Value::I16(-32768),
        Value::I32(i32::MIN), Value::I64(i64::MIN), Value::I64(i64::MAX), Value::I32(-1),
    ];
    for v in values {
        let t = match &v {
            Value::U8(_) => ValueType::U8,
            Value::U16(_) => ValueType::U16,
            Value::U32(_) => ValueType::U32,
            Value::U64(_) => ValueType::U64,
            Value::I8(_) => ValueType::I8,
            Value::I16(_) => ValueType::I16,
            Value::I32(_) => ValueType::I32,
            Value::I64(_) => ValueType::I64,
            _ => unreachable!(),
        };
        let text = format_value(&v);
        assert_eq!(parse_integer_value(t, &text), Ok(v));
    }
}
