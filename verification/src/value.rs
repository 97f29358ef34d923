//! Typed parameter and log values, their text rendering and their parsing
//! from text.
use vstd::prelude::*;
use crate::text::{
    decimal_string, lemma_parse_signed_decimal, parse_integer, parse_integer_spec, signed_decimal,
    signed_decimal_string, IntErrorKind,
};

verus! {

/// The type of a parameter or log variable.
#[derive(Clone, Copy, Debug, PartialEq, Eq, Structural)]
pub enum ValueType {
    U8,
    U16,
    U32,
    U64,
    I8,
    I16,
    I32,
    I64,
    F16,
    F32,
    F64,
}

impl ValueType {
    /// The lowercase label of the type, such as "u8" or "f32".
    pub open spec fn label(self) -> Seq<char> {
        match self {
            ValueType::U8 => "u8"@,
            ValueType::U16 => "u16"@,
            ValueType::U32 => "u32"@,
            ValueType::U64 => "u64"@,
            ValueType::I8 => "i8"@,
            ValueType::I16 => "i16"@,
            ValueType::I32 => "i32"@,
            ValueType::I64 => "i64"@,
            ValueType::F16 => "f16"@,
            ValueType::F32 => "f32"@,
            ValueType::F64 => "f64"@,
        }
    }

    pub open spec fn is_integer(self) -> bool {
        !(self is F16 || self is F32 || self is F64)
    }

    /// Smallest value of an integer type.
    pub open spec fn min_value(self) -> int {
        match self {
            ValueType::I8 => i8::MIN as int,
            ValueType::I16 => i16::MIN as int,
            ValueType::I32 => i32::MIN as int,
            ValueType::I64 => i64::MIN as int,
            _ => 0,
        }
    }

    /// Largest value of an integer type.
    pub open spec fn max_value(self) -> int {
        match self {
            ValueType::U8 => u8::MAX as int,
            ValueType::U16 => u16::MAX as int,
            ValueType::U32 => u32::MAX as int,
            ValueType::U64 => u64::MAX as int,
            ValueType::I8 => i8::MAX as int,
            ValueType::I16 => i16::MAX as int,
            ValueType::I32 => i32::MAX as int,
            ValueType::I64 => i64::MAX as int,
            _ => 0,
        }
    }

    pub fn is_integer_type(&self) -> (b: bool)
        ensures
            b == self.is_integer(),
    {
        match self {
            ValueType::F16 | ValueType::F32 | ValueType::F64 => false,
            _ => true,
        }
    }
}

/// The lowercase label of a value type.
pub fn format_value_type(t: ValueType) -> (s: String)
    ensures
        s@ == t.label(),
{
    let label = match t {
        ValueType::U8 => "u8",
        ValueType::U16 => "u16",
        ValueType::U32 => "u32",
        ValueType::U64 => "u64",
        ValueType::I8 => "i8",
        ValueType::I16 => "i16",
        ValueType::I32 => "i32",
        ValueType::I64 => "i64",
        ValueType::F16 => "f16",
        ValueType::F32 => "f32",
        ValueType::F64 => "f64",
    };
    String::from_str(label)
}

/// A typed value. Integer values are held as such; a floating-point value is
/// held as its decimal rendering (as the standard `Display` of the float
/// writes it), the form in which this library passes it on.
#[derive(Clone, Debug, PartialEq, Eq)]
pub enum Value {
    U8(u8),
    U16(u16),
    U32(u32),
    U64(u64),
    I8(i8),
    I16(i16),
    I32(i32),
    I64(i64),
    F16(String),
    F32(String),
    F64(String),
}

impl Value {
    pub open spec fn value_type(&self) -> ValueType {
        match self {
            Value::U8(_) => ValueType::U8,
            Value::U16(_) => ValueType::U16,
            Value::U32(_) => ValueType::U32,
            Value::U64(_) => ValueType::U64,
            Value::I8(_) => ValueType::I8,
            Value::I16(_) => ValueType::I16,
            Value::I32(_) => ValueType::I32,
            Value::I64(_) => ValueType::I64,
            Value::F16(_) => ValueType::F16,
            Value::F32(_) => ValueType::F32,
            Value::F64(_) => ValueType::F64,
        }
    }

    /// The integer an integer value holds.
    pub open spec fn as_int(&self) -> int {
        match self {
            Value::U8(x) => *x as int,
            Value::U16(x) => *x as int,
            Value::U32(x) => *x as int,
            Value::U64(x) => *x as int,
            Value::I8(x) => *x as int,
            Value::I16(x) => *x as int,
            Value::I32(x) => *x as int,
            Value::I64(x) => *x as int,
            _ => 0,
        }
    }

    /// The text of a value: decimal notation for an integer, the held
    /// rendering for a float.
    pub open spec fn text(&self) -> Seq<char> {
        match self {
            Value::F16(s) => s@,
            Value::F32(s) => s@,
            Value::F64(s) => s@,
            _ => signed_decimal(self.as_int()),
        }
    }
}

/// The integer value of type `t` that holds `i` (for `t` an integer type and
/// `i` in its range).
pub open spec fn int_value(t: ValueType, i: int) -> Value {
    match t {
        ValueType::U8 => Value::U8(i as u8),
        ValueType::U16 => Value::U16(i as u16),
        ValueType::U32 => Value::U32(i as u32),
        ValueType::U64 => Value::U64(i as u64),
        ValueType::I8 => Value::I8(i as i8),
        ValueType::I16 => Value::I16(i as i16),
        ValueType::I32 => Value::I32(i as i32),
        _ => Value::I64(i as i64),
    }
}

/// What parsing `s` as a value of the integer type `t` gives.
pub open spec fn parse_value_spec(t: ValueType, s: Seq<char>) -> Result<Value, IntErrorKind> {
    match parse_integer_spec(s, t.min_value(), t.max_value()) {
        Ok(i) => Ok(int_value(t, i)),
        Err(e) => Err(e),
    }
}

/// Renders a value as text.
pub fn format_value(v: &Value) -> (s: String)
    ensures
        s@ == v.text(),
{
    match v {
        Value::U8(x) => decimal_string(*x as u64),
        Value::U16(x) => decimal_string(*x as u64),
        Value::U32(x) => decimal_string(*x as u64),
        Value::U64(x) => decimal_string(*x),
        Value::I8(x) => signed_decimal_string(*x as i64),
        Value::I16(x) => signed_decimal_string(*x as i64),
        Value::I32(x) => signed_decimal_string(*x as i64),
        Value::I64(x) => signed_decimal_string(*x),
        Value::F16(s) => s.clone(),
        Value::F32(s) => s.clone(),
        Value::F64(s) => s.clone(),
    }
}

/// Parses `text` as a value of the integer type `t`, with the integer syntax
/// of the standard library's `str::parse` for that type.
pub fn parse_integer_value(t: ValueType, text: &str) -> (r: Result<Value, IntErrorKind>)
    requires
        t.is_integer(),
    ensures
        r == parse_value_spec(t, text@),
{
    let (lo, hi): (i128, i128) = match t {
        ValueType::U8 => (0, 0xff),
        ValueType::U16 => (0, 0xffff),
        ValueType::U32 => (0, 0xffff_ffff),
        ValueType::U64 => (0, 0xffff_ffff_ffff_ffff),
        ValueType::I8 => (-0x80, 0x7f),
        ValueType::I16 => (-0x8000, 0x7fff),
        ValueType::I32 => (-0x8000_0000, 0x7fff_ffff),
        _ => (-0x8000_0000_0000_0000, 0x7fff_ffff_ffff_ffff),
    };
    assert(lo == t.min_value() && hi == t.max_value());
    match parse_integer(text, lo, hi) {
        Ok(i) => {
            let v = match t {
                ValueType::U8 => Value::U8(i as u8),
                ValueType::U16 => Value::U16(i as u16),
                ValueType::U32 => Value::U32(i as u32),
                ValueType::U64 => Value::U64(i as u64),
                ValueType::I8 => Value::I8(i as i8),
                ValueType::I16 => Value::I16(i as i16),
                ValueType::I32 => Value::I32(i as i32),
                _ => Value::I64(i as i64),
            };
            Ok(v)
        },
        Err(e) => Err(e),
    }
}

/// Law: rendering an integer value as text and parsing the text as a value
/// of the same type gives the value back.
pub proof fn law_parse_format_roundtrip(v: Value)
    requires
        v.value_type().is_integer(),
    ensures
        parse_value_spec(v.value_type(), v.text()) == Ok::<Value, IntErrorKind>(v),
{
    let t = v.value_type();
    lemma_parse_signed_decimal(v.as_int(), t.min_value(), t.max_value());
}

/// Law: every type has its own label, which starts with 'u' for an
/// unsigned integer type, 'i' for a signed one and 'f' for a float type,
/// followed by the type's width in bits.
pub proof fn law_value_type_labels(t1: ValueType, t2: ValueType)
    ensures
        t1 != t2 ==> t1.label() != t2.label(),
        t1.label()[0] == (if t1 is F16 || t1 is F32 || t1 is F64 {
            'f'
        } else if t1.min_value() < 0 {
            'i'
        } else {
            'u'
        }),
        t1.label().drop_first() == match t1 {
            ValueType::U8 | ValueType::I8 => "8"@,
            ValueType::U16 | ValueType::I16 | ValueType::F16 => "16"@,
            ValueType::U32 | ValueType::I32 | ValueType::F32 => "32"@,
            _ => "64"@,
        },
{
    reveal_strlit("u8");
    reveal_strlit("u16");
    reveal_strlit("u32");
    reveal_strlit("u64");
    reveal_strlit("i8");
    reveal_strlit("i16");
    reveal_strlit("i32");
    reveal_strlit("i64");
    reveal_strlit("f16");
    reveal_strlit("f32");
    reveal_strlit("f64");
    reveal_strlit("8");
    reveal_strlit("16");
    reveal_strlit("32");
    reveal_strlit("64");
    assert(t1.label().drop_first() =~= match t1 {
        ValueType::U8 | ValueType::I8 => "8"@,
        ValueType::U16 | ValueType::I16 | ValueType::F16 => "16"@,
        ValueType::U32 | ValueType::I32 | ValueType::F32 => "32"@,
        _ => "64"@,
    });
    if t1 != t2 {
        if t1.label() == t2.label() {
            assert(t1.label()[0] == t2.label()[0]);
            assert(t1.label().len() == t2.label().len());
            assert(t1.label()[1] == t2.label()[1]);
        }
    }
}

} // verus!
