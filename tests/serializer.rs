use spa_json::escape::escape_string;
use spa_json::spa_json_serializer::{to_string, Error, Serializer};
use spa_json::value::Value;

fn s(text: &str) -> String {
    text.to_owned()
}

fn str_value(text: &str) -> Value {
    Value::Str(s(text))
}

#[test]
fn test_struct() {
    let test = Value::Record(vec![
        (s("int"), Value::U64(1)),
        (s("seq"), Value::Sequence(vec![str_value("a"), str_value("b")])),
        (s("str"), str_value("string")),
    ]);
    let expected = "{\n  int = 1\n  seq = [\n    a\n    b\n  ]\n  str = string\n}";
    assert_eq!(to_string(&test).unwrap(), expected);
}

#[test]
fn test_enum() {
    let u = Value::UnitVariant(s("Unit"));
    let expected = "Unit";
    assert_eq!(to_string(&u).unwrap(), expected);

    let n = Value::NewtypeVariant(s("Newtype"), Box::new(Value::U64(1)));
    let expected = "{ Newtype = 1 }";
    assert_eq!(to_string(&n).unwrap(), expected);

    let t = Value::TupleVariant(s("Tuple"), vec![Value::U64(1), Value::U64(2)]);
    let expected = "{\n  Tuple = [\n    1\n    2\n  ]\n}";
    assert_eq!(to_string(&t).unwrap(), expected);

    let st = Value::StructVariant(s("Struct"), vec![(s("a"), Value::U64(1))]);
    let expected = "{\n  Struct = {\n    a = 1\n  }\n}";
    assert_eq!(to_string(&st).unwrap(), expected);
}

#[test]
fn quoted_string_is_escaped_without_quotes() {
    let v = str_value("He said \"hi\"\n");
    assert_eq!(to_string(&v).unwrap(), "He said \\\"hi\\\"\\n");
}

#[test]
fn all_seven_escapes() {
    let out = escape_string("\"\\\n\r\t\u{0008}\u{000C}");
    assert_eq!(out, "\\\"\\\\\\n\\r\\t\\b\\f");
}

#[test]
fn other_characters_pass_through() {
    assert_eq!(escape_string("Horst Schlämmer [x] {y} = é"), "Horst Schlämmer [x] {y} = é");
    assert_eq!(escape_string(""), "");
}

fn unescape(t: &str) -> String {
    let mut out = String::new();
    let mut chars = t.chars();
    while let Some(c) = chars.next() {
        if c == '\\' {
            match chars.next() {
                Some('n') => out.push('\n'),
                Some('r') => out.push('\r'),
                Some('t') => out.push('\t'),
                Some('b') => out.push('\u{0008}'),
                Some('f') => out.push('\u{000C}'),
                Some(other) => out.push(other),
                None => out.push('\\'),
            }
        } else {
            out.push(c);
        }
    }
    out
}

#[test]
fn escape_round_trips_through_unescape() {
    let original = "a\"b\\c\nd\re\tf\u{0008}g\u{000C}h\\n";
    let text = to_string(&str_value(original)).unwrap();
    assert_eq!(unescape(&text), original);
}

#[test]
fn primitives_have_no_layout() {
    assert_eq!(to_string(&Value::Bool(true)).unwrap(), "true");
    assert_eq!(to_string(&Value::Bool(false)).unwrap(), "false");
    assert_eq!(to_string(&Value::Null).unwrap(), "null");
    assert_eq!(to_string(&Value::I64(-42)).unwrap(), "-42");
    assert_eq!(to_string(&Value::I64(0)).unwrap(), "0");
    assert_eq!(to_string(&Value::Char('\t')).unwrap(), "\\t");
    assert_eq!(to_string(&Value::Float(s("55.33333"))).unwrap(), "55.33333");
}

#[test]
fn integers_round_trip_through_parsing() {
    for n in [i64::MIN, -1234567, -1, 0, 7, 10, i64::MAX] {
        let text = to_string(&Value::I64(n)).unwrap();
        assert_eq!(text.parse::<i64>().unwrap(), n);
    }
    for n in [0u64, 9, 10, 100, 18446744073709551615] {
        let text = to_string(&Value::U64(n)).unwrap();
        assert_eq!(text.parse::<u64>().unwrap(), n);
    }
    assert_eq!(to_string(&Value::U64(u64::MAX)).unwrap(), "18446744073709551615");
    assert_eq!(to_string(&Value::I64(i64::MIN)).unwrap(), "-9223372036854775808");
}

#[test]
fn empty_sequence_and_map() {
    assert_eq!(to_string(&Value::Sequence(vec![])).unwrap(), "[\n]");
    assert_eq!(to_string(&Value::Mapping(vec![])).unwrap(), "{\n}");
    assert_eq!(to_string(&Value::Record(vec![])).unwrap(), "{\n}");
}

#[test]
fn bytes_are_a_sequence_of_integers() {
    let v = Value::Bytes(vec![0, 255, 7]);
    assert_eq!(to_string(&v).unwrap(), "[\n  0\n  255\n  7\n]");
}

#[test]
fn nested_closing_brackets_step_back() {
    let v = Value::Sequence(vec![
        Value::Sequence(vec![Value::Sequence(vec![Value::U64(1)])]),
        Value::U64(2),
    ]);
    let expected = "[\n  [\n    [\n      1\n    ]\n  ]\n  2\n]";
    assert_eq!(to_string(&v).unwrap(), expected);
}

#[test]
fn map_keys_may_be_compound() {
    let v = Value::Mapping(vec![
        (str_value("k"), Value::Bool(true)),
        (Value::Sequence(vec![Value::U64(1)]), Value::Null),
    ]);
    let expected = "{\n  k = true\n  [\n    1\n  ] = null\n}";
    assert_eq!(to_string(&v).unwrap(), expected);
}

#[test]
fn map_keeps_insertion_order() {
    let v = Value::Mapping(vec![
        (str_value("z"), Value::U64(1)),
        (str_value("a"), Value::U64(2)),
    ]);
    assert_eq!(to_string(&v).unwrap(), "{\n  z = 1\n  a = 2\n}");
}

#[test]
fn variants_nested_in_a_record() {
    let v = Value::Record(vec![
        (s("t"), Value::TupleVariant(s("T"), vec![Value::I64(-1)])),
        (s("n"), Value::NewtypeVariant(s("N"), Box::new(Value::Sequence(vec![Value::U64(3)])))),
    ]);
    let expected = "{\n  t = {\n    T = [\n      -1\n    ]\n  }\n  n = { N = [\n    3\n  ] }\n}";
    assert_eq!(to_string(&v).unwrap(), expected);
}

#[test]
fn indentation_returns_to_start() {
    let v = Value::StructVariant(
        s("S"),
        vec![(s("x"), Value::Sequence(vec![Value::Mapping(vec![(Value::U64(1), Value::U64(2))])]))],
    );
    let mut ser = Serializer::new();
    assert_eq!(ser.current_indent(), 0);
    ser.serialize(&v);
    assert_eq!(ser.current_indent(), 0);
    ser.indent();
    ser.serialize(&v);
    assert_eq!(ser.current_indent(), 2);
}

#[test]
fn protocol_calls_by_hand() {
    let mut ser = Serializer::new();
    ser.serialize_seq();
    ser.serialize_element(&Value::U64(1));
    ser.write_indent();
    ser.serialize_map();
    ser.serialize_key(&str_value("a"));
    ser.serialize_value(&Value::I64(-3));
    ser.serialize_field("b", &Value::Bool(false));
    ser.end_map();
    ser.serialize_unit();
    ser.dedent();
    ser.dedent();
    ser.dedent();
    assert_eq!(ser.current_indent(), 0);
    assert_eq!(ser.into_output(), "[\n  1\n  {\n    a = -3\n    b = false\n  }null");
}

#[test]
fn small_integer_kinds() {
    let mut ser = Serializer::new();
    ser.serialize_i8(-128);
    ser.serialize_i16(300);
    ser.serialize_i32(-70000);
    ser.serialize_u8(255);
    ser.serialize_u16(65535);
    ser.serialize_u32(4294967295);
    ser.serialize_none();
    ser.serialize_unit_variant("A\"");
    assert_eq!(ser.into_output(), "-128300-70000255655354294967295nullA\\\"");
}

#[test]
fn tuple_and_struct_variant_calls() {
    let mut ser = Serializer::new();
    ser.serialize_tuple_variant("T");
    assert_eq!(ser.current_indent(), 4);
    ser.serialize_element(&Value::U64(5));
    ser.end_tuple_variant();
    assert_eq!(ser.current_indent(), 0);
    assert_eq!(ser.into_output(), "{\n  T = [\n    5\n  ]\n}");

    let mut ser = Serializer::new();
    ser.serialize_struct_variant("S");
    ser.serialize_field("f", &Value::Char('"'));
    ser.end_struct_variant();
    assert_eq!(ser.into_output(), "{\n  S = {\n    f = \\\"\n  }\n}");

    let mut ser = Serializer::new();
    ser.serialize_newtype_variant("N", &Value::Null);
    ser.serialize_bytes(&[1, 2]);
    ser.serialize_str("x\ny");
    ser.serialize_char('c');
    ser.serialize_float_text("1.5");
    assert_eq!(ser.into_output(), "{ N = null }[\n  1\n  2\n]x\\nyc1.5");
}

#[test]
fn dedent_stops_at_zero() {
    let mut ser = Serializer::new();
    ser.dedent();
    assert_eq!(ser.current_indent(), 0);
    ser.indent();
    ser.indent();
    ser.write_indent();
    assert_eq!(ser.into_output(), "    ");
}

#[test]
fn errors_describe_themselves() {
    let e = Error::custom(s("no finite value"));
    assert_eq!(e.describe(), "no finite value");
    assert!(matches!(e, Error::Message(_)));
    let io = std::io::Error::new(std::io::ErrorKind::Other, "disk full");
    let e = Error::from(io);
    assert!(matches!(e, Error::Io(_)));
    assert_eq!(e.describe(), "IO error: disk full");
}
