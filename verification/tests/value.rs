use native_boundary::value::{
    read_text, write_text, Container, Kind, Value, ValueError, TYPE_BOOLEAN, TYPE_BOXED, TYPE_INT,
    TYPE_INT64, TYPE_OBJECT, TYPE_STRING, TYPE_UINT, TYPE_UINT64,
};

const KINDS: [Kind; 9] = [
    Kind::Boolean,
    Kind::Int,
    Kind::UInt,
    Kind::Int64,
    Kind::UInt64,
    Kind::Str,
    Kind::StrList,
    Kind::Object,
    Kind::Boxed,
];

fn samples() -> Vec<Value> {
    vec![
        Value::Boolean(true),
        Value::Boolean(false),
        Value::Int(-7),
        Value::Int(i32::MIN),
        Value::UInt(0xffff_ffff),
        Value::Int64(i64::MIN),
        Value::UInt64(u64::MAX),
        Value::Str(Some(String::from("has-entry"))),
        Value::Str(Some(String::new())),
        Value::Str(Some(String::from("\u{e9}t\u{e9} \u{1f600}"))),
        Value::Str(None),
        Value::StrList(vec![String::from("a"), String::new(), String::from("b c")]),
        Value::StrList(Vec::new()),
        Value::Object(0),
        Value::Object(0x5000),
        Value::Boxed(0),
        Value::Boxed(0x5008),
    ]
}

#[test]
fn every_kind_survives_the_trip() {
    for value in samples() {
        let container = value.marshal();
        assert_eq!(container.kind(), value.kind());
        assert_eq!(container.unmarshal(value.kind()), Ok(value));
    }
}

#[test]
fn boolean_travels_as_an_integer() {
    assert_eq!(Value::Boolean(true).marshal(), Container::Boolean(1));
    assert_eq!(Value::Boolean(false).marshal(), Container::Boolean(0));
    assert_eq!(Container::Boolean(-3).unmarshal(Kind::Boolean), Ok(Value::Boolean(true)));
}

#[test]
fn string_travels_with_a_nul() {
    assert_eq!(
        Value::Str(Some(String::from("path"))).marshal(),
        Container::Str(Some(b"path\0".to_vec()))
    );
    assert_eq!(Value::Str(None).marshal(), Container::Str(None));
}

#[test]
fn string_list_travels_one_buffer_each() {
    assert_eq!(
        Value::StrList(vec![String::from("x"), String::from("yz")]).marshal(),
        Container::StrList(vec![b"x\0".to_vec(), b"yz\0".to_vec()])
    );
}

#[test]
fn integers_travel_unchanged() {
    assert_eq!(Value::Int(-1).marshal(), Container::Int(-1));
    assert_eq!(Value::UInt(7).marshal(), Container::UInt(7));
    assert_eq!(Value::Int64(-1 << 40).marshal(), Container::Int64(-1 << 40));
    assert_eq!(Value::UInt64(1 << 63).marshal(), Container::UInt64(1 << 63));
    assert_eq!(Value::Object(64).marshal(), Container::Object(64));
    assert_eq!(Value::Boxed(72).marshal(), Container::Boxed(72));
}

#[test]
fn string_with_nul_comes_back_cut() {
    let container = Value::Str(Some(String::from("a\0b"))).marshal();
    assert_eq!(container.unmarshal(Kind::Str), Ok(Value::Str(Some(String::from("a")))));
}

#[test]
fn native_buffer_is_read_up_to_the_nul() {
    let container = Container::Str(Some(b"volume\0\xff\xfe".to_vec()));
    assert_eq!(container.unmarshal(Kind::Str), Ok(Value::Str(Some(String::from("volume")))));
}

#[test]
fn null_string_is_absent() {
    assert_eq!(Container::Str(None).unmarshal(Kind::Str), Ok(Value::Str(None)));
}

#[test]
fn empty_container_has_the_kind_asked_for() {
    for kind in KINDS {
        assert_eq!(Container::empty(kind).kind(), kind);
    }
    assert_eq!(Container::empty(Kind::Boolean), Container::Boolean(0));
    assert_eq!(Container::empty(Kind::Int), Container::Int(0));
    assert_eq!(Container::empty(Kind::UInt), Container::UInt(0));
    assert_eq!(Container::empty(Kind::Int64), Container::Int64(0));
    assert_eq!(Container::empty(Kind::UInt64), Container::UInt64(0));
    assert_eq!(Container::empty(Kind::Str), Container::Str(None));
    assert_eq!(Container::empty(Kind::StrList), Container::StrList(Vec::new()));
    assert_eq!(Container::empty(Kind::Object), Container::Object(0));
    assert_eq!(Container::empty(Kind::Boxed), Container::Boxed(0));
}

#[test]
fn wrong_kind_is_a_type_mismatch() {
    for value in samples() {
        let container = value.marshal();
        for requested in KINDS {
            if requested != value.kind() {
                assert_eq!(
                    container.unmarshal(requested),
                    Err(ValueError::TypeMismatch { actual: value.kind(), requested })
                );
            }
        }
    }
}

#[test]
fn text_that_is_not_utf8_is_refused() {
    assert_eq!(
        Container::Str(Some(b"\xff\xfe\0".to_vec())).unmarshal(Kind::Str),
        Err(ValueError::InvalidText)
    );
    // A lone continuation byte, and a sequence cut short.
    assert_eq!(
        Container::Str(Some(vec![0x80, 0])).unmarshal(Kind::Str),
        Err(ValueError::InvalidText)
    );
    assert_eq!(
        Container::Str(Some(vec![0xe2, 0x82, 0])).unmarshal(Kind::Str),
        Err(ValueError::InvalidText)
    );
}

#[test]
fn one_bad_string_spoils_the_list() {
    let bufs = vec![b"ok\0".to_vec(), vec![0xc0, 0x80, 0], b"fine\0".to_vec()];
    assert_eq!(Container::StrList(bufs).unmarshal(Kind::StrList), Err(ValueError::InvalidText));
}

#[test]
fn read_text_decodes_what_the_buffer_holds() {
    assert_eq!(read_text(b"caf\xc3\xa9\0rest"), Some(String::from("caf\u{e9}")));
    assert_eq!(read_text(b"\0"), Some(String::new()));
    assert_eq!(read_text(b"\xc3\0"), None);
    // Invalid bytes behind the NUL do not count.
    assert_eq!(read_text(b"x\0\xff"), Some(String::from("x")));
}

#[test]
fn write_text_encodes_and_closes() {
    assert_eq!(write_text("caf\u{e9}"), b"caf\xc3\xa9\0".to_vec());
    assert_eq!(write_text(""), vec![0u8]);
}

#[test]
fn kinds_of_values() {
    assert_eq!(Value::Boolean(true).kind(), Kind::Boolean);
    assert_eq!(Value::Int(0).kind(), Kind::Int);
    assert_eq!(Value::UInt(0).kind(), Kind::UInt);
    assert_eq!(Value::Int64(0).kind(), Kind::Int64);
    assert_eq!(Value::UInt64(0).kind(), Kind::UInt64);
    assert_eq!(Value::Str(None).kind(), Kind::Str);
    assert_eq!(Value::StrList(Vec::new()).kind(), Kind::StrList);
    assert_eq!(Value::Object(0).kind(), Kind::Object);
    assert_eq!(Value::Boxed(0).kind(), Kind::Boxed);
}

#[test]
fn native_type_tags() {
    assert_eq!(TYPE_BOOLEAN, 5 << 2);
    assert_eq!(TYPE_INT, 6 << 2);
    assert_eq!(TYPE_UINT, 7 << 2);
    assert_eq!(TYPE_INT64, 10 << 2);
    assert_eq!(TYPE_UINT64, 11 << 2);
    assert_eq!(TYPE_STRING, 16 << 2);
    assert_eq!(TYPE_BOXED, 18 << 2);
    assert_eq!(TYPE_OBJECT, 20 << 2);
}

#[test]
fn kinds_of_native_types() {
    const STRV: usize = 0x5555_0010;
    assert_eq!(Kind::from_type(TYPE_BOOLEAN, STRV, &[20]), Some(Kind::Boolean));
    assert_eq!(Kind::from_type(TYPE_INT, STRV, &[24]), Some(Kind::Int));
    assert_eq!(Kind::from_type(TYPE_UINT, STRV, &[28]), Some(Kind::UInt));
    assert_eq!(Kind::from_type(TYPE_INT64, STRV, &[40]), Some(Kind::Int64));
    assert_eq!(Kind::from_type(TYPE_UINT64, STRV, &[44]), Some(Kind::UInt64));
    assert_eq!(Kind::from_type(TYPE_STRING, STRV, &[64]), Some(Kind::Str));
    // The list of strings is a record type, and is told apart by its tag.
    assert_eq!(Kind::from_type(STRV, STRV, &[STRV as u64, 72]), Some(Kind::StrList));
    assert_eq!(Kind::from_type(0x6000, STRV, &[0x6000, 0x5000, 80]), Some(Kind::Object));
    assert_eq!(Kind::from_type(TYPE_OBJECT, STRV, &[80]), Some(Kind::Object));
    assert_eq!(Kind::from_type(0x7000, STRV, &[0x7000, 72]), Some(Kind::Boxed));
    // A double, and a type that the native side knows nothing of.
    assert_eq!(Kind::from_type(15 << 2, STRV, &[60]), None);
    assert_eq!(Kind::from_type(0, STRV, &[]), None);
}
