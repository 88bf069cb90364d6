use native_boundary::property::{
    Lookup, PropertyError, PropertyToken, PARAM_CONSTRUCT_ONLY, PARAM_READABLE, PARAM_WRITABLE,
};
use native_boundary::value::{Container, Kind, Value};

/// A native object with a few properties, which stores the containers it
/// is handed and hands them back.
struct FakeObject {
    slots: Vec<(String, Kind, bool, bool, Container)>,
}

impl FakeObject {
    fn renderer() -> FakeObject {
        FakeObject {
            slots: vec![
                (String::from("has-entry"), Kind::Boolean, true, true, Container::Boolean(0)),
                (String::from("text-column"), Kind::Int, true, true, Container::Int(-1)),
                (String::from("title"), Kind::Str, true, true, Container::Str(None)),
                (String::from("tags"), Kind::StrList, true, true, Container::StrList(Vec::new())),
                (String::from("model"), Kind::Object, true, true, Container::Object(0)),
                (String::from("schema-id"), Kind::Str, true, false, Container::Str(Some(b"org.example\0".to_vec()))),
                (String::from("password"), Kind::Str, false, true, Container::Str(None)),
            ],
        }
    }

    fn find(&self, name: &str) -> Lookup {
        for (n, kind, readable, writable, _) in &self.slots {
            if n == name {
                return Lookup::Found { kind: *kind, readable: *readable, writable: *writable };
            }
        }
        Lookup::Missing
    }

    fn store(&mut self, name: &str, container: Container) {
        for slot in &mut self.slots {
            if slot.0 == name {
                slot.4 = container;
                return;
            }
        }
        panic!("no such property");
    }

    fn load(&self, name: &str) -> Container {
        for slot in &self.slots {
            if slot.0 == name {
                return slot.4.clone();
            }
        }
        panic!("no such property");
    }
}

fn set(object: &mut FakeObject, token: &PropertyToken, value: &Value) -> Result<(), PropertyError> {
    let container = token.plan_set(value, object.find(token.name()))?;
    object.store(token.name(), container);
    Ok(())
}

fn get(object: &FakeObject, token: &PropertyToken) -> Result<Value, PropertyError> {
    let empty = token.plan_get(object.find(token.name()))?;
    assert_eq!(empty.kind(), token.kind());
    token.finish_get(&object.load(token.name()))
}

#[test]
fn token_keeps_name_and_kind() {
    let token = PropertyToken::new("text-column", Kind::Int);
    assert_eq!(token.name(), "text-column");
    assert_eq!(token.kind(), Kind::Int);
    assert_eq!(token.native_name(), b"text-column\0".to_vec());
}

#[test]
fn set_then_get_returns_the_value() {
    let mut object = FakeObject::renderer();
    let cases = vec![
        (PropertyToken::new("has-entry", Kind::Boolean), Value::Boolean(true)),
        (PropertyToken::new("text-column", Kind::Int), Value::Int(3)),
        (PropertyToken::new("title", Kind::Str), Value::Str(Some(String::from("Columns")))),
        (
            PropertyToken::new("tags", Kind::StrList),
            Value::StrList(vec![String::from("one"), String::from("two")]),
        ),
        (PropertyToken::new("model", Kind::Object), Value::Object(0x6000)),
    ];
    for (token, value) in cases {
        assert_eq!(set(&mut object, &token, &value), Ok(()));
        assert_eq!(get(&object, &token), Ok(value));
    }
}

#[test]
fn read_only_write_is_refused_and_changes_nothing() {
    let mut object = FakeObject::renderer();
    let token = PropertyToken::new("schema-id", Kind::Str);
    let before = get(&object, &token);
    assert_eq!(before, Ok(Value::Str(Some(String::from("org.example")))));
    assert_eq!(
        set(&mut object, &token, &Value::Str(Some(String::from("other")))),
        Err(PropertyError::ReadOnly)
    );
    assert_eq!(get(&object, &token), before);
}

#[test]
fn read_only_wins_over_a_wrong_kind() {
    let token = PropertyToken::new("schema-id", Kind::Str);
    let found = Lookup::Found { kind: Kind::Str, readable: true, writable: false };
    assert_eq!(token.plan_set(&Value::Int(1), found), Err(PropertyError::ReadOnly));
}

#[test]
fn missing_property_is_told_apart_from_read_only() {
    let mut object = FakeObject::renderer();
    let token = PropertyToken::new("no-such", Kind::Int);
    assert_eq!(set(&mut object, &token, &Value::Int(1)), Err(PropertyError::NoSuchProperty));
    assert_eq!(get(&object, &token), Err(PropertyError::NoSuchProperty));
}

#[test]
fn write_only_property_cannot_be_read() {
    let mut object = FakeObject::renderer();
    let token = PropertyToken::new("password", Kind::Str);
    assert_eq!(set(&mut object, &token, &Value::Str(Some(String::from("s3")))), Ok(()));
    assert_eq!(get(&object, &token), Err(PropertyError::WriteOnly));
}

#[test]
fn property_of_another_kind_is_a_mismatch() {
    let mut object = FakeObject::renderer();
    let token = PropertyToken::new("text-column", Kind::Str);
    assert_eq!(
        get(&object, &token),
        Err(PropertyError::TypeMismatch { actual: Kind::Int, requested: Kind::Str })
    );
    assert_eq!(
        set(&mut object, &token, &Value::Str(None)),
        Err(PropertyError::TypeMismatch { actual: Kind::Int, requested: Kind::Str })
    );
}

#[test]
fn value_of_another_kind_is_a_mismatch() {
    let mut object = FakeObject::renderer();
    let token = PropertyToken::new("text-column", Kind::Int);
    assert_eq!(
        set(&mut object, &token, &Value::Boolean(true)),
        Err(PropertyError::TypeMismatch { actual: Kind::Boolean, requested: Kind::Int })
    );
    assert_eq!(get(&object, &token), Ok(Value::Int(-1)));
}

#[test]
fn container_of_another_kind_is_a_mismatch() {
    let token = PropertyToken::new("has-entry", Kind::Boolean);
    assert_eq!(
        token.finish_get(&Container::Int(1)),
        Err(PropertyError::TypeMismatch { actual: Kind::Int, requested: Kind::Boolean })
    );
}

#[test]
fn invalid_text_in_a_property() {
    let token = PropertyToken::new("title", Kind::Str);
    assert_eq!(
        token.finish_get(&Container::Str(Some(vec![0xff, 0]))),
        Err(PropertyError::InvalidText)
    );
}

#[test]
fn plan_get_hands_out_an_empty_container() {
    let token = PropertyToken::new("has-entry", Kind::Boolean);
    let found = Lookup::Found { kind: Kind::Boolean, readable: true, writable: false };
    assert_eq!(token.plan_get(found), Ok(Container::Boolean(0)));
}

#[test]
fn absent_object_property_reads_as_address_zero() {
    let object = FakeObject::renderer();
    let token = PropertyToken::new("model", Kind::Object);
    assert_eq!(get(&object, &token), Ok(Value::Object(0)));
}

#[test]
fn flags_give_the_rights() {
    let found = |readable, writable| Lookup::Found { kind: Kind::Int, readable, writable };
    assert_eq!(Lookup::from_flags(Kind::Int, 0), found(false, false));
    assert_eq!(Lookup::from_flags(Kind::Int, PARAM_READABLE), found(true, false));
    assert_eq!(Lookup::from_flags(Kind::Int, PARAM_WRITABLE), found(false, true));
    assert_eq!(Lookup::from_flags(Kind::Int, 3), found(true, true));
    // Other flags change nothing.
    assert_eq!(Lookup::from_flags(Kind::Int, 3 | 4 | 32 | 64 | 128), found(true, true));
}

#[test]
fn construct_only_property_is_read_only() {
    let flags = PARAM_READABLE | PARAM_WRITABLE | PARAM_CONSTRUCT_ONLY;
    assert_eq!(
        Lookup::from_flags(Kind::Str, flags),
        Lookup::Found { kind: Kind::Str, readable: true, writable: false }
    );
    let token = PropertyToken::new("schema-id", Kind::Str);
    assert_eq!(
        token.plan_set(&Value::Str(None), Lookup::from_flags(Kind::Str, flags)),
        Err(PropertyError::ReadOnly)
    );
}
