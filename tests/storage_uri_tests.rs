use storage_uri::{DeserializationError, JsonObject, JsonValue, StorageUri};

fn object(members: Vec<(&str, JsonValue)>) -> JsonObject {
    let mut obj = JsonObject::new();
    for (key, value) in members {
        obj.insert(key.to_string(), value);
    }
    obj
}

fn round_trip(s: &str) {
    let original = StorageUri::new(s.to_string());
    let wire = original.serialize();
    let back = StorageUri::deserialize(&wire).expect("the wire form reads back");
    assert_eq!(back, original);
    assert_eq!(back.location, s);
}

#[test]
fn round_trip_keeps_location() {
    round_trip("s3://bucket1/path/to/object");
    round_trip("");
    round_trip("gs://bucket/dir/");
    round_trip("  spaces and \"quotes\" \\ and ünïcödé ✓ ");
    round_trip("not a uri at all");
}

#[test]
fn new_stores_location_verbatim() {
    let u = StorageUri::new("s3://bucket/key/".to_string());
    assert_eq!(u.location, "s3://bucket/key/");
}

#[test]
fn default_has_empty_location() {
    let d = StorageUri::default();
    assert_eq!(d.location, "");
    assert_eq!(d, StorageUri::new(String::new()));
}

#[test]
fn equality_follows_location() {
    let a = StorageUri::new("s3://a/x".to_string());
    let a2 = StorageUri::new("s3://a/x".to_string());
    let b = StorageUri::new("s3://a/y".to_string());
    assert!(a == a);
    assert!(a == a2 && a2 == a);
    assert!(a != b && b != a);
    assert!(StorageUri::new("x".to_string()) != StorageUri::new("x/".to_string()));
}

#[test]
fn missing_location_is_an_error() {
    let empty = JsonObject::new();
    assert_eq!(
        StorageUri::deserialize(&empty),
        Err(DeserializationError::MissingField)
    );
    let other = object(vec![("path", JsonValue::Str("s3://b/k".to_string()))]);
    assert_eq!(
        StorageUri::deserialize(&other),
        Err(DeserializationError::MissingField)
    );
}

#[test]
fn location_of_wrong_type_is_an_error() {
    let number = object(vec![("location", JsonValue::Number(42))]);
    assert_eq!(
        StorageUri::deserialize(&number),
        Err(DeserializationError::InvalidType)
    );
    let flag = object(vec![("location", JsonValue::Bool(true))]);
    assert_eq!(
        StorageUri::deserialize(&flag),
        Err(DeserializationError::InvalidType)
    );
    let null = object(vec![("location", JsonValue::Null)]);
    assert_eq!(
        StorageUri::deserialize(&null),
        Err(DeserializationError::InvalidType)
    );
}

#[test]
fn deserialize_then_serialize_reproduces_object() {
    let input = object(vec![(
        "location",
        JsonValue::Str("s3://bucket1/path/to/object".to_string()),
    )]);
    let value = StorageUri::deserialize(&input).expect("a valid object");
    assert_eq!(value.location, "s3://bucket1/path/to/object");
    let again = value.serialize();
    assert_eq!(again, input);
    assert_eq!(again.len(), 1);
    assert_eq!(
        again.get("location"),
        Some(&JsonValue::Str("s3://bucket1/path/to/object".to_string()))
    );
}

#[test]
fn other_members_are_ignored() {
    let input = object(vec![
        ("size", JsonValue::Number(7)),
        ("location", JsonValue::Str("s3://b/k".to_string())),
        ("extra", JsonValue::Null),
    ]);
    let value = StorageUri::deserialize(&input).expect("a valid object");
    assert_eq!(value, StorageUri::new("s3://b/k".to_string()));
}

#[test]
fn serialize_uses_location_key() {
    let wire = StorageUri::new("s3://b/k".to_string()).serialize();
    assert_eq!(wire.len(), 1);
    assert_eq!(wire.get("location"), Some(&JsonValue::Str("s3://b/k".to_string())));
    assert_eq!(wire.get("Location"), None);
}

#[test]
fn insert_replaces_in_place_and_appends_new_keys() {
    let mut obj = object(vec![
        ("a", JsonValue::Number(1)),
        ("b", JsonValue::Number(2)),
    ]);
    obj.insert("a".to_string(), JsonValue::Number(3));
    assert_eq!(obj.len(), 2);
    assert_eq!(obj.get("a"), Some(&JsonValue::Number(3)));
    assert_eq!(
        obj,
        object(vec![("a", JsonValue::Number(3)), ("b", JsonValue::Number(2))])
    );
    obj.insert("c".to_string(), JsonValue::Bool(false));
    assert_eq!(obj.len(), 3);
    assert_eq!(obj.get("c"), Some(&JsonValue::Bool(false)));
}

#[test]
fn object_equality_depends_on_member_order() {
    let ab = object(vec![("a", JsonValue::Null), ("b", JsonValue::Null)]);
    let ba = object(vec![("b", JsonValue::Null), ("a", JsonValue::Null)]);
    assert_ne!(ab, ba);
    assert_eq!(ab, object(vec![("a", JsonValue::Null), ("b", JsonValue::Null)]));
    assert_ne!(JsonObject::new(), ab);
}

#[test]
fn json_values_compare_by_kind_and_content() {
    assert_eq!(JsonValue::Number(42), JsonValue::Number(42));
    assert_ne!(JsonValue::Number(42), JsonValue::Str("42".to_string()));
    assert_ne!(JsonValue::Bool(true), JsonValue::Bool(false));
    assert_eq!(JsonValue::Null, JsonValue::Null);
}
