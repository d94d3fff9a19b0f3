use sea_value::DateTime;
use sea_value::Error;
use sea_value::Value;
use sea_value::format_date_time;
use sea_value::json_value_to_sea_value;
use sea_value::sea_value_to_json_value;

#[test]
fn json_null_becomes_no_value() {
    let j = serde_json::Value::Null;
    assert_eq!(json_value_to_sea_value(&j), Ok(Value::Null));
}

#[test]
fn json_bool_widens_to_signed_integer() {
    // Deliberate widening: boolean true becomes the signed-integer value 1,
    // not a boolean kind.
    let j = serde_json::Value::Bool(true);
    let v = json_value_to_sea_value(&j).unwrap();
    assert!(!matches!(v, Value::Bool(_)));
    let out: i32 = v.unwrap();
    assert_eq!(out, 1);

    let j = serde_json::Value::Bool(false);
    let v = json_value_to_sea_value(&j).unwrap();
    let out: i32 = v.unwrap();
    assert_eq!(out, 0);
}

#[test]
fn json_numbers_prefer_signed_then_unsigned_then_float() {
    let j = serde_json::Value::from(-40i64);
    assert_eq!(json_value_to_sea_value(&j), Ok(Value::BigInt(-40)));

    let j = serde_json::Value::from(5i64);
    assert_eq!(json_value_to_sea_value(&j), Ok(Value::BigInt(5)));

    let j = serde_json::Value::from(u64::MAX);
    assert_eq!(json_value_to_sea_value(&j), Ok(Value::BigUnsigned(u64::MAX)));

    let j = serde_json::Value::from(1.5f64);
    match json_value_to_sea_value(&j).unwrap() {
        Value::Double(bits) => assert_eq!(f64::from_bits(bits), 1.5f64),
        _ => unreachable!(),
    }
}

#[test]
fn json_text_becomes_text() {
    let j = serde_json::Value::String("hello".to_owned());
    let v = json_value_to_sea_value(&j).unwrap();
    let out: String = v.unwrap();
    assert_eq!(out, "hello");
}

#[test]
fn json_array_is_unsupported() {
    let j = serde_json::Value::Array(vec![serde_json::Value::Null]);
    assert_eq!(json_value_to_sea_value(&j), Err(Error::FailToConvert));
}

#[test]
fn json_object_is_wrapped_whole() {
    let mut map = serde_json::Map::new();
    map.insert("a".to_owned(), serde_json::Value::from(1i64));
    let j = serde_json::Value::Object(map);
    let v = json_value_to_sea_value(&j).unwrap();
    assert!(v.is_json());
    assert_eq!(v.as_ref_json(), &j);
}

#[test]
fn value_primitives_become_json_primitives() {
    assert_eq!(sea_value_to_json_value(&Value::Null), Ok(serde_json::Value::Null));
    assert_eq!(sea_value_to_json_value(&Value::Bool(true)), Ok(serde_json::Value::Bool(true)));
    assert_eq!(sea_value_to_json_value(&Value::TinyInt(-5)), Ok(serde_json::Value::from(-5i64)));
    assert_eq!(sea_value_to_json_value(&Value::SmallInt(300)), Ok(serde_json::Value::from(300i64)));
    assert_eq!(sea_value_to_json_value(&Value::Int(-70000)), Ok(serde_json::Value::from(-70000i64)));
    assert_eq!(
        sea_value_to_json_value(&Value::BigInt(8589934592)),
        Ok(serde_json::Value::from(8589934592i64))
    );
    assert_eq!(
        sea_value_to_json_value(&Value::TinyUnsigned(255)),
        Ok(serde_json::Value::from(255u64))
    );
    assert_eq!(
        sea_value_to_json_value(&Value::BigUnsigned(u64::MAX)),
        Ok(serde_json::Value::from(u64::MAX))
    );
    assert_eq!(
        sea_value_to_json_value(&Value::String(Box::new("hi".to_owned()))),
        Ok(serde_json::Value::String("hi".to_owned()))
    );
}

#[test]
fn value_bytes_reinterpret_as_utf8_text() {
    let v = Value::Bytes(Box::new(b"hello".to_vec()));
    assert_eq!(
        sea_value_to_json_value(&v),
        Ok(serde_json::Value::String("hello".to_owned()))
    );
}

#[test]
fn value_bytes_fail_on_invalid_utf8() {
    let v = Value::Bytes(Box::new(vec![0x68, 0xff, 0xfe]));
    assert_eq!(sea_value_to_json_value(&v), Err(Error::FromUtf8Error { valid_up_to: 1 }));
}

#[test]
fn value_json_passes_through_by_copy() {
    let mut map = serde_json::Map::new();
    map.insert("k".to_owned(), serde_json::Value::Bool(false));
    let j = serde_json::Value::Object(map);
    let v = Value::Json(Box::new(j.clone()));
    assert_eq!(sea_value_to_json_value(&v), Ok(j));
}

#[test]
fn value_date_time_formats_as_text() {
    let dt = DateTime::new(2021, 3, 7, 9, 5, 30).unwrap();
    assert_eq!(format_date_time(&dt), "2021-03-07 09:05:30");
    let v = Value::DateTime(Box::new(dt));
    assert_eq!(
        sea_value_to_json_value(&v),
        Ok(serde_json::Value::String("2021-03-07 09:05:30".to_owned()))
    );
}

#[test]
fn value_uuid_formats_canonically() {
    let x = 0x936da01f9abd4d9d80c702af85c822a8u128;
    let v = Value::Uuid(Box::new(x));
    assert_eq!(
        sea_value_to_json_value(&v),
        Ok(serde_json::Value::String("936da01f-9abd-4d9d-80c7-02af85c822a8".to_owned()))
    );
}

#[test]
fn json_number_round_trips_through_the_union() {
    let j = serde_json::Value::from(12345i64);
    let v = json_value_to_sea_value(&j).unwrap();
    assert_eq!(sea_value_to_json_value(&v), Ok(j));
}
