use sea_value::DateTime;
use sea_value::Error;
use sea_value::Value;
use sea_value::ValueType;
use sea_value::Values;

#[test]
fn test_value() {
    let val: u8 = 255;
    let v: Value = val.to_value();
    let out: u8 = v.unwrap();
    assert_eq!(out, val);

    let val: u16 = 65535;
    let v: Value = val.to_value();
    let out: u16 = v.unwrap();
    assert_eq!(out, val);

    let val: i8 = 127;
    let v: Value = val.to_value();
    let out: i8 = v.unwrap();
    assert_eq!(out, val);

    let val: i16 = 32767;
    let v: Value = val.to_value();
    let out: i16 = v.unwrap();
    assert_eq!(out, val);

    let val: i32 = 1073741824;
    let v: Value = val.to_value();
    let out: i32 = v.unwrap();
    assert_eq!(out, val);

    let val: i64 = 8589934592;
    let v: Value = val.to_value();
    let out: i64 = v.unwrap();
    assert_eq!(out, val);
}

#[test]
fn test_box_value() {
    let val: String = "hello".to_owned();
    let v: Value = val.clone().to_value();
    let out: String = v.unwrap();
    assert_eq!(out, val);
}

#[test]
fn round_trip_every_scalar_kind() {
    let v: Value = true.to_value();
    assert_eq!(v, Value::Bool(true));
    let out: bool = v.unwrap();
    assert!(out);

    let v: Value = (-7i8).to_value();
    let out: i8 = v.unwrap();
    assert_eq!(out, -7);

    let v: Value = 3000000000u32.to_value();
    let out: u32 = v.unwrap();
    assert_eq!(out, 3000000000);

    let v: Value = 18446744073709551615u64.to_value();
    let out: u64 = v.unwrap();
    assert_eq!(out, 18446744073709551615);

    let val: Vec<u8> = vec![1, 2, 3];
    let v: Value = val.clone().to_value();
    let out: Vec<u8> = v.unwrap();
    assert_eq!(out, val);
}

#[test]
fn optional_present_constructs_the_kind() {
    let v: Value = Some(42i32).to_value();
    assert_eq!(v, Value::Int(42));
    let out: Option<i32> = v.unwrap();
    assert_eq!(out, Some(42));
}

#[test]
fn optional_absent_constructs_no_value() {
    let v: Value = None::<i32>.to_value();
    assert_eq!(v, Value::Null);
    let out: Option<i32> = Value::Null.unwrap();
    assert_eq!(out, None);
}

#[test]
fn float_kinds_carry_bit_patterns() {
    let v = Value::Float(1.5f32.to_bits());
    match v {
        Value::Float(bits) => assert_eq!(f32::from_bits(bits), 1.5f32),
        _ => unreachable!(),
    }
    let v = Value::Double(2.25f64.to_bits());
    match v {
        Value::Double(bits) => assert_eq!(f64::from_bits(bits), 2.25f64),
        _ => unreachable!(),
    }
}

#[test]
fn capability_predicates_match_only_their_kind() {
    let v = Value::Bool(true);
    assert!(!v.is_json());
    assert!(!v.is_date_time());
    assert!(!v.is_uuid());

    let j = Value::Json(Box::new(serde_json::Value::Null));
    assert!(j.is_json());
    assert!(!j.is_date_time());
    assert!(!j.is_uuid());
    assert_eq!(j.as_ref_json(), &serde_json::Value::Null);

    let dt = DateTime::new(2021, 3, 7, 9, 5, 30).unwrap();
    let d = Value::DateTime(Box::new(dt));
    assert!(d.is_date_time());
    assert!(!d.is_json());
    assert_eq!(d.as_ref_date_time(), &dt);

    let u = Value::Uuid(Box::new(0x936da01f9abd4d9d80c702af85c822a8u128));
    assert!(u.is_uuid());
    assert!(!u.is_json());
    assert_eq!(u.as_ref_uuid(), &0x936da01f9abd4d9d80c702af85c822a8u128);
}

#[test]
fn value_is_two_words() {
    // One tag word beside one pointer-sized payload: wide payloads are boxed,
    // so the size is independent of which optional kinds exist.
    assert_eq!(std::mem::size_of::<Value>(), 2 * std::mem::size_of::<u64>());
}

#[test]
fn date_time_rejects_out_of_range_fields() {
    assert!(DateTime::new(2021, 3, 7, 9, 5, 30).is_some());
    assert!(DateTime::new(2021, 13, 7, 9, 5, 30).is_none());
    assert!(DateTime::new(2021, 0, 7, 9, 5, 30).is_none());
    assert!(DateTime::new(2021, 3, 32, 9, 5, 30).is_none());
    assert!(DateTime::new(2021, 3, 7, 24, 5, 30).is_none());
    assert!(DateTime::new(2021, 3, 7, 9, 60, 30).is_none());
    assert!(DateTime::new(2021, 3, 7, 9, 5, 60).is_none());
    assert!(DateTime::new(10000, 3, 7, 9, 5, 30).is_none());
}

#[test]
fn date_time_rejects_impossible_calendar_days() {
    assert!(DateTime::new(2021, 3, 31, 0, 0, 0).is_some());
    assert!(DateTime::new(2021, 4, 31, 0, 0, 0).is_none());
    assert!(DateTime::new(2021, 2, 29, 0, 0, 0).is_none());
    assert!(DateTime::new(2020, 2, 29, 0, 0, 0).is_some());
    assert!(DateTime::new(1900, 2, 29, 0, 0, 0).is_none());
    assert!(DateTime::new(2000, 2, 29, 0, 0, 0).is_some());
    assert!(DateTime::new(2021, 11, 31, 0, 0, 0).is_none());
}

#[test]
fn capability_kinds_convert_through_the_trait() {
    let j = serde_json::Value::String("k".to_owned());
    let v: Value = j.clone().to_value();
    assert!(v.is_json());
    let out: serde_json::Value = v.unwrap();
    assert_eq!(out, j);

    let dt = DateTime::new(1999, 12, 31, 23, 59, 59).unwrap();
    let v: Value = dt.to_value();
    assert!(v.is_date_time());
    let out: DateTime = v.unwrap();
    assert_eq!(out, dt);

    let x = 0x936da01f9abd4d9d80c702af85c822a8u128;
    let v: Value = x.to_value();
    assert!(v.is_uuid());
    let out: u128 = v.unwrap();
    assert_eq!(out, x);

    let v: Value = None::<u128>.to_value();
    assert_eq!(v, Value::Null);
    let out: Option<DateTime> = Value::Null.unwrap();
    assert_eq!(out, None);
    let v: Value = Some(dt).to_value();
    let out: Option<DateTime> = v.unwrap();
    assert_eq!(out, Some(dt));
}

#[test]
fn count_mismatch_errors_compare_structurally() {
    let a = Error::ColValNumMismatch { col_len: 3, val_len: 2 };
    let b = Error::ColValNumMismatch { col_len: 3, val_len: 2 };
    let c = Error::ColValNumMismatch { col_len: 2, val_len: 3 };
    assert_eq!(a, b);
    assert_ne!(a, c);
    assert_ne!(a, Error::FailToConvert);
}

#[test]
fn error_messages_render() {
    let e = Error::ColValNumMismatch { col_len: 30, val_len: 2 };
    assert_eq!(e.message(), "Columns and values length mismatch: 30 != 2");
    assert_eq!(Error::FailToConvert.message(), "Fail to convert");
    let e = Error::ColValNumMismatch { col_len: 0, val_len: 100 };
    assert_eq!(e.message(), "Columns and values length mismatch: 0 != 100");
    let e = Error::FromUtf8Error { valid_up_to: 17 };
    assert_eq!(e.message(), "Fail FromUtf8Error: valid up to 17");
}

#[test]
fn values_keep_order() {
    let vs = Values(vec![Value::Int(1), Value::Null, Value::Bool(true)]);
    assert_eq!(vs.len(), 3);
    assert_eq!(vs.get(0), &Value::Int(1));
    assert_eq!(vs.get(1), &Value::Null);
    assert_eq!(vs.get(2), &Value::Bool(true));
}
