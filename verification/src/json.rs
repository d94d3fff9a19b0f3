//! The JSON bridge: mapping between a structured-JSON value and the union.
//!
//! A structured-JSON value is opaque here. Going in, a trusted
//! classification (`shape_of`, realised by `json_shape`) turns the one layer
//! the bridge reads into plain data, and the verified mapping works on
//! that. Going out, every JSON primitive the bridge writes is built by one
//! trusted builder whose result is named (`json_prim_of`), so the contract
//! pins which primitive is produced for every kind of the union.
use serde_json::Number as JsonNumber;
use serde_json::Value as JsonValue;
use vstd::prelude::*;

use crate::error::Error;
use crate::value::Value;

verus! {

#[verifier::external_type_specification]
#[verifier::external_body]
pub struct ExJsonValue(JsonValue);

#[verifier::external_type_specification]
#[verifier::external_body]
pub struct ExJsonNumber(JsonNumber);

/// Relies on `serde_json::Value::clone`: the clone equals the original.
pub assume_specification[ <JsonValue as Clone>::clone ](v: &JsonValue) -> (r: JsonValue)
    ensures
        r == *v,
;

/// How a JSON number is stored: a signed integer, an unsigned integer above
/// `i64::MAX`, or a float held by its IEEE-754 bit pattern.
#[derive(Debug, Clone, Copy, PartialEq, Eq, Structural)]
pub enum NumberRepr {
    Int(i64),
    Uint(u64),
    FloatBits(u64),
}

/// The one layer of a JSON value that the bridge reads, as plain data. The
/// payload of an object is kept whole, to be wrapped without decomposition;
/// an array's contents are never read, since arrays are unsupported here.
pub enum JsonShape {
    Null,
    Bool(bool),
    Number(NumberRepr),
    Text(String),
    Array,
    Object(JsonValue),
}

/// The classification of a JSON value: the name of what `json_shape`
/// returns, a function of the value alone.
pub uninterp spec fn shape_of(v: JsonValue) -> JsonShape;

/// Relies on `serde_json::Number::as_i64`, `as_u64` and `as_f64`: a number
/// is stored as exactly one of a signed integer, an unsigned integer above
/// `i64::MAX` (`as_i64` is consulted first), or a float.
#[verifier::external_body]
fn number_repr(n: &JsonNumber) -> (r: NumberRepr)
    ensures
        r matches NumberRepr::Uint(u) ==> u > i64::MAX,
{
    if let Some(i) = n.as_i64() {
        NumberRepr::Int(i)
    } else if let Some(u) = n.as_u64() {
        NumberRepr::Uint(u)
    } else {
        // A number that is neither an i64 nor a u64 is stored as a float,
        // on which as_f64 always succeeds; the fallback is unreachable.
        NumberRepr::FloatBits(n.as_f64().map(|x| x.to_bits()).unwrap_or(0))
    }
}

/// Relies on the variants of `serde_json::Value`: one arm per variant, the
/// number classified by `number_repr`, the object kept whole by `clone`.
#[verifier::external_body]
fn json_shape(v: &JsonValue) -> (s: JsonShape)
    ensures
        s == shape_of(*v),
        s matches JsonShape::Object(j) ==> j == *v,
        s matches JsonShape::Number(NumberRepr::Uint(u)) ==> u > i64::MAX,
{
    match v {
        JsonValue::Null => JsonShape::Null,
        JsonValue::Bool(b) => JsonShape::Bool(*b),
        JsonValue::Number(n) => JsonShape::Number(number_repr(n)),
        JsonValue::String(s) => JsonShape::Text(s.clone()),
        JsonValue::Array(_) => JsonShape::Array,
        JsonValue::Object(_) => JsonShape::Object(v.clone()),
    }
}

/// A JSON primitive the bridge writes, as plain data.
pub enum JsonPrim {
    Null,
    Bool(bool),
    Int(i64),
    Uint(u64),
    Text(String),
}

/// The mathematical form of a written JSON primitive.
pub enum JsonPrimView {
    Null,
    Bool(bool),
    Int(i64),
    Uint(u64),
    Text(Seq<char>),
}

impl View for JsonPrim {
    type V = JsonPrimView;

    open spec fn view(&self) -> JsonPrimView {
        match self {
            JsonPrim::Null => JsonPrimView::Null,
            JsonPrim::Bool(b) => JsonPrimView::Bool(*b),
            JsonPrim::Int(i) => JsonPrimView::Int(*i),
            JsonPrim::Uint(u) => JsonPrimView::Uint(*u),
            JsonPrim::Text(s) => JsonPrimView::Text(s@),
        }
    }
}

/// The JSON value holding a given primitive: the name of what `json_prim`
/// returns, a function of the primitive alone.
pub uninterp spec fn json_prim_of(p: JsonPrimView) -> JsonValue;

/// Relies on the constructors of `serde_json::Value` and its `From` impls
/// for `i64` and `u64`: one arm per primitive, each a function of the
/// argument alone.
#[verifier::external_body]
fn json_prim(p: JsonPrim) -> (r: JsonValue)
    ensures
        r == json_prim_of(p@),
{
    match p {
        JsonPrim::Null => JsonValue::Null,
        JsonPrim::Bool(b) => JsonValue::Bool(b),
        JsonPrim::Int(i) => JsonValue::from(i),
        JsonPrim::Uint(u) => JsonValue::from(u),
        JsonPrim::Text(s) => JsonValue::String(s),
    }
}

/// The union value a classified JSON number maps to: a float keeps its bit
/// pattern, an integer becomes signed when representable, else unsigned.
pub open spec fn number_value_spec(nr: NumberRepr) -> Value {
    match nr {
        NumberRepr::Int(i) => Value::BigInt(i),
        NumberRepr::Uint(u) => if u <= i64::MAX {
            Value::BigInt(u as i64)
        } else {
            Value::BigUnsigned(u)
        },
        NumberRepr::FloatBits(b) => Value::Double(b),
    }
}

/// What the Into-Value direction of the bridge owes for each classified
/// layer: null to the no-value kind, boolean to signed integer 0 or 1,
/// number by representation, text to the text kind, object wrapped whole;
/// an array fails.
pub open spec fn shape_maps_to(s: JsonShape, r: Result<Value, Error>) -> bool {
    match s {
        JsonShape::Null => r == Ok::<Value, Error>(Value::Null),
        JsonShape::Bool(b) => r == Ok::<Value, Error>(
            Value::Int(
                if b {
                    1
                } else {
                    0
                },
            ),
        ),
        JsonShape::Number(nr) => r == Ok::<Value, Error>(number_value_spec(nr)),
        JsonShape::Text(t) => r matches Ok(w) && w matches Value::String(bs) && *bs == t,
        JsonShape::Array => r == Err::<Value, Error>(Error::FailToConvert),
        JsonShape::Object(j) => r matches Ok(w) && w matches Value::Json(bj) && *bj == j,
    }
}

/// Map a classified JSON number into the union.
pub fn number_value(nr: NumberRepr) -> (r: Value)
    ensures
        r == number_value_spec(nr),
{
    match nr {
        NumberRepr::Int(i) => Value::BigInt(i),
        NumberRepr::Uint(u) => if u <= i64::MAX as u64 {
            Value::BigInt(u as i64)
        } else {
            Value::BigUnsigned(u)
        },
        NumberRepr::FloatBits(b) => Value::Double(b),
    }
}

/// Map one classified JSON layer into the union. A boolean becomes the
/// signed-integer value 0 or 1 — an intentional widening, not a boolean
/// kind.
pub fn shape_value(s: JsonShape) -> (r: Result<Value, Error>)
    ensures
        shape_maps_to(s, r),
{
    match s {
        JsonShape::Null => Ok(Value::Null),
        JsonShape::Bool(b) => Ok(Value::Int(if b { 1 } else { 0 })),
        JsonShape::Number(nr) => Ok(number_value(nr)),
        JsonShape::Text(t) => Ok(Value::String(Box::new(t))),
        JsonShape::Array => Err(Error::FailToConvert),
        JsonShape::Object(j) => Ok(Value::Json(Box::new(j))),
    }
}

/// Convert a structured-JSON value into the union, by its classification:
/// null to the no-value kind, boolean to signed integer 0 or 1, number by
/// representation, text to the text kind, object wrapped whole; an array
/// fails.
pub fn json_value_to_sea_value(v: &JsonValue) -> (r: Result<Value, Error>)
    ensures
        shape_maps_to(shape_of(*v), r),
        r matches Err(e) ==> e == Error::FailToConvert,
        r matches Ok(w) ==> (w is Null || w is Int || w is BigInt || w is BigUnsigned
            || w is Double || w is String || w is Json),
        r matches Ok(w) ==> (w is Int ==> (w->Int_0 == 0 || w->Int_0 == 1)),
{
    shape_value(json_shape(v))
}

/// Whether `n` is the length of the longest prefix of `bytes` that is
/// valid UTF-8.
pub open spec fn longest_utf8_prefix(bytes: Seq<u8>, n: int) -> bool {
    &&& 0 <= n <= bytes.len()
    &&& vstd::utf8::valid_utf8(bytes.take(n))
    &&& forall|k: int| n < k <= bytes.len() ==> !vstd::utf8::valid_utf8(#[trigger] bytes.take(k))
}

/// Relies on `std::string::String::from_utf8`: returns the decoded text
/// exactly when the bytes are valid UTF-8; otherwise the error's
/// `valid_up_to` is the length of the longest valid prefix.
#[verifier::external_body]
fn bytes_to_utf8(b: &Vec<u8>) -> (r: Result<String, usize>)
    ensures
        r is Ok <==> vstd::utf8::valid_utf8(b@),
        r matches Ok(s) ==> s@ == vstd::utf8::decode_utf8(b@),
        r matches Err(u) ==> longest_utf8_prefix(b@, u as int),
{
    match std::string::String::from_utf8(b.clone()) {
        Ok(s) => Ok(s),
        Err(e) => Err(e.utf8_error().valid_up_to()),
    }
}

/// What the From-Value direction of the bridge owes for each kind of the
/// union: every numeric, boolean and text kind maps to the corresponding
/// JSON primitive; a byte sequence is reinterpreted as UTF-8 text and fails
/// if invalid; a date-time is written as `"YYYY-MM-DD HH:MM:SS"` text; a
/// UUID as its canonical text; structured JSON passes through by value
/// copy. The float kinds are left open: their numeric reading lives outside
/// this crate's reasoning.
pub open spec fn value_maps_to_json(v: Value, r: Result<JsonValue, Error>) -> bool {
    match v {
        Value::Null => r == Ok::<JsonValue, Error>(json_prim_of(JsonPrimView::Null)),
        Value::Bool(b) => r == Ok::<JsonValue, Error>(json_prim_of(JsonPrimView::Bool(b))),
        Value::TinyInt(x) => r == Ok::<JsonValue, Error>(json_prim_of(JsonPrimView::Int(x as i64))),
        Value::SmallInt(x) => r == Ok::<JsonValue, Error>(
            json_prim_of(JsonPrimView::Int(x as i64)),
        ),
        Value::Int(x) => r == Ok::<JsonValue, Error>(json_prim_of(JsonPrimView::Int(x as i64))),
        Value::BigInt(x) => r == Ok::<JsonValue, Error>(json_prim_of(JsonPrimView::Int(x))),
        Value::TinyUnsigned(x) => r == Ok::<JsonValue, Error>(
            json_prim_of(JsonPrimView::Uint(x as u64)),
        ),
        Value::SmallUnsigned(x) => r == Ok::<JsonValue, Error>(
            json_prim_of(JsonPrimView::Uint(x as u64)),
        ),
        Value::Unsigned(x) => r == Ok::<JsonValue, Error>(
            json_prim_of(JsonPrimView::Uint(x as u64)),
        ),
        Value::BigUnsigned(x) => r == Ok::<JsonValue, Error>(json_prim_of(JsonPrimView::Uint(x))),
        Value::Float(_) => true,
        Value::Double(_) => true,
        Value::String(s) => r == Ok::<JsonValue, Error>(json_prim_of(JsonPrimView::Text(s@))),
        Value::Bytes(b) => if vstd::utf8::valid_utf8(b@) {
            r == Ok::<JsonValue, Error>(
                json_prim_of(JsonPrimView::Text(vstd::utf8::decode_utf8(b@))),
            )
        } else {
            r matches Err(e) && e matches Error::FromUtf8Error { valid_up_to }
                && longest_utf8_prefix(b@, valid_up_to as int)
        },
        Value::Json(j) => r == Ok::<JsonValue, Error>(*j),
        Value::DateTime(d) => r == Ok::<JsonValue, Error>(
            json_prim_of(JsonPrimView::Text(crate::render::date_time_text(*d))),
        ),
        Value::Uuid(u) => r == Ok::<JsonValue, Error>(
            json_prim_of(JsonPrimView::Text(crate::render::uuid_canonical(*u))),
        ),
    }
}

/// Convert a union value into a structured-JSON value, as
/// `value_maps_to_json` states kind by kind. The float kinds are not
/// handled here: their numeric reading lives outside this crate's
/// reasoning, so callers convert them before or instead of calling this.
pub fn sea_value_to_json_value(v: &Value) -> (r: Result<JsonValue, Error>)
    requires
        !(v is Float),
        !(v is Double),
    ensures
        value_maps_to_json(*v, r),
        r is Err <==> (v matches Value::Bytes(b) && !vstd::utf8::valid_utf8(b@)),
{
    match v {
        Value::Null => Ok(json_prim(JsonPrim::Null)),
        Value::Bool(b) => Ok(json_prim(JsonPrim::Bool(*b))),
        Value::TinyInt(x) => Ok(json_prim(JsonPrim::Int(*x as i64))),
        Value::SmallInt(x) => Ok(json_prim(JsonPrim::Int(*x as i64))),
        Value::Int(x) => Ok(json_prim(JsonPrim::Int(*x as i64))),
        Value::BigInt(x) => Ok(json_prim(JsonPrim::Int(*x))),
        Value::TinyUnsigned(x) => Ok(json_prim(JsonPrim::Uint(*x as u64))),
        Value::SmallUnsigned(x) => Ok(json_prim(JsonPrim::Uint(*x as u64))),
        Value::Unsigned(x) => Ok(json_prim(JsonPrim::Uint(*x as u64))),
        Value::BigUnsigned(x) => Ok(json_prim(JsonPrim::Uint(*x))),
        Value::Float(_) => vstd::pervasive::unreached(),
        Value::Double(_) => vstd::pervasive::unreached(),
        Value::String(s) => Ok(json_prim(JsonPrim::Text((**s).clone()))),
        Value::Bytes(b) => match bytes_to_utf8(&**b) {
            Ok(s) => Ok(json_prim(JsonPrim::Text(s))),
            Err(u) => Err(Error::FromUtf8Error { valid_up_to: u }),
        },
        Value::Json(j) => Ok((**j).clone()),
        Value::DateTime(d) => Ok(json_prim(JsonPrim::Text(crate::render::format_date_time(&**d)))),
        Value::Uuid(u) => Ok(json_prim(JsonPrim::Text(crate::render::format_uuid(**u)))),
    }
}

/// Law: the longest-valid-prefix length of a byte sequence is unique, so
/// equal invalid inputs yield equal conversion failures.
pub proof fn lemma_longest_utf8_prefix_unique(bytes: Seq<u8>, a: int, b: int)
    requires
        longest_utf8_prefix(bytes, a),
        longest_utf8_prefix(bytes, b),
    ensures
        a == b,
{
}

} // verus!
