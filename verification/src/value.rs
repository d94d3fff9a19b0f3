//! The tagged union of scalar values and the conversion contract between it
//! and native scalar types.
use vstd::prelude::*;

verus! {

/// A naive date-time (no timezone), held as plain calendar and clock fields.
///
/// `wf()` is the well-formedness invariant that constructors establish; the
/// year is bounded so that the textual form is always four digits.
#[derive(Debug, Clone, Copy, PartialEq, Eq, Structural)]
pub struct DateTime {
    pub year: u16,
    pub month: u8,
    pub day: u8,
    pub hour: u8,
    pub minute: u8,
    pub second: u8,
}

/// Whether `year` is a leap year of the proleptic Gregorian calendar.
pub open spec fn is_leap_year(year: int) -> bool {
    (year % 4 == 0 && year % 100 != 0) || year % 400 == 0
}

/// The number of days in `month` of `year`.
pub open spec fn days_in_month(year: int, month: int) -> int {
    if month == 2 {
        if is_leap_year(year) {
            29
        } else {
            28
        }
    } else if month == 4 || month == 6 || month == 9 || month == 11 {
        30
    } else {
        31
    }
}

impl DateTime {
    /// Field bounds of a well-formed date-time: a real calendar date (the
    /// year bounded so that the textual form is always four digits) and a
    /// real clock time.
    pub open spec fn wf(self) -> bool {
        &&& self.year <= 9999
        &&& 1 <= self.month <= 12
        &&& 1 <= self.day <= days_in_month(self.year as int, self.month as int)
        &&& self.hour < 24
        &&& self.minute < 60
        &&& self.second < 60
    }

    /// Build a date-time, rejecting out-of-range fields.
    pub fn new(year: u16, month: u8, day: u8, hour: u8, minute: u8, second: u8) -> (r: Option<
        DateTime,
    >)
        ensures
            r matches Some(dt) ==> dt == (DateTime { year, month, day, hour, minute, second })
                && dt.wf(),
            r is None <==> !(DateTime { year, month, day, hour, minute, second }).wf(),
    {
        if !(year <= 9999 && 1 <= month && month <= 12 && hour < 24 && minute < 60 && second < 60) {
            return None;
        }
        let max_day: u8 = if month == 2 {
            if (year % 4 == 0 && year % 100 != 0) || year % 400 == 0 {
                29
            } else {
                28
            }
        } else if month == 4 || month == 6 || month == 9 || month == 11 {
            30
        } else {
            31
        };
        if 1 <= day && day <= max_day {
            Some(DateTime { year, month, day, hour, minute, second })
        } else {
            None
        }
    }
}

/// The tagged union: at any instant it holds precisely one kind, and no
/// implicit coercion between kinds is ever performed.
///
/// Every payload wider than a pointer sits behind a single `Box`, keeping
/// each element of a long parameter sequence small. The two float kinds
/// carry the IEEE-754 bit pattern of the number as a plain integer, since
/// nothing here computes on the numeric value itself; the UUID kind carries
/// the 128-bit value.
#[derive(Debug, Clone, PartialEq)]
pub enum Value {
    Null,
    Bool(bool),
    TinyInt(i8),
    SmallInt(i16),
    Int(i32),
    BigInt(i64),
    TinyUnsigned(u8),
    SmallUnsigned(u16),
    Unsigned(u32),
    BigUnsigned(u64),
    Float(u32),
    Double(u64),
    String(Box<String>),
    Bytes(Box<Vec<u8>>),
    Json(Box<serde_json::Value>),
    DateTime(Box<DateTime>),
    Uuid(Box<u128>),
}

/// A native type that converts to and from the union.
///
/// `is_constructed(self, v)` says which union values construction from
/// `self` may yield; `accepts` and `extracted` describe extraction.
pub trait ValueType: Sized {
    /// The union values this type's extraction accepts.
    spec fn accepts(v: Value) -> bool;

    /// The native value recovered from an accepted union value.
    spec fn extracted(v: Value) -> Self;

    /// Whether `v` is a union value that construction from `self` yields.
    spec fn is_constructed(self, v: Value) -> bool;

    /// Construct: total, never fails.
    fn to_value(self) -> (r: Value)
        ensures
            self.is_constructed(r),
    ;

    /// Extract: defined only when the union's current kind matches.
    fn unwrap(v: Value) -> (r: Self)
        requires
            Self::accepts(v),
        ensures
            r == Self::extracted(v),
    ;

    /// Law: extraction is a left inverse of construction, so construction
    /// is injective.
    proof fn lemma_round_trip(x: Self, v: Value)
        requires
            x.is_constructed(v),
        ensures
            Self::accepts(v),
            Self::extracted(v) == x,
    ;
}

/// A present (non-optional) native type: construction never yields the
/// no-value kind, which makes the optional conversion below unambiguous.
pub trait ScalarType: ValueType {
    /// Law: a constructed value is never the no-value kind.
    proof fn lemma_constructed_not_null(x: Self, v: Value)
        requires
            x.is_constructed(v),
        ensures
            !(v is Null),
    ;
}

impl Value {
    /// Whether this value currently holds the structured-JSON kind.
    pub fn is_json(&self) -> (r: bool)
        ensures
            r == (self is Json),
    {
        matches!(self, Value::Json(_))
    }

    /// Borrow the structured-JSON payload; the kind must match.
    pub fn as_ref_json(&self) -> (r: &serde_json::Value)
        requires
            self is Json,
        ensures
            self matches Value::Json(b) && *r == *b,
    {
        match self {
            Value::Json(b) => &**b,
            _ => vstd::pervasive::unreached(),
        }
    }

    /// Whether this value currently holds the date-time kind.
    pub fn is_date_time(&self) -> (r: bool)
        ensures
            r == (self is DateTime),
    {
        matches!(self, Value::DateTime(_))
    }

    /// Borrow the date-time payload; the kind must match.
    pub fn as_ref_date_time(&self) -> (r: &DateTime)
        requires
            self is DateTime,
        ensures
            self matches Value::DateTime(b) && *r == *b,
    {
        match self {
            Value::DateTime(b) => &**b,
            _ => vstd::pervasive::unreached(),
        }
    }

    /// Whether this value currently holds the UUID kind.
    pub fn is_uuid(&self) -> (r: bool)
        ensures
            r == (self is Uuid),
    {
        matches!(self, Value::Uuid(_))
    }

    /// Borrow the 128-bit UUID payload; the kind must match.
    pub fn as_ref_uuid(&self) -> (r: &u128)
        requires
            self is Uuid,
        ensures
            self matches Value::Uuid(b) && *r == *b,
    {
        match self {
            Value::Uuid(b) => &**b,
            _ => vstd::pervasive::unreached(),
        }
    }

    /// Extract the native value; the union's kind must match.
    pub fn unwrap<T: ValueType>(self) -> (r: T)
        requires
            T::accepts(self),
        ensures
            r == T::extracted(self),
    {
        T::unwrap(self)
    }
}

impl ValueType for bool {
    open spec fn accepts(v: Value) -> bool {
        v is Bool
    }

    open spec fn extracted(v: Value) -> bool {
        v->Bool_0
    }

    open spec fn is_constructed(self, v: Value) -> bool {
        v == Value::Bool(self)
    }

    fn to_value(self) -> (r: Value) {
        Value::Bool(self)
    }

    fn unwrap(v: Value) -> (r: bool) {
        match v {
            Value::Bool(x) => x,
            _ => vstd::pervasive::unreached(),
        }
    }

    proof fn lemma_round_trip(x: bool, v: Value) {
    }
}

impl ScalarType for bool {
    proof fn lemma_constructed_not_null(x: bool, v: Value) {
    }
}

impl ValueType for i8 {
    open spec fn accepts(v: Value) -> bool {
        v is TinyInt
    }

    open spec fn extracted(v: Value) -> i8 {
        v->TinyInt_0
    }

    open spec fn is_constructed(self, v: Value) -> bool {
        v == Value::TinyInt(self)
    }

    fn to_value(self) -> (r: Value) {
        Value::TinyInt(self)
    }

    fn unwrap(v: Value) -> (r: i8) {
        match v {
            Value::TinyInt(x) => x,
            _ => vstd::pervasive::unreached(),
        }
    }

    proof fn lemma_round_trip(x: i8, v: Value) {
    }
}

impl ScalarType for i8 {
    proof fn lemma_constructed_not_null(x: i8, v: Value) {
    }
}

impl ValueType for i16 {
    open spec fn accepts(v: Value) -> bool {
        v is SmallInt
    }

    open spec fn extracted(v: Value) -> i16 {
        v->SmallInt_0
    }

    open spec fn is_constructed(self, v: Value) -> bool {
        v == Value::SmallInt(self)
    }

    fn to_value(self) -> (r: Value) {
        Value::SmallInt(self)
    }

    fn unwrap(v: Value) -> (r: i16) {
        match v {
            Value::SmallInt(x) => x,
            _ => vstd::pervasive::unreached(),
        }
    }

    proof fn lemma_round_trip(x: i16, v: Value) {
    }
}

impl ScalarType for i16 {
    proof fn lemma_constructed_not_null(x: i16, v: Value) {
    }
}

impl ValueType for i32 {
    open spec fn accepts(v: Value) -> bool {
        v is Int
    }

    open spec fn extracted(v: Value) -> i32 {
        v->Int_0
    }

    open spec fn is_constructed(self, v: Value) -> bool {
        v == Value::Int(self)
    }

    fn to_value(self) -> (r: Value) {
        Value::Int(self)
    }

    fn unwrap(v: Value) -> (r: i32) {
        match v {
            Value::Int(x) => x,
            _ => vstd::pervasive::unreached(),
        }
    }

    proof fn lemma_round_trip(x: i32, v: Value) {
    }
}

impl ScalarType for i32 {
    proof fn lemma_constructed_not_null(x: i32, v: Value) {
    }
}

impl ValueType for i64 {
    open spec fn accepts(v: Value) -> bool {
        v is BigInt
    }

    open spec fn extracted(v: Value) -> i64 {
        v->BigInt_0
    }

    open spec fn is_constructed(self, v: Value) -> bool {
        v == Value::BigInt(self)
    }

    fn to_value(self) -> (r: Value) {
        Value::BigInt(self)
    }

    fn unwrap(v: Value) -> (r: i64) {
        match v {
            Value::BigInt(x) => x,
            _ => vstd::pervasive::unreached(),
        }
    }

    proof fn lemma_round_trip(x: i64, v: Value) {
    }
}

impl ScalarType for i64 {
    proof fn lemma_constructed_not_null(x: i64, v: Value) {
    }
}

impl ValueType for u8 {
    open spec fn accepts(v: Value) -> bool {
        v is TinyUnsigned
    }

    open spec fn extracted(v: Value) -> u8 {
        v->TinyUnsigned_0
    }

    open spec fn is_constructed(self, v: Value) -> bool {
        v == Value::TinyUnsigned(self)
    }

    fn to_value(self) -> (r: Value) {
        Value::TinyUnsigned(self)
    }

    fn unwrap(v: Value) -> (r: u8) {
        match v {
            Value::TinyUnsigned(x) => x,
            _ => vstd::pervasive::unreached(),
        }
    }

    proof fn lemma_round_trip(x: u8, v: Value) {
    }
}

impl ScalarType for u8 {
    proof fn lemma_constructed_not_null(x: u8, v: Value) {
    }
}

impl ValueType for u16 {
    open spec fn accepts(v: Value) -> bool {
        v is SmallUnsigned
    }

    open spec fn extracted(v: Value) -> u16 {
        v->SmallUnsigned_0
    }

    open spec fn is_constructed(self, v: Value) -> bool {
        v == Value::SmallUnsigned(self)
    }

    fn to_value(self) -> (r: Value) {
        Value::SmallUnsigned(self)
    }

    fn unwrap(v: Value) -> (r: u16) {
        match v {
            Value::SmallUnsigned(x) => x,
            _ => vstd::pervasive::unreached(),
        }
    }

    proof fn lemma_round_trip(x: u16, v: Value) {
    }
}

impl ScalarType for u16 {
    proof fn lemma_constructed_not_null(x: u16, v: Value) {
    }
}

impl ValueType for u32 {
    open spec fn accepts(v: Value) -> bool {
        v is Unsigned
    }

    open spec fn extracted(v: Value) -> u32 {
        v->Unsigned_0
    }

    open spec fn is_constructed(self, v: Value) -> bool {
        v == Value::Unsigned(self)
    }

    fn to_value(self) -> (r: Value) {
        Value::Unsigned(self)
    }

    fn unwrap(v: Value) -> (r: u32) {
        match v {
            Value::Unsigned(x) => x,
            _ => vstd::pervasive::unreached(),
        }
    }

    proof fn lemma_round_trip(x: u32, v: Value) {
    }
}

impl ScalarType for u32 {
    proof fn lemma_constructed_not_null(x: u32, v: Value) {
    }
}

impl ValueType for u64 {
    open spec fn accepts(v: Value) -> bool {
        v is BigUnsigned
    }

    open spec fn extracted(v: Value) -> u64 {
        v->BigUnsigned_0
    }

    open spec fn is_constructed(self, v: Value) -> bool {
        v == Value::BigUnsigned(self)
    }

    fn to_value(self) -> (r: Value) {
        Value::BigUnsigned(self)
    }

    fn unwrap(v: Value) -> (r: u64) {
        match v {
            Value::BigUnsigned(x) => x,
            _ => vstd::pervasive::unreached(),
        }
    }

    proof fn lemma_round_trip(x: u64, v: Value) {
    }
}

impl ScalarType for u64 {
    proof fn lemma_constructed_not_null(x: u64, v: Value) {
    }
}

impl ValueType for std::string::String {
    open spec fn accepts(v: Value) -> bool {
        v is String
    }

    open spec fn extracted(v: Value) -> std::string::String {
        *v->String_0
    }

    open spec fn is_constructed(self, v: Value) -> bool {
        v matches Value::String(b) && *b == self
    }

    fn to_value(self) -> (r: Value) {
        Value::String(Box::new(self))
    }

    fn unwrap(v: Value) -> (r: std::string::String) {
        match v {
            Value::String(x) => *x,
            _ => vstd::pervasive::unreached(),
        }
    }

    proof fn lemma_round_trip(x: std::string::String, v: Value) {
    }
}

impl ScalarType for std::string::String {
    proof fn lemma_constructed_not_null(x: std::string::String, v: Value) {
    }
}

impl ValueType for Vec<u8> {
    open spec fn accepts(v: Value) -> bool {
        v is Bytes
    }

    open spec fn extracted(v: Value) -> Vec<u8> {
        *v->Bytes_0
    }

    open spec fn is_constructed(self, v: Value) -> bool {
        v matches Value::Bytes(b) && *b == self
    }

    fn to_value(self) -> (r: Value) {
        Value::Bytes(Box::new(self))
    }

    fn unwrap(v: Value) -> (r: Vec<u8>) {
        match v {
            Value::Bytes(x) => *x,
            _ => vstd::pervasive::unreached(),
        }
    }

    proof fn lemma_round_trip(x: Vec<u8>, v: Value) {
    }
}

impl ScalarType for Vec<u8> {
    proof fn lemma_constructed_not_null(x: Vec<u8>, v: Value) {
    }
}

/// Structured JSON converts through the structured-JSON kind; the value
/// itself stays opaque and is carried whole.
impl ValueType for serde_json::Value {
    open spec fn accepts(v: Value) -> bool {
        v is Json
    }

    open spec fn extracted(v: Value) -> serde_json::Value {
        *v->Json_0
    }

    open spec fn is_constructed(self, v: Value) -> bool {
        v matches Value::Json(b) && *b == self
    }

    fn to_value(self) -> (r: Value) {
        Value::Json(Box::new(self))
    }

    fn unwrap(v: Value) -> (r: serde_json::Value) {
        match v {
            Value::Json(x) => *x,
            _ => vstd::pervasive::unreached(),
        }
    }

    proof fn lemma_round_trip(x: serde_json::Value, v: Value) {
    }
}

impl ScalarType for serde_json::Value {
    proof fn lemma_constructed_not_null(x: serde_json::Value, v: Value) {
    }
}

impl ValueType for DateTime {
    open spec fn accepts(v: Value) -> bool {
        v is DateTime
    }

    open spec fn extracted(v: Value) -> DateTime {
        *v->DateTime_0
    }

    open spec fn is_constructed(self, v: Value) -> bool {
        v matches Value::DateTime(b) && *b == self
    }

    fn to_value(self) -> (r: Value) {
        Value::DateTime(Box::new(self))
    }

    fn unwrap(v: Value) -> (r: DateTime) {
        match v {
            Value::DateTime(x) => *x,
            _ => vstd::pervasive::unreached(),
        }
    }

    proof fn lemma_round_trip(x: DateTime, v: Value) {
    }
}

impl ScalarType for DateTime {
    proof fn lemma_constructed_not_null(x: DateTime, v: Value) {
    }
}

/// A 128-bit value converts through the UUID kind, which holds exactly
/// those 128 bits.
impl ValueType for u128 {
    open spec fn accepts(v: Value) -> bool {
        v is Uuid
    }

    open spec fn extracted(v: Value) -> u128 {
        *v->Uuid_0
    }

    open spec fn is_constructed(self, v: Value) -> bool {
        v matches Value::Uuid(b) && *b == self
    }

    fn to_value(self) -> (r: Value) {
        Value::Uuid(Box::new(self))
    }

    fn unwrap(v: Value) -> (r: u128) {
        match v {
            Value::Uuid(x) => *x,
            _ => vstd::pervasive::unreached(),
        }
    }

    proof fn lemma_round_trip(x: u128, v: Value) {
    }
}

impl ScalarType for u128 {
    proof fn lemma_constructed_not_null(x: u128, v: Value) {
    }
}

/// Optional conversion: absence maps to the no-value kind and back; any
/// other kind mismatch is the same contract violation as plain extraction.
impl<T: ScalarType> ValueType for Option<T> {
    open spec fn accepts(v: Value) -> bool {
        v is Null || T::accepts(v)
    }

    open spec fn extracted(v: Value) -> Option<T> {
        if v is Null {
            None
        } else {
            Some(T::extracted(v))
        }
    }

    open spec fn is_constructed(self, v: Value) -> bool {
        match self {
            None => v is Null,
            Some(x) => x.is_constructed(v),
        }
    }

    fn to_value(self) -> (r: Value) {
        match self {
            None => Value::Null,
            Some(x) => x.to_value(),
        }
    }

    fn unwrap(v: Value) -> (r: Option<T>) {
        match v {
            Value::Null => None,
            _ => Some(T::unwrap(v)),
        }
    }

    proof fn lemma_round_trip(x: Option<T>, v: Value) {
        match x {
            None => {
            },
            Some(inner) => {
                T::lemma_round_trip(inner, v);
                T::lemma_constructed_not_null(inner, v);
            },
        }
    }
}

/// An ordered sequence of values; order is significant, since it carries
/// positional parameter bindings.
#[derive(Debug, Clone, PartialEq)]
pub struct Values(pub Vec<Value>);

impl Values {
    /// The number of values in the sequence.
    pub fn len(&self) -> (r: usize)
        ensures
            r == self.0@.len(),
    {
        self.0.len()
    }

    /// The value at position `i`.
    pub fn get(&self, i: usize) -> (r: &Value)
        requires
            i < self.0@.len(),
        ensures
            *r == self.0@[i as int],
    {
        &self.0[i]
    }
}

/// Law: construction from an absent optional yields the no-value kind, and
/// optional extraction of the no-value kind yields absence.
pub proof fn lemma_optional_absent<T: ScalarType>(v: Value)
    ensures
        (None::<T>).is_constructed(v) <==> v is Null,
        <Option<T> as ValueType>::extracted(Value::Null) == None::<T>,
{
}

/// Law: construction is injective — distinct native values never yield the
/// same union value.
pub proof fn lemma_construct_injective<T: ValueType>(x1: T, x2: T, v: Value)
    requires
        x1.is_constructed(v),
        x2.is_constructed(v),
    ensures
        x1 == x2,
{
    T::lemma_round_trip(x1, v);
    T::lemma_round_trip(x2, v);
}

} // verus!
