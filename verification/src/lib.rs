//! A value abstraction layer for SQL query construction: a tagged union of
//! scalar kinds, conversions between native scalar types and the union, and
//! escape/unescape routines for string literals embedded in query text.
mod error;
mod escape;
mod json;
mod render;
mod value;

pub use error::Error;
pub use json::JsonPrimView;
pub use json::JsonShape;
pub use json::NumberRepr;
pub use json::json_prim_of;
pub use json::json_value_to_sea_value;
pub use json::lemma_longest_utf8_prefix_unique;
pub use json::longest_utf8_prefix;
pub use json::number_value;
pub use json::number_value_spec;
pub use json::sea_value_to_json_value;
pub use json::shape_maps_to;
pub use json::shape_of;
pub use json::shape_value;
pub use json::value_maps_to_json;
pub use render::date_time_text;
pub use render::format_date_time;
pub use render::uuid_canonical;
pub use value::DateTime;
pub use value::days_in_month;
pub use value::is_leap_year;
pub use value::ScalarType;
pub use value::Value;
pub use value::ValueType;
pub use value::Values;
pub use value::lemma_construct_injective;
pub use value::lemma_optional_absent;

pub use escape::escape_string;
pub use escape::escape_spec;
pub use escape::unescape_string;
pub use escape::unescape_spec;
pub use escape::lemma_unescape_escape;
