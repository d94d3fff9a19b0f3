//! The error taxonomy: structural and conversion errors returned as typed,
//! comparable values.
use vstd::prelude::*;

verus! {

/// Errors raised by structural mismatches and foreign-type conversion
/// failures. Instances compare structurally.
#[derive(Debug, Clone, PartialEq, Eq, Structural)]
pub enum Error {
    /// A positional-binding bulk operation received differing numbers of
    /// columns and values.
    ColValNumMismatch { col_len: usize, val_len: usize },
    /// No applicable mapping exists for the requested conversion.
    FailToConvert,
    /// Marker for call sites that are statically infallible but share a
    /// failure channel; never constructed by correct code.
    Infallible,
    /// An integer-narrowing conversion overflowed.
    TryFromIntError,
    /// A byte sequence was not valid UTF-8; `valid_up_to` is the length of
    /// its longest valid prefix.
    FromUtf8Error { valid_up_to: usize },
}

impl Error {
    /// The diagnostic text of this error.
    pub open spec fn message_spec(self) -> Seq<char> {
        match self {
            Error::ColValNumMismatch { col_len, val_len } => "Columns and values length mismatch: "@
                + crate::render::dec_text(col_len as int) + " != "@ + crate::render::dec_text(
                val_len as int,
            ),
            Error::FailToConvert => "Fail to convert"@,
            Error::Infallible => "Fail Infallible"@,
            Error::TryFromIntError => "Fail TryFromIntError"@,
            Error::FromUtf8Error { valid_up_to } => "Fail FromUtf8Error: valid up to "@
                + crate::render::dec_text(valid_up_to as int),
        }
    }

    /// Render the diagnostic text of this error.
    pub fn message(&self) -> (r: String)
        ensures
            r@ == self.message_spec(),
    {
        match self {
            Error::ColValNumMismatch { col_len, val_len } => {
                let mut out = String::from_str("Columns and values length mismatch: ");
                crate::render::push_usize(&mut out, *col_len);
                out.append(" != ");
                crate::render::push_usize(&mut out, *val_len);
                proof {
                    assert(out@ =~= self.message_spec());
                }
                out
            },
            Error::FailToConvert => String::from_str("Fail to convert"),
            Error::Infallible => String::from_str("Fail Infallible"),
            Error::TryFromIntError => String::from_str("Fail TryFromIntError"),
            Error::FromUtf8Error { valid_up_to } => {
                let mut out = String::from_str("Fail FromUtf8Error: valid up to ");
                crate::render::push_usize(&mut out, *valid_up_to);
                proof {
                    assert(out@ =~= self.message_spec());
                }
                out
            },
        }
    }
}

} // verus!
