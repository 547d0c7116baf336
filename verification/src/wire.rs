//! The form in which a value travels to and from the host runtime: a tag and
//! a payload. A blob travels as the reversible encoding of its bytes.

use vstd::prelude::*;
use crate::codec::{base64_bytes, base64_decode, base64_encode, base64_text, fits_encoding};
use crate::value::{Real, SQLiteValue, ValueView};

verus! {

pub const TAG_NULL: i32 = 0;

pub const TAG_INTEGER: i32 = 1;

pub const TAG_REAL: i32 = 2;

pub const TAG_TEXT: i32 = 3;

pub const TAG_BLOB: i32 = 4;

/// The content of a payload.
pub enum WireDataView {
    Integer(int),
    Real(rusqlite::types::Value),
    Text(Seq<char>),
}

/// The payload that travels with a tag.
#[derive(Debug)]
pub enum WireData {
    Integer(i64),
    Real(Real),
    Text(String),
}

impl View for WireData {
    type V = WireDataView;

    open spec fn view(&self) -> WireDataView {
        match *self {
            WireData::Integer(n) => WireDataView::Integer(n as int),
            WireData::Real(r) => WireDataView::Real(r@),
            WireData::Text(s) => WireDataView::Text(s@),
        }
    }
}

/// The form that the payload of a tag has.
#[derive(Clone, Copy, PartialEq, Eq, Structural, Debug)]
pub enum PayloadKind {
    /// The payload is not read.
    Ignored,
    Integer,
    Real,
    Text,
}

/// The tag of a value.
pub open spec fn tag_of(value: ValueView) -> int {
    match value {
        ValueView::Null => 0,
        ValueView::Integer(_) => 1,
        ValueView::Real(_) => 2,
        ValueView::Text(_) => 3,
        ValueView::Blob(_) => 4,
    }
}

/// The payload of a value. Null travels with the word `null`.
pub open spec fn payload_of(value: ValueView) -> WireDataView {
    match value {
        ValueView::Null => WireDataView::Text("null"@),
        ValueView::Integer(n) => WireDataView::Integer(n),
        ValueView::Real(r) => WireDataView::Real(r),
        ValueView::Text(s) => WireDataView::Text(s),
        ValueView::Blob(b) => WireDataView::Text(base64_text(b)),
    }
}

/// What a tag and a payload stand for.
pub enum Decoded {
    Value(ValueView),
    /// No value has this tag.
    BadTag,
    /// The payload has not the form that the tag asks for.
    BadPayload,
    /// The payload of a blob is not an encoding of bytes.
    BadBlob,
}

/// What a tag and a payload stand for. The payload of a null is not read.
pub open spec fn decoded(tag: int, data: WireDataView) -> Decoded {
    if tag == 0 {
        Decoded::Value(ValueView::Null)
    } else if tag == 1 {
        match data {
            WireDataView::Integer(n) => Decoded::Value(ValueView::Integer(n)),
            _ => Decoded::BadPayload,
        }
    } else if tag == 2 {
        match data {
            WireDataView::Real(r) => Decoded::Value(ValueView::Real(r)),
            _ => Decoded::BadPayload,
        }
    } else if tag == 3 {
        match data {
            WireDataView::Text(s) => Decoded::Value(ValueView::Text(s)),
            _ => Decoded::BadPayload,
        }
    } else if tag == 4 {
        match data {
            WireDataView::Text(s) => match base64_bytes(s) {
                Some(b) => Decoded::Value(ValueView::Blob(b)),
                None => Decoded::BadBlob,
            },
            _ => Decoded::BadPayload,
        }
    } else {
        Decoded::BadTag
    }
}

/// The form of the payload that travels with each tag, if a value has it.
pub open spec fn kind_of_tag(tag: int) -> Option<PayloadKind> {
    if tag == 0 {
        Some(PayloadKind::Ignored)
    } else if tag == 1 {
        Some(PayloadKind::Integer)
    } else if tag == 2 {
        Some(PayloadKind::Real)
    } else if tag == 3 || tag == 4 {
        Some(PayloadKind::Text)
    } else {
        None
    }
}

/// The form of the payload that travels with a tag, if a value has that tag.
pub fn payload_kind(tag: i32) -> (kind: Option<PayloadKind>)
    ensures
        kind == kind_of_tag(tag as int),
{
    if tag == TAG_NULL {
        Some(PayloadKind::Ignored)
    } else if tag == TAG_INTEGER {
        Some(PayloadKind::Integer)
    } else if tag == TAG_REAL {
        Some(PayloadKind::Real)
    } else if tag == TAG_TEXT || tag == TAG_BLOB {
        Some(PayloadKind::Text)
    } else {
        None
    }
}

/// The tag and the payload of a value. Decoding them gives the value back.
pub fn encode(value: &SQLiteValue) -> (wire: (i32, WireData))
    requires
        value matches SQLiteValue::Blob(b) ==> fits_encoding(b@.len()),
    ensures
        wire.0 == tag_of(value@),
        wire.1@ == payload_of(value@),
        decoded(wire.0 as int, wire.1@) == Decoded::Value(value@),
{
    match value {
        SQLiteValue::Null => (TAG_NULL, WireData::Text("null".to_owned())),
        SQLiteValue::Integer(n) => (TAG_INTEGER, WireData::Integer(*n)),
        SQLiteValue::Real(r) => (TAG_REAL, WireData::Real(r.clone())),
        SQLiteValue::Text(s) => (TAG_TEXT, WireData::Text(s.clone())),
        SQLiteValue::Blob(b) => (TAG_BLOB, WireData::Text(base64_encode(b.as_slice()))),
    }
}

/// The value that a tag and a payload stand for, or why they stand for none.
pub fn decode(tag: i32, data: WireData) -> (value: Result<SQLiteValue, String>)
    ensures
        match decoded(tag as int, data@) {
            Decoded::Value(v) => value matches Ok(x) && x@ == v,
            Decoded::BadTag => value matches Err(m) && m@
                == "invalid type value for SQLiteValue"@,
            Decoded::BadPayload => value matches Err(m) && m@
                == "invalid payload for SQLiteValue"@,
            Decoded::BadBlob => value is Err,
        },
{
    if tag == TAG_NULL {
        Ok(SQLiteValue::Null)
    } else if tag == TAG_INTEGER {
        match data {
            WireData::Integer(n) => Ok(SQLiteValue::Integer(n)),
            _ => Err("invalid payload for SQLiteValue".to_owned()),
        }
    } else if tag == TAG_REAL {
        match data {
            WireData::Real(r) => Ok(SQLiteValue::Real(r)),
            _ => Err("invalid payload for SQLiteValue".to_owned()),
        }
    } else if tag == TAG_TEXT {
        match data {
            WireData::Text(s) => Ok(SQLiteValue::Text(s)),
            _ => Err("invalid payload for SQLiteValue".to_owned()),
        }
    } else if tag == TAG_BLOB {
        match data {
            WireData::Text(s) => match base64_decode(s.as_str()) {
                Ok(bytes) => Ok(SQLiteValue::Blob(bytes)),
                Err(reason) => Err(reason),
            },
            _ => Err("invalid payload for SQLiteValue".to_owned()),
        }
    } else {
        Err("invalid type value for SQLiteValue".to_owned())
    }
}

} // verus!
