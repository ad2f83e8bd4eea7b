//! A field whose value is either a timestamp or the literal `false`.

use vstd::prelude::*;
use crate::fields::{field_error, DecodeError, DecodeErrorView, DecodeProblem};
use crate::json::{Json, JsonNumber};

verus! {

/// An edit time in seconds since the epoch, or nothing for content that was
/// never edited.
#[derive(Clone, Copy, Debug, PartialEq, Eq, Structural)]
pub struct EditTimestamp(pub Option<u64>);

/// What the value `j` of the field `key` decodes to: a number that fits in
/// `u64` gives that number, `false` gives nothing, and any other value fails:
/// a negative number as out of range, the rest as of the wrong type.
pub open spec fn edit_timestamp_of(key: Seq<char>, j: Json) -> Result<Option<u64>, DecodeErrorView> {
    match j {
        Json::Bool(false) => Ok(None),
        Json::Number(JsonNumber::PosInt(n)) => Ok(Some(n)),
        Json::Number(JsonNumber::NegInt(_)) => Err(DecodeErrorView::Field(key, DecodeProblem::OutOfRange)),
        _ => Err(DecodeErrorView::Field(key, DecodeProblem::WrongType)),
    }
}

impl EditTimestamp {
    /// Decodes the value `j` of the field `key`.
    pub fn decode(key: &str, j: &Json) -> (r: Result<EditTimestamp, DecodeError>)
        ensures
            r is Ok <==> edit_timestamp_of(key@, *j) is Ok,
            r matches Ok(t) ==> edit_timestamp_of(key@, *j) == Ok::<Option<u64>, DecodeErrorView>(
                t.0,
            ),
            r matches Err(e) ==> edit_timestamp_of(key@, *j) == Err::<Option<u64>, DecodeErrorView>(
                e@,
            ),
    {
        match j {
            Json::Bool(false) => Ok(EditTimestamp(None)),
            Json::Number(JsonNumber::PosInt(n)) => Ok(EditTimestamp(Some(*n))),
            Json::Number(JsonNumber::NegInt(_)) => Err(field_error(key, DecodeProblem::OutOfRange)),
            _ => Err(field_error(key, DecodeProblem::WrongType)),
        }
    }

    /// The timestamp, if there is one.
    pub fn value(&self) -> (r: Option<u64>)
        ensures
            r == self.0,
    {
        self.0
    }
}

} // verus!
