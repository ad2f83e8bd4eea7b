//! Field-level decoding: what each kind of field accepts, the schemas of the
//! records, and the extraction of field values from a JSON object.

use vstd::prelude::*;
use vstd::string::StringExecFns;
use crate::json::{member, find_member, Json, JsonMember, JsonNumber};

verus! {

/// Why a field did not decode.
#[derive(Clone, Copy, Debug, PartialEq, Eq, Structural)]
pub enum DecodeProblem {
    /// A required field is absent.
    Missing,
    /// The field holds a JSON value of another type.
    WrongType,
    /// The field holds an integer outside the range of its type.
    OutOfRange,
}

/// A decode failure.
#[derive(Debug)]
pub enum DecodeError {
    /// The named field of the object being decoded is malformed.
    Field(String, DecodeProblem),
    /// A record or an envelope is not a JSON object.
    NotAnObject,
    /// A top-level document is neither an object nor an array.
    BadRoot,
    /// The body is not a JSON document.
    Syntax,
}

/// The mathematical value of a [`DecodeError`].
pub enum DecodeErrorView {
    Field(Seq<char>, DecodeProblem),
    NotAnObject,
    BadRoot,
    Syntax,
}

impl View for DecodeError {
    type V = DecodeErrorView;

    open spec fn view(&self) -> DecodeErrorView {
        match self {
            DecodeError::Field(k, p) => DecodeErrorView::Field(k@, *p),
            DecodeError::NotAnObject => DecodeErrorView::NotAnObject,
            DecodeError::BadRoot => DecodeErrorView::BadRoot,
            DecodeError::Syntax => DecodeErrorView::Syntax,
        }
    }
}

/// What a field may hold.
#[derive(Clone, Copy, Debug, PartialEq, Eq, Structural)]
pub enum FieldKind {
    /// A string.
    Text,
    /// A string, `null` or nothing.
    OptText,
    /// A boolean.
    Flag,
    /// A boolean, `null` or nothing.
    OptFlag,
    /// An integer that fits in `i32`.
    Int32,
    /// An integer that fits in `i32`, `null` or nothing.
    OptInt32,
    /// An integer that fits in `u32`.
    Uint32,
    /// An integer that fits in `u64`.
    Uint64,
    /// Any number.
    Number,
}

pub open spec fn optional(kind: FieldKind) -> bool {
    kind is OptText || kind is OptFlag || kind is OptInt32
}

/// The integer a number denotes, if it is an integer.
pub open spec fn int_value(n: JsonNumber) -> Option<int> {
    match n {
        JsonNumber::PosInt(u) => Some(u as int),
        JsonNumber::NegInt(i) => Some(i as int),
        JsonNumber::Decimal(_) => None,
    }
}

pub open spec fn in_range(kind: FieldKind, x: int) -> bool {
    match kind {
        FieldKind::Int32 | FieldKind::OptInt32 => i32::MIN <= x <= i32::MAX,
        FieldKind::Uint32 => 0 <= x <= u32::MAX,
        _ => 0 <= x <= u64::MAX,
    }
}

pub open spec fn is_integer_kind(kind: FieldKind) -> bool {
    kind is Int32 || kind is OptInt32 || kind is Uint32 || kind is Uint64
}

/// The problem with a present, non-null value for a field of the given kind.
pub open spec fn value_problem(j: Json, kind: FieldKind) -> Option<DecodeProblem> {
    if is_integer_kind(kind) {
        match j {
            Json::Number(n) => match int_value(n) {
                Some(x) => if in_range(kind, x) {
                    None
                } else {
                    Some(DecodeProblem::OutOfRange)
                },
                None => Some(DecodeProblem::WrongType),
            },
            _ => Some(DecodeProblem::WrongType),
        }
    } else {
        let ok = match kind {
            FieldKind::Text | FieldKind::OptText => j is Str,
            FieldKind::Flag | FieldKind::OptFlag => j is Bool,
            _ => j is Number,
        };
        if ok {
            None
        } else {
            Some(DecodeProblem::WrongType)
        }
    }
}

/// The problem with a field of the given kind, `v` being its value if present.
pub open spec fn field_problem(v: Option<Json>, kind: FieldKind) -> Option<DecodeProblem> {
    match v {
        None => if optional(kind) {
            None
        } else {
            Some(DecodeProblem::Missing)
        },
        Some(j) => if optional(kind) && j is Null {
            None
        } else {
            value_problem(j, kind)
        },
    }
}

/// The string a field holds, or the empty string.
pub open spec fn text_of(v: Option<Json>) -> Seq<char> {
    match v {
        Some(Json::Str(s)) => s@,
        _ => Seq::empty(),
    }
}

/// The string a field holds, if it holds one.
pub open spec fn opt_text_of(v: Option<Json>) -> Option<Seq<char>> {
    match v {
        Some(Json::Str(s)) => Some(s@),
        _ => None,
    }
}

/// The view of an optional string.
pub open spec fn opt_view(o: Option<String>) -> Option<Seq<char>> {
    match o {
        Some(s) => Some(s@),
        None => None,
    }
}

/// The boolean a field holds, or `false`.
pub open spec fn flag_of(v: Option<Json>) -> bool {
    match v {
        Some(Json::Bool(b)) => b,
        _ => false,
    }
}

/// The boolean a field holds, if it holds one.
pub open spec fn opt_flag_of(v: Option<Json>) -> Option<bool> {
    match v {
        Some(Json::Bool(b)) => Some(b),
        _ => None,
    }
}

/// The integer a field holds when it fits the kind.
pub open spec fn opt_int_of(v: Option<Json>, kind: FieldKind) -> Option<int> {
    match v {
        Some(Json::Number(n)) => match int_value(n) {
            Some(x) => if in_range(kind, x) {
                Some(x)
            } else {
                None
            },
            None => None,
        },
        _ => None,
    }
}

/// The integer a field holds when it fits the kind, or zero.
pub open spec fn int_of(v: Option<Json>, kind: FieldKind) -> int {
    match opt_int_of(v, kind) {
        Some(x) => x,
        None => 0,
    }
}

/// Equality of two numbers by their mathematical content.
pub open spec fn same_number(a: JsonNumber, b: JsonNumber) -> bool {
    match (a, b) {
        (JsonNumber::PosInt(x), JsonNumber::PosInt(y)) => x == y,
        (JsonNumber::NegInt(x), JsonNumber::NegInt(y)) => x == y,
        (JsonNumber::Decimal(x), JsonNumber::Decimal(y)) => x@ == y@,
        _ => false,
    }
}

/// The number a field holds, or zero.
pub open spec fn number_matches(v: Option<Json>, n: JsonNumber) -> bool {
    match v {
        Some(Json::Number(m)) => same_number(m, n),
        _ => n == JsonNumber::PosInt(0),
    }
}

/// A copy of a number.
pub fn copy_number(n: &JsonNumber) -> (r: JsonNumber)
    ensures
        same_number(*n, r),
{
    match n {
        JsonNumber::PosInt(x) => JsonNumber::PosInt(*x),
        JsonNumber::NegInt(x) => JsonNumber::NegInt(*x),
        JsonNumber::Decimal(s) => JsonNumber::Decimal(s.clone()),
    }
}

/// The value of the member named `key`, if any.
pub fn get_member<'a>(ms: &'a Vec<JsonMember>, key: &str) -> (r: Option<&'a Json>)
    ensures
        match r {
            Some(j) => member(ms@, key@) == Some(*j),
            None => member(ms@, key@) is None,
        },
{
    match find_member(ms, key) {
        Some(i) => Some(&ms[i].value),
        None => None,
    }
}

fn integer_of(n: &JsonNumber, kind: FieldKind) -> (r: Option<u64>)
    requires
        kind is Uint32 || kind is Uint64,
    ensures
        r == (match int_value(*n) {
            Some(x) => if in_range(kind, x) {
                Some(x as u64)
            } else {
                None
            },
            None => None,
        }),
{
    match n {
        JsonNumber::PosInt(x) => {
            if kind == FieldKind::Uint32 && *x > 0xffff_ffffu64 {
                None
            } else {
                Some(*x)
            }
        },
        JsonNumber::NegInt(x) => {
            if *x >= 0 && (kind == FieldKind::Uint64 || *x <= 0xffff_ffffi64) {
                Some(*x as u64)
            } else {
                None
            }
        },
        JsonNumber::Decimal(_) => None,
    }
}

fn signed_of(n: &JsonNumber) -> (r: Option<i32>)
    ensures
        r == (match int_value(*n) {
            Some(x) => if in_range(FieldKind::Int32, x) {
                Some(x as i32)
            } else {
                None
            },
            None => None,
        }),
{
    match n {
        JsonNumber::PosInt(x) => {
            if *x <= 0x7fff_ffffu64 {
                Some(*x as i32)
            } else {
                None
            }
        },
        JsonNumber::NegInt(x) => {
            if -0x8000_0000i64 <= *x && *x <= 0x7fff_ffffi64 {
                Some(*x as i32)
            } else {
                None
            }
        },
        JsonNumber::Decimal(_) => None,
    }
}

/// The problem, if any, with the member `key` read as a field of `kind`.
pub fn check_field(ms: &Vec<JsonMember>, key: &str, kind: FieldKind) -> (r: Option<DecodeProblem>)
    ensures
        r == field_problem(member(ms@, key@), kind),
{
    let opt = kind == FieldKind::OptText || kind == FieldKind::OptFlag || kind
        == FieldKind::OptInt32;
    match get_member(ms, key) {
        None => {
            if opt {
                None
            } else {
                Some(DecodeProblem::Missing)
            }
        },
        Some(j) => {
            if opt && matches!(j, Json::Null) {
                return None;
            }
            match kind {
                FieldKind::Text | FieldKind::OptText => {
                    if matches!(j, Json::Str(_)) {
                        None
                    } else {
                        Some(DecodeProblem::WrongType)
                    }
                },
                FieldKind::Flag | FieldKind::OptFlag => {
                    if matches!(j, Json::Bool(_)) {
                        None
                    } else {
                        Some(DecodeProblem::WrongType)
                    }
                },
                FieldKind::Number => {
                    if matches!(j, Json::Number(_)) {
                        None
                    } else {
                        Some(DecodeProblem::WrongType)
                    }
                },
                FieldKind::Int32 | FieldKind::OptInt32 => match j {
                    Json::Number(n) => match n {
                        JsonNumber::Decimal(_) => Some(DecodeProblem::WrongType),
                        _ => match signed_of(n) {
                            Some(_) => None,
                            None => Some(DecodeProblem::OutOfRange),
                        },
                    },
                    _ => Some(DecodeProblem::WrongType),
                },
                FieldKind::Uint32 | FieldKind::Uint64 => match j {
                    Json::Number(n) => match n {
                        JsonNumber::Decimal(_) => Some(DecodeProblem::WrongType),
                        _ => match integer_of(n, kind) {
                            Some(_) => None,
                            None => Some(DecodeProblem::OutOfRange),
                        },
                    },
                    _ => Some(DecodeProblem::WrongType),
                },
            }
        },
    }
}

/// The string the member `key` holds, or the empty string.
pub fn take_text(ms: &Vec<JsonMember>, key: &str) -> (r: String)
    ensures
        r@ == text_of(member(ms@, key@)),
{
    match get_member(ms, key) {
        Some(Json::Str(s)) => s.clone(),
        _ => String::new(),
    }
}

/// The string the member `key` holds, if it holds one.
pub fn take_opt_text(ms: &Vec<JsonMember>, key: &str) -> (r: Option<String>)
    ensures
        opt_view(r) == opt_text_of(member(ms@, key@)),
{
    match get_member(ms, key) {
        Some(Json::Str(s)) => Some(s.clone()),
        _ => None,
    }
}

/// The boolean the member `key` holds, or `false`.
pub fn take_flag(ms: &Vec<JsonMember>, key: &str) -> (r: bool)
    ensures
        r == flag_of(member(ms@, key@)),
{
    match get_member(ms, key) {
        Some(Json::Bool(b)) => *b,
        _ => false,
    }
}

/// The boolean the member `key` holds, if it holds one.
pub fn take_opt_flag(ms: &Vec<JsonMember>, key: &str) -> (r: Option<bool>)
    ensures
        r == opt_flag_of(member(ms@, key@)),
{
    match get_member(ms, key) {
        Some(Json::Bool(b)) => Some(*b),
        _ => None,
    }
}

/// The `i32` the member `key` holds, if it holds one.
pub fn take_opt_i32(ms: &Vec<JsonMember>, key: &str) -> (r: Option<i32>)
    ensures
        match r {
            Some(x) => opt_int_of(member(ms@, key@), FieldKind::Int32) == Some(x as int),
            None => opt_int_of(member(ms@, key@), FieldKind::Int32) is None,
        },
{
    match get_member(ms, key) {
        Some(Json::Number(n)) => signed_of(n),
        _ => None,
    }
}

/// The `i32` the member `key` holds, or zero.
pub fn take_i32(ms: &Vec<JsonMember>, key: &str) -> (r: i32)
    ensures
        r as int == int_of(member(ms@, key@), FieldKind::Int32),
{
    match take_opt_i32(ms, key) {
        Some(x) => x,
        None => 0,
    }
}

/// The `u32` the member `key` holds, or zero.
pub fn take_u32(ms: &Vec<JsonMember>, key: &str) -> (r: u32)
    ensures
        r as int == int_of(member(ms@, key@), FieldKind::Uint32),
{
    match get_member(ms, key) {
        Some(Json::Number(n)) => match integer_of(n, FieldKind::Uint32) {
            Some(x) => x as u32,
            None => 0,
        },
        _ => 0,
    }
}

/// The `u64` the member `key` holds, or zero.
pub fn take_u64(ms: &Vec<JsonMember>, key: &str) -> (r: u64)
    ensures
        r as int == int_of(member(ms@, key@), FieldKind::Uint64),
{
    match get_member(ms, key) {
        Some(Json::Number(n)) => match integer_of(n, FieldKind::Uint64) {
            Some(x) => x,
            None => 0,
        },
        _ => 0,
    }
}

/// The number the member `key` holds, or zero.
pub fn take_number(ms: &Vec<JsonMember>, key: &str) -> (r: JsonNumber)
    ensures
        number_matches(member(ms@, key@), r),
{
    match get_member(ms, key) {
        Some(Json::Number(n)) => copy_number(n),
        _ => JsonNumber::PosInt(0),
    }
}

/// A failure on the field `key`.
pub fn field_error(key: &str, p: DecodeProblem) -> (r: DecodeError)
    ensures
        r@ == DecodeErrorView::Field(key@, p),
{
    DecodeError::Field(String::from_str(key), p)
}

} // verus!
