//! The shape that the gateway's answers are expected to have, and what is
//! reported where one has it not.

use crate::json::{as_bool, as_text, as_u64, is_null, json_view, member, JsonModel};
use crate::types::{Error, ErrorView};
use serde_json::Value;
use vstd::prelude::*;
use vstd::string::StringExecFns;

verus! {

/// The ways in which an answer can fail to have the expected shape.
#[derive(Debug, Clone, Copy, PartialEq, Eq, Structural)]
pub enum ShapeFault {
    /// The body is no JSON text.
    NotJson,
    /// The document is no JSON object.
    NotAnObject,
    /// A directory entry is no object with a `name` string.
    BadEntry,
    /// The document has no member `state`.
    MissingState,
    /// The member `state` is no object.
    BadState,
    /// `on` or `reachable` is missing or no boolean.
    BadSwitch,
    /// `hue`, `bri` or `sat` is present and neither `null` nor an integer in range.
    BadLevel,
    /// The document is no array of exactly one element.
    NotOneElement,
    /// The element holds no `success` object with a `username` string.
    MissingToken,
}

impl ShapeFault {
    /// The description that the error carries.
    pub open spec fn text(self) -> Seq<char> {
        match self {
            ShapeFault::NotJson => "the response body is not valid JSON"@,
            ShapeFault::NotAnObject => "the response is not a JSON object"@,
            ShapeFault::BadEntry => "a light entry is not an object with a `name` string"@,
            ShapeFault::MissingState => "missing field `state`"@,
            ShapeFault::BadState => "field `state` is not an object"@,
            ShapeFault::BadSwitch => "`on` or `reachable` is missing or not a boolean"@,
            ShapeFault::BadLevel => "`hue`, `bri` or `sat` is not an integer in range"@,
            ShapeFault::NotOneElement => "the response is not an array of exactly one element"@,
            ShapeFault::MissingToken => "missing `success` object with a `username` string"@,
        }
    }

    /// Writes the description.
    pub fn describe(self) -> (r: String)
        ensures
            r@ == self.text(),
    {
        match self {
            ShapeFault::NotJson => String::from_str("the response body is not valid JSON"),
            ShapeFault::NotAnObject => String::from_str("the response is not a JSON object"),
            ShapeFault::BadEntry => String::from_str(
                "a light entry is not an object with a `name` string",
            ),
            ShapeFault::MissingState => String::from_str("missing field `state`"),
            ShapeFault::BadState => String::from_str("field `state` is not an object"),
            ShapeFault::BadSwitch => String::from_str(
                "`on` or `reachable` is missing or not a boolean",
            ),
            ShapeFault::BadLevel => String::from_str(
                "`hue`, `bri` or `sat` is not an integer in range",
            ),
            ShapeFault::NotOneElement => String::from_str(
                "the response is not an array of exactly one element",
            ),
            ShapeFault::MissingToken => String::from_str(
                "missing `success` object with a `username` string",
            ),
        }
    }

    /// The error that reports this fault.
    pub open spec fn error_view(self) -> ErrorView {
        ErrorView::ResponseParseError(self.text())
    }

    /// Makes the error that reports this fault.
    pub fn into_error(self) -> (e: Error)
        ensures
            e@ == self.error_view(),
    {
        Error::ResponseParseError(self.describe())
    }
}

/// The member of an object under a name, if it is a string.
pub open spec fn text_member(members: Map<Seq<char>, JsonModel>, name: Seq<char>) -> Option<Seq<char>> {
    if members.contains_key(name) {
        match members[name] {
            JsonModel::Text(t) => Some(t),
            _ => None,
        }
    } else {
        None
    }
}

/// The member of an object under a name, if it is a boolean.
pub open spec fn switch_member(members: Map<Seq<char>, JsonModel>, name: Seq<char>) -> Option<bool> {
    if members.contains_key(name) {
        match members[name] {
            JsonModel::Bool(b) => Some(b),
            _ => None,
        }
    } else {
        None
    }
}

/// An optional attribute of at most `max`: `Some(None)` where the member is
/// absent or `null`, `Some(Some(n))` where it is the integer `n <= max`, and
/// `None` where it is anything else.
pub open spec fn level_member(members: Map<Seq<char>, JsonModel>, name: Seq<char>, max: u64) -> Option<Option<u64>> {
    if members.contains_key(name) {
        match members[name] {
            JsonModel::Null => Some(None),
            JsonModel::Number(Some(n)) => if n <= max {
                Some(Some(n))
            } else {
                None
            },
            _ => None,
        }
    } else {
        Some(None)
    }
}

/// What an operation returns for a value read from a document, or for the
/// fault found in it.
pub open spec fn reports<T>(r: Result<T, Error>, read: Result<T, ShapeFault>) -> bool {
    match read {
        Ok(value) => r == Ok::<T, Error>(value),
        Err(fault) => r matches Err(e) && e@ == fault.error_view(),
    }
}

/// What an operation returns for a text read from a document, or for the
/// fault found in it.
pub open spec fn reports_text(r: Result<String, Error>, read: Result<Seq<char>, ShapeFault>) -> bool {
    match read {
        Ok(text) => r matches Ok(s) && s@ == text,
        Err(fault) => r matches Err(e) && e@ == fault.error_view(),
    }
}

pub(crate) fn read_text(members: &Value, name: &str) -> (r: Option<String>)
    requires
        json_view(*members) is Object,
    ensures
        match text_member(json_view(*members)->Object_0, name@) {
            Some(t) => r matches Some(s) && s@ == t,
            None => r is None,
        },
{
    match member(members, name) {
        None => None,
        Some(v) => match as_text(v) {
            None => None,
            Some(s) => Some(String::from_str(s)),
        },
    }
}

pub(crate) fn read_switch(members: &Value, name: &str) -> (r: Option<bool>)
    requires
        json_view(*members) is Object,
    ensures
        r == switch_member(json_view(*members)->Object_0, name@),
{
    match member(members, name) {
        None => None,
        Some(v) => as_bool(v),
    }
}

pub(crate) fn read_level(members: &Value, name: &str, max: u64) -> (r: Option<Option<u64>>)
    requires
        json_view(*members) is Object,
    ensures
        r == level_member(json_view(*members)->Object_0, name@, max),
{
    match member(members, name) {
        None => Some(None),
        Some(v) => if is_null(v) {
            Some(None)
        } else {
            match as_u64(v) {
                Some(n) => if n <= max {
                    Some(Some(n))
                } else {
                    None
                },
                None => None,
            }
        },
    }
}

} // verus!
