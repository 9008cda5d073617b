//! The answer to a pairing request: one element that holds the new token.

use crate::json::{element, is_object, json_view, member, JsonModel};
use crate::shape::{read_text, reports_text, text_member, ShapeFault};
use crate::types::Error;
use serde_json::Value;
use vstd::prelude::*;

verus! {

/// The token in the `success` object of a pairing answer's element.
pub open spec fn element_token(item: JsonModel) -> Option<Seq<char>> {
    match item {
        JsonModel::Object(top) => if top.contains_key("success"@) {
            match top["success"@] {
                JsonModel::Object(success) => text_member(success, "username"@),
                _ => None,
            }
        } else {
            None
        },
        _ => None,
    }
}

/// The token that a pairing answer holds: that of its only element.
pub open spec fn token_of(doc: JsonModel) -> Result<Seq<char>, ShapeFault> {
    match doc {
        JsonModel::Array(items) => if items.len() == 1 {
            match element_token(items[0]) {
                Some(token) => Ok(token),
                None => Err(ShapeFault::MissingToken),
            }
        } else {
            Err(ShapeFault::NotOneElement)
        },
        _ => Err(ShapeFault::NotOneElement),
    }
}

/// Reads the token from the document that the gateway answered a pairing
/// request with.
pub fn token_from_document(doc: &Value) -> (r: Result<String, Error>)
    ensures
        reports_text(r, token_of(json_view(*doc))),
{
    let first = match element(doc, 0) {
        None => {
            return Err(ShapeFault::NotOneElement.into_error());
        },
        Some(first) => first,
    };
    if element(doc, 1).is_some() {
        return Err(ShapeFault::NotOneElement.into_error());
    }
    let success = match member(first, "success") {
        None => {
            return Err(ShapeFault::MissingToken.into_error());
        },
        Some(success) => success,
    };
    if !is_object(success) {
        return Err(ShapeFault::MissingToken.into_error());
    }
    match read_text(success, "username") {
        None => Err(ShapeFault::MissingToken.into_error()),
        Some(token) => Ok(token),
    }
}

} // verus!
