//! The state of one light, read from the `state` member of its document.

use crate::json::{is_object, json_view, member, JsonModel};
use crate::shape::{level_member, read_level, read_switch, reports, switch_member, ShapeFault};
use crate::types::{Error, LightState};
use serde_json::Value;
use vstd::prelude::*;

verus! {

/// An attribute of at most 16 bits.
pub open spec fn narrow16(value: Option<u64>) -> Option<u16> {
    match value {
        Some(n) => Some(n as u16),
        None => None,
    }
}

/// An attribute of at most 8 bits.
pub open spec fn narrow8(value: Option<u64>) -> Option<u8> {
    match value {
        Some(n) => Some(n as u8),
        None => None,
    }
}

/// The state that a `state` object holds.
pub open spec fn state_of_members(state: Map<Seq<char>, JsonModel>) -> Result<LightState, ShapeFault> {
    let on = switch_member(state, "on"@);
    let reachable = switch_member(state, "reachable"@);
    let hue = level_member(state, "hue"@, 65535);
    let bri = level_member(state, "bri"@, 255);
    let sat = level_member(state, "sat"@, 255);
    if on is None || reachable is None {
        Err(ShapeFault::BadSwitch)
    } else if hue is None || bri is None || sat is None {
        Err(ShapeFault::BadLevel)
    } else {
        Ok(
            LightState {
                on: on->Some_0,
                reachable: reachable->Some_0,
                hue: narrow16(hue->Some_0),
                bri: narrow8(bri->Some_0),
                sat: narrow8(sat->Some_0),
            },
        )
    }
}

/// The state that a light document holds: that of its member `state`, whatever
/// else the document has beside it.
pub open spec fn light_state_of(doc: JsonModel) -> Result<LightState, ShapeFault> {
    match doc {
        JsonModel::Object(top) => if top.contains_key("state"@) {
            match top["state"@] {
                JsonModel::Object(state) => state_of_members(state),
                _ => Err(ShapeFault::BadState),
            }
        } else {
            Err(ShapeFault::MissingState)
        },
        _ => Err(ShapeFault::NotAnObject),
    }
}

/// Nothing of a light document is read but its member `state`: two documents
/// with the same `state` hold the same state.
pub proof fn lemma_only_state_is_read(a: Map<Seq<char>, JsonModel>, b: Map<Seq<char>, JsonModel>)
    requires
        a.contains_key("state"@) <==> b.contains_key("state"@),
        a.contains_key("state"@) ==> a["state"@] == b["state"@],
    ensures
        light_state_of(JsonModel::Object(a)) == light_state_of(JsonModel::Object(b)),
{
}

/// Nothing of a `state` object is read but `on`, `reachable`, `hue`, `bri`
/// and `sat`: a member of another name changes nothing.
pub proof fn lemma_other_members_are_not_read(
    state: Map<Seq<char>, JsonModel>,
    name: Seq<char>,
    value: JsonModel,
)
    requires
        name != "on"@,
        name != "reachable"@,
        name != "hue"@,
        name != "bri"@,
        name != "sat"@,
    ensures
        state_of_members(state.insert(name, value)) == state_of_members(state),
{
}

/// Reads the state of a light from the document that the gateway answered
/// with. Only the member `state` counts: what stands beside it is not read.
pub fn light_state_from_document(doc: &Value) -> (r: Result<LightState, Error>)
    ensures
        reports(r, light_state_of(json_view(*doc))),
{
    if !is_object(doc) {
        return Err(ShapeFault::NotAnObject.into_error());
    }
    let state = match member(doc, "state") {
        None => {
            return Err(ShapeFault::MissingState.into_error());
        },
        Some(state) => state,
    };
    if !is_object(state) {
        return Err(ShapeFault::BadState.into_error());
    }
    let on = read_switch(state, "on");
    let reachable = read_switch(state, "reachable");
    let (on, reachable) = match (on, reachable) {
        (Some(on), Some(reachable)) => (on, reachable),
        _ => {
            return Err(ShapeFault::BadSwitch.into_error());
        },
    };
    let hue = read_level(state, "hue", 65535);
    let bri = read_level(state, "bri", 255);
    let sat = read_level(state, "sat", 255);
    match (hue, bri, sat) {
        (Some(hue), Some(bri), Some(sat)) => Ok(
            LightState {
                on,
                reachable,
                hue: narrow_hue(hue),
                bri: narrow_level(bri),
                sat: narrow_level(sat),
            },
        ),
        _ => Err(ShapeFault::BadLevel.into_error()),
    }
}

fn narrow_hue(value: Option<u64>) -> (r: Option<u16>)
    requires
        value matches Some(n) ==> n <= 65535,
    ensures
        r == narrow16(value),
{
    match value {
        Some(n) => Some(n as u16),
        None => None,
    }
}

fn narrow_level(value: Option<u64>) -> (r: Option<u8>)
    requires
        value matches Some(n) ==> n <= 255,
    ensures
        r == narrow8(value),
{
    match value {
        Some(n) => Some(n as u8),
        None => None,
    }
}

} // verus!
