//! The values that the client hands out: lights, their state, and failures.

use crate::ident::{append_decimal, decimal};
use vstd::prelude::*;
use vstd::std_specs::cmp::PartialEqSpecImpl;
use vstd::string::StringExecFns;

verus! {

/// A controllable light, as the gateway's directory lists it.
#[derive(Debug, Clone)]
pub struct Light {
    pub name: String,
    pub id: u32,
}

/// The mathematical content of a [`Light`].
pub struct LightView {
    pub name: Seq<char>,
    pub id: u32,
}

impl View for Light {
    type V = LightView;

    open spec fn view(&self) -> LightView {
        LightView { name: self.name@, id: self.id }
    }
}

/// Two lights are the same light where their ids are equal.
impl PartialEq for Light {
    fn eq(&self, other: &Light) -> (r: bool) {
        self.id == other.id
    }
}

impl PartialEqSpecImpl for Light {
    open spec fn obeys_eq_spec() -> bool {
        true
    }

    open spec fn eq_spec(&self, other: &Light) -> bool {
        self.id == other.id
    }
}

/// Where in a list the first light with an id stands, if one has it.
pub fn find_light(lights: &Vec<Light>, id: u32) -> (r: Option<usize>)
    ensures
        match r {
            Some(at) => at < lights.len() && lights[at as int].id == id && forall|j: int|
                0 <= j < at ==> lights[j].id != id,
            None => forall|j: int| 0 <= j < lights.len() ==> lights[j].id != id,
        },
{
    let mut i: usize = 0;
    while i < lights.len()
        invariant
            i <= lights.len(),
            forall|j: int| 0 <= j < i ==> lights[j].id != id,
        decreases lights.len() - i,
    {
        if lights[i].id == id {
            return Some(i);
        }
        i = i + 1;
    }
    None
}

/// A snapshot of one light. An attribute that the device does not report is `None`.
#[derive(Debug, Clone, Copy)]
pub struct LightState {
    pub on: bool,
    pub reachable: bool,
    pub hue: Option<u16>,
    pub bri: Option<u8>,
    pub sat: Option<u8>,
}

/// Why a directory key is no light id.
#[derive(Debug, Clone, Copy, PartialEq, Eq, Structural)]
pub enum IdParseFailure {
    /// The key has no characters.
    Empty,
    /// The key holds something other than decimal digits after an optional `+`.
    InvalidDigit,
    /// The digits denote a number above `u32::MAX`.
    PosOverflow,
}

impl IdParseFailure {
    /// The description of the failure.
    pub open spec fn text(self) -> Seq<char> {
        match self {
            IdParseFailure::Empty => "cannot parse integer from empty string"@,
            IdParseFailure::InvalidDigit => "invalid digit found in string"@,
            IdParseFailure::PosOverflow => "number too large to fit in target type"@,
        }
    }

    /// Writes the description of the failure.
    pub fn describe(self) -> (r: String)
        ensures
            r@ == self.text(),
    {
        match self {
            IdParseFailure::Empty => String::from_str("cannot parse integer from empty string"),
            IdParseFailure::InvalidDigit => String::from_str("invalid digit found in string"),
            IdParseFailure::PosOverflow => String::from_str(
                "number too large to fit in target type",
            ),
        }
    }
}

/// Why no usable HTTP answer was obtained.
#[derive(Debug, Clone)]
pub enum HttpFailure {
    /// The gateway address is no absolute URL with a host.
    InvalidUrl,
    /// The request did not complete; the text says why.
    Unreachable(String),
    /// The gateway answered with a status outside 200..=299.
    Status(u16),
    /// The gateway refused to pair because its link button was not pressed.
    LinkButtonNotPressed,
}

/// The mathematical content of an [`HttpFailure`].
pub enum HttpFailureView {
    InvalidUrl,
    Unreachable(Seq<char>),
    Status(u16),
    LinkButtonNotPressed,
}

impl View for HttpFailure {
    type V = HttpFailureView;

    open spec fn view(&self) -> HttpFailureView {
        match *self {
            HttpFailure::InvalidUrl => HttpFailureView::InvalidUrl,
            HttpFailure::Unreachable(why) => HttpFailureView::Unreachable(why@),
            HttpFailure::Status(code) => HttpFailureView::Status(code),
            HttpFailure::LinkButtonNotPressed => HttpFailureView::LinkButtonNotPressed,
        }
    }
}

/// A failed operation.
#[derive(Debug, Clone)]
pub enum Error {
    /// Transport: the request did not complete or the gateway refused it.
    HttpError(HttpFailure),
    /// A key of the light directory is no light id.
    IdParseError(IdParseFailure),
    /// An answer did not have the expected shape; the text describes the fault.
    ResponseParseError(String),
}

/// The mathematical content of an [`Error`].
pub enum ErrorView {
    HttpError(HttpFailureView),
    IdParseError(IdParseFailure),
    ResponseParseError(Seq<char>),
}

impl View for Error {
    type V = ErrorView;

    open spec fn view(&self) -> ErrorView {
        match *self {
            Error::HttpError(failure) => ErrorView::HttpError(failure@),
            Error::IdParseError(failure) => ErrorView::IdParseError(failure),
            Error::ResponseParseError(what) => ErrorView::ResponseParseError(what@),
        }
    }
}

impl ErrorView {
    /// The message that tells a user of the failure. A pairing refused for
    /// want of the link button has a message of its own.
    pub open spec fn message(self) -> Seq<char> {
        match self {
            ErrorView::HttpError(HttpFailureView::InvalidUrl) => "Error: the gateway address is not a usable URL"@,
            ErrorView::HttpError(HttpFailureView::Unreachable(why)) => why,
            ErrorView::HttpError(HttpFailureView::Status(code)) => "Error: "@ + decimal(code as nat),
            ErrorView::HttpError(HttpFailureView::LinkButtonNotPressed) => "Error: Authorization button was not pressed"@,
            ErrorView::IdParseError(failure) => "Error: "@ + failure.text(),
            ErrorView::ResponseParseError(what) => "Error: "@ + what,
        }
    }
}

impl Error {
    /// Writes the message that tells a user of the failure.
    pub fn describe(&self) -> (r: String)
        ensures
            r@ == self@.message(),
    {
        match self {
            Error::HttpError(HttpFailure::InvalidUrl) => String::from_str(
                "Error: the gateway address is not a usable URL",
            ),
            Error::HttpError(HttpFailure::Unreachable(why)) => why.clone(),
            Error::HttpError(HttpFailure::Status(code)) => {
                let mut message = String::from_str("Error: ");
                append_decimal(&mut message, *code as u32);
                message
            },
            Error::HttpError(HttpFailure::LinkButtonNotPressed) => String::from_str(
                "Error: Authorization button was not pressed",
            ),
            Error::IdParseError(failure) => {
                let mut message = String::from_str("Error: ");
                message.append(failure.describe().as_str());
                message
            },
            Error::ResponseParseError(what) => {
                let mut message = String::from_str("Error: ");
                message.append(what.as_str());
                message
            },
        }
    }

    /// Whether this is the failure of a pairing attempt made while the
    /// gateway's link button was not pressed.
    pub fn is_link_button_not_pressed(&self) -> (r: bool)
        ensures
            r == (self@ == ErrorView::HttpError(HttpFailureView::LinkButtonNotPressed)),
    {
        match self {
            Error::HttpError(HttpFailure::LinkButtonNotPressed) => true,
            _ => false,
        }
    }
}

} // verus!
