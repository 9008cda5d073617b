//! The client of one gateway: its address and token, the requests it makes
//! and what it reads from the gateway's replies.
//!
//! The client sends nothing itself. Each operation is a pair: a function that
//! gives the [`Request`] to send, and one that takes the [`Reply`] and gives
//! the operation's result.

use crate::address::{has_host, join_url, joined_url, parse_url, parsed_url, url_has_host, url_text};
use crate::directory::{is_directory_outcome, lights_from_document};
use crate::pairing::{token_from_document, token_of};
use crate::shape::{reports, ShapeFault};
use crate::state::{light_state_from_document, light_state_of};
use crate::json::{json_document, parse_document};
use crate::request::{
    color_body, light_path, light_state_path, lights_path, on_state_body, pairing_body, pairing_path,
    write_color_body, write_light_path, write_light_state_path, write_lights_path, write_on_state_body,
    write_pairing_body, Method, Request,
};
use crate::types::{Error, ErrorView, HttpFailure, HttpFailureView, Light, LightState};
use reqwest::Url;
use vstd::prelude::*;
use vstd::string::StrSliceExecFns;
use vstd::string::StringExecFns;

verus! {

/// What came of sending a request.
#[derive(Debug, Clone)]
pub enum Reply {
    /// No answer was obtained; the text says why.
    Failed(String),
    /// The gateway answered.
    Answered { status: u16, body: String },
}

/// The statuses with which the gateway accepts a request.
pub open spec fn is_success(status: u16) -> bool {
    200 <= status <= 299
}

/// The transport failure that a reply amounts to, if it does.
pub open spec fn transport_failure(reply: Reply) -> Option<HttpFailureView> {
    match reply {
        Reply::Failed(why) => Some(HttpFailureView::Unreachable(why@)),
        Reply::Answered { status, body } => if is_success(status) {
            None
        } else {
            Some(HttpFailureView::Status(status))
        },
    }
}

/// The transport failure that a reply to a pairing request amounts to, if it
/// does: status 403 there means that the link button was not pressed.
pub open spec fn pairing_failure(reply: Reply) -> Option<HttpFailureView> {
    match reply {
        Reply::Answered { status, body } => if status == 403 {
            Some(HttpFailureView::LinkButtonNotPressed)
        } else {
            transport_failure(reply)
        },
        _ => transport_failure(reply),
    }
}

/// The serialized form of the gateway address that a text gives: it has to
/// parse as an absolute URL that names a host.
pub open spec fn gateway_address(text: Seq<char>) -> Option<Seq<char>> {
    match parsed_url(text) {
        Some(address) => if url_has_host(address) {
            Some(address)
        } else {
            None
        },
        None => None,
    }
}

/// The error for an address that cannot be used.
pub open spec fn invalid_url() -> ErrorView {
    ErrorView::HttpError(HttpFailureView::InvalidUrl)
}

/// The view of an optional body.
pub open spec fn body_view(body: Option<String>) -> Option<Seq<char>> {
    match body {
        Some(text) => Some(text@),
        None => None,
    }
}

/// What building a request gives: the request with this method and body for
/// the address that the path resolves to against the base, or the error for
/// an unusable address where it resolves to none.
pub open spec fn is_request_for(
    r: Result<Request, Error>,
    method: Method,
    base: Seq<char>,
    path: Seq<char>,
    body: Option<Seq<char>>,
) -> bool {
    match joined_url(base, path) {
        Some(target) => r matches Ok(request) && request.method == method && url_text(request.url)
            == target && body_view(request.body) == body,
        None => r matches Err(e) && e@ == invalid_url(),
    }
}

/// An authorized client of a deCONZ gateway.
#[derive(Debug, Clone)]
pub struct DeconzClient {
    /// The address of the gateway.
    url: Url,
    /// The API token for the gateway.
    pub username: String,
}

fn build_request(base: &Url, method: Method, path: &str, body: Option<String>) -> (r: Result<
    Request,
    Error,
>)
    ensures
        is_request_for(r, method, url_text(*base), path@, body_view(body)),
{
    match join_url(base, path) {
        Some(url) => Ok(Request { method, url, body }),
        None => Err(Error::HttpError(HttpFailure::InvalidUrl)),
    }
}

/// Gives the body of a reply that the gateway accepted, or the transport
/// failure that the reply amounts to.
pub fn accepted_body(reply: &Reply) -> (r: Result<&str, Error>)
    ensures
        match transport_failure(*reply) {
            Some(failure) => r matches Err(e) && e@ == ErrorView::HttpError(failure),
            None => r matches Ok(body) && body@ == reply->body@,
        },
{
    match reply {
        Reply::Failed(why) => Err(Error::HttpError(HttpFailure::Unreachable(why.clone()))),
        Reply::Answered { status, body } => {
            if 200 <= *status && *status <= 299 {
                Ok(body.as_str())
            } else {
                Err(Error::HttpError(HttpFailure::Status(*status)))
            }
        },
    }
}

/// Confirms that the gateway accepted a write: any reply with a status in
/// 200..=299 does, whatever its body holds.
pub fn confirm_write(reply: &Reply) -> (r: Result<(), Error>)
    ensures
        match transport_failure(*reply) {
            Some(failure) => r matches Err(e) && e@ == ErrorView::HttpError(failure),
            None => r is Ok,
        },
{
    match accepted_body(reply) {
        Ok(_) => Ok(()),
        Err(e) => Err(e),
    }
}

/// Whether `://` stands somewhere in a text.
pub open spec fn names_scheme(text: Seq<char>) -> bool {
    exists|i: int| marks_scheme(text, i)
}

/// Whether `://` stands at a position of a text.
pub open spec fn marks_scheme(text: Seq<char>, i: int) -> bool {
    0 <= i && i + 3 <= text.len() && text[i] == ':' && text[i + 1] == '/' && text[i + 2] == '/'
}

/// An address as a user may type it, made a URL: one without a scheme is
/// taken as `http`.
pub open spec fn address_with_scheme(text: Seq<char>) -> Seq<char> {
    if names_scheme(text) {
        text
    } else {
        "http://"@ + text
    }
}

/// Puts `http://` before an address that names no scheme.
pub fn with_scheme(address: &str) -> (r: String)
    ensures
        r@ == address_with_scheme(address@),
{
    let len: usize = address.unicode_len();
    let mut i: usize = 0;
    while i < len && len - i >= 3
        invariant
            len == address@.len(),
            i <= len,
            forall|j: int| 0 <= j < i ==> !marks_scheme(address@, j),
        decreases len - i,
    {
        if address.get_char(i) == ':' && address.get_char(i + 1) == '/' && address.get_char(i + 2)
            == '/' {
            proof {
                assert(marks_scheme(address@, i as int));
            }
            return String::from_str(address);
        }
        i = i + 1;
    }
    let mut r = String::from_str("http://");
    r.append(address);
    r
}

/// Reads the gateway address from a text.
pub fn parse_gateway_address(text: &str) -> (r: Result<Url, Error>)
    ensures
        match gateway_address(text@) {
            Some(address) => r matches Ok(url) && url_text(url) == address,
            None => r matches Err(e) && e@ == invalid_url(),
        },
{
    match parse_url(text) {
        Some(url) => {
            if has_host(&url) {
                Ok(url)
            } else {
                Err(Error::HttpError(HttpFailure::InvalidUrl))
            }
        },
        None => Err(Error::HttpError(HttpFailure::InvalidUrl)),
    }
}

/// The mathematical content of a [`DeconzClient`].
pub struct ClientView {
    /// The serialized form of the gateway's address.
    pub base: Seq<char>,
    /// The token.
    pub username: Seq<char>,
}

impl View for DeconzClient {
    type V = ClientView;

    closed spec fn view(&self) -> ClientView {
        ClientView { base: url_text(self.url), username: self.username@ }
    }
}

impl DeconzClient {
    /// The address of the gateway.
    pub fn url(&self) -> (r: &Url)
        ensures
            url_text(*r) == self@.base,
    {
        &self.url
    }

    /// The token, also known as username.
    pub fn token(&self) -> (r: &str)
        ensures
            r@ == self@.username,
    {
        self.username.as_str()
    }

    /// Creates a client from an existing token, also known as username.
    ///
    /// The token is not validated: a wrong one shows as a transport failure
    /// of the first reply.
    pub fn login_with_token(url: &str, token: String) -> (r: Result<DeconzClient, Error>)
        ensures
            match gateway_address(url@) {
                Some(address) => r matches Ok(client) && client@ == (ClientView {
                    base: address,
                    username: token@,
                }),
                None => r matches Err(e) && e@ == invalid_url(),
            },
    {
        match parse_gateway_address(url) {
            Ok(url) => Ok(DeconzClient { url, username: token }),
            Err(e) => Err(e),
        }
    }

    /// The request that asks a gateway for a token. The gateway grants one
    /// only while its link button is pressed.
    pub fn pairing_request(url: &str) -> (r: Result<Request, Error>)
        ensures
            match gateway_address(url@) {
                Some(address) => is_request_for(
                    r,
                    Method::Post,
                    address,
                    pairing_path(),
                    Some(pairing_body()),
                ),
                None => r matches Err(e) && e@ == invalid_url(),
            },
    {
        match parse_gateway_address(url) {
            Ok(base) => build_request(&base, Method::Post, "api", Some(write_pairing_body())),
            Err(e) => Err(e),
        }
    }

    /// What logging in with the link button gives, for the reply to the
    /// pairing request: a failure for an unusable address; else the transport
    /// failure that the reply amounts to; else a shape fault for a body that is
    /// not the expected envelope; else a client with the token of the envelope.
    pub open spec fn is_pairing_outcome(url: Seq<char>, reply: Reply, r: Result<DeconzClient, Error>) -> bool {
        match gateway_address(url) {
            None => r matches Err(e) && e@ == invalid_url(),
            Some(address) => match pairing_failure(reply) {
                Some(failure) => r matches Err(e) && e@ == ErrorView::HttpError(failure),
                None => match json_document(reply->body@) {
                    None => r matches Err(e) && e@ == ShapeFault::NotJson.error_view(),
                    Some(doc) => match token_of(doc) {
                        Ok(token) => r matches Ok(client) && client@ == (ClientView {
                            base: address,
                            username: token,
                        }),
                        Err(fault) => r matches Err(e) && e@ == fault.error_view(),
                    },
                },
            },
        }
    }

    /// A pairing that the gateway answers with status 403 fails for want of
    /// the link button, and not as any other refused request does.
    pub proof fn lemma_unpressed_button_is_told_apart(
        url: Seq<char>,
        body: String,
        r: Result<DeconzClient, Error>,
    )
        requires
            gateway_address(url) is Some,
            Self::is_pairing_outcome(url, Reply::Answered { status: 403, body }, r),
        ensures
            r matches Err(e) && e@ == ErrorView::HttpError(HttpFailureView::LinkButtonNotPressed),
            r matches Err(e) && e@ != ErrorView::HttpError(HttpFailureView::Status(403)),
    {
    }

    /// Creates a client by logging in with the link button: reads the reply
    /// to the pairing request for this address.
    pub fn login_with_link_button(url: &str, reply: &Reply) -> (r: Result<DeconzClient, Error>)
        ensures
            Self::is_pairing_outcome(url@, *reply, r),
    {
        let url = match parse_gateway_address(url) {
            Ok(url) => url,
            Err(e) => {
                return Err(e);
            },
        };
        if let Reply::Answered { status, body } = reply {
            if *status == 403 {
                return Err(Error::HttpError(HttpFailure::LinkButtonNotPressed));
            }
        }
        let body = match accepted_body(reply) {
            Ok(body) => body,
            Err(e) => {
                return Err(e);
            },
        };
        let doc = match parse_document(body) {
            Some(doc) => doc,
            None => {
                return Err(ShapeFault::NotJson.into_error());
            },
        };
        match token_from_document(&doc) {
            Ok(username) => Ok(DeconzClient { url, username }),
            Err(e) => Err(e),
        }
    }

    /// The request that fetches the light directory.
    pub fn light_list_request(&self) -> (r: Result<Request, Error>)
        ensures
            is_request_for(r, Method::Get, self@.base, lights_path(self@.username), None),
    {
        let path = write_lights_path(self.username.as_str());
        build_request(&self.url, Method::Get, path.as_str(), None)
    }

    /// The request that fetches one light.
    pub fn light_state_request(&self, light: &Light) -> (r: Result<Request, Error>)
        ensures
            is_request_for(r, Method::Get, self@.base, light_path(self@.username, light.id), None),
    {
        let path = write_light_path(self.username.as_str(), light.id);
        build_request(&self.url, Method::Get, path.as_str(), None)
    }

    /// The request that switches a light on or off. Its body holds the
    /// member `on` and nothing else.
    pub fn on_state_request(&self, light: &Light, state: bool) -> (r: Result<Request, Error>)
        ensures
            is_request_for(
                r,
                Method::Put,
                self@.base,
                light_state_path(self@.username, light.id),
                Some(on_state_body(state)),
            ),
    {
        let path = write_light_state_path(self.username.as_str(), light.id);
        build_request(&self.url, Method::Put, path.as_str(), Some(write_on_state_body(state)))
    }

    /// The request that changes a light's colour. Its body holds those of
    /// `hue`, `bri` and `sat` that are given and nothing else.
    pub fn light_color_request(
        &self,
        light: &Light,
        hue: Option<u16>,
        bri: Option<u8>,
        sat: Option<u8>,
    ) -> (r: Result<Request, Error>)
        ensures
            is_request_for(
                r,
                Method::Put,
                self@.base,
                light_state_path(self@.username, light.id),
                Some(color_body(hue, bri, sat)),
            ),
    {
        let path = write_light_state_path(self.username.as_str(), light.id);
        build_request(
            &self.url,
            Method::Put,
            path.as_str(),
            Some(write_color_body(hue, bri, sat)),
        )
    }

    /// Reads the light directory from the reply to [`Self::light_list_request`].
    pub fn get_light_list(&self, reply: &Reply) -> (r: Result<Vec<Light>, Error>)
        ensures
            match transport_failure(*reply) {
                Some(failure) => r matches Err(e) && e@ == ErrorView::HttpError(failure),
                None => match json_document(reply->body@) {
                    Some(doc) => is_directory_outcome(doc, r),
                    None => r matches Err(e) && e@ == ShapeFault::NotJson.error_view(),
                },
            },
    {
        let body = match accepted_body(reply) {
            Ok(body) => body,
            Err(e) => {
                return Err(e);
            },
        };
        match parse_document(body) {
            Some(doc) => lights_from_document(&doc),
            None => Err(ShapeFault::NotJson.into_error()),
        }
    }

    /// Reads the state of a light from the reply to [`Self::light_state_request`].
    pub fn get_light_state(&self, reply: &Reply) -> (r: Result<LightState, Error>)
        ensures
            match transport_failure(*reply) {
                Some(failure) => r matches Err(e) && e@ == ErrorView::HttpError(failure),
                None => match json_document(reply->body@) {
                    Some(doc) => reports(r, light_state_of(doc)),
                    None => r matches Err(e) && e@ == ShapeFault::NotJson.error_view(),
                },
            },
    {
        let body = match accepted_body(reply) {
            Ok(body) => body,
            Err(e) => {
                return Err(e);
            },
        };
        match parse_document(body) {
            Some(doc) => light_state_from_document(&doc),
            None => Err(ShapeFault::NotJson.into_error()),
        }
    }

    /// Reads the reply to [`Self::on_state_request`].
    pub fn set_on_state(&self, reply: &Reply) -> (r: Result<(), Error>)
        ensures
            match transport_failure(*reply) {
                Some(failure) => r matches Err(e) && e@ == ErrorView::HttpError(failure),
                None => r is Ok,
            },
    {
        confirm_write(reply)
    }

    /// Reads the reply to [`Self::light_color_request`].
    pub fn set_light_color(&self, reply: &Reply) -> (r: Result<(), Error>)
        ensures
            match transport_failure(*reply) {
                Some(failure) => r matches Err(e) && e@ == ErrorView::HttpError(failure),
                None => r is Ok,
            },
    {
        confirm_write(reply)
    }
}

} // verus!
