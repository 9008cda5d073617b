//! Gateway addresses, handled by the `url` implementation that `reqwest` exports.
//!
//! An address stays a `reqwest::Url`. Contracts speak of it through its text,
//! [`url_text`], which is also what the type's own equality compares.

use reqwest::Url;
use vstd::prelude::*;

verus! {

/// `reqwest::Url`, a parsed absolute URL. Nothing of its inside is visible to
/// proofs but what [`url_text`] names.
#[verifier::external_type_specification]
#[verifier::external_body]
pub struct ExUrl(reqwest::Url);

/// The serialized form of an address.
pub uninterp spec fn url_text(u: Url) -> Seq<char>;

/// The serialized form of the address that a text parses to, `None` where the
/// text is no absolute URL.
pub uninterp spec fn parsed_url(text: Seq<char>) -> Option<Seq<char>>;

/// Whether the address with this serialized form names a host.
pub uninterp spec fn url_has_host(text: Seq<char>) -> bool;

/// The serialized form of the address that a reference resolves to against a
/// base, `None` where it cannot be resolved.
pub uninterp spec fn joined_url(base: Seq<char>, reference: Seq<char>) -> Option<Seq<char>>;

/// `Clone::clone` of `Url`, which the type derives. Trusted: the copy has the
/// same serialized form.
pub assume_specification[ <Url as Clone>::clone ](u: &Url) -> (r: Url)
    ensures
        url_text(r) == url_text(*u),
;

/// Calls `Url::parse`. Trusted: the outcome is the one that [`parsed_url`]
/// names for this text.
#[verifier::external_body]
pub(crate) fn parse_url(text: &str) -> (r: Option<Url>)
    ensures
        match r {
            Some(u) => parsed_url(text@) == Some(url_text(u)),
            None => parsed_url(text@) is None,
        },
{
    Url::parse(text).ok()
}

/// Calls `Url::has_host`. Trusted: the answer is the one that [`url_has_host`]
/// names for this address, which is to say that it depends on the address's
/// serialized form alone.
#[verifier::external_body]
pub(crate) fn has_host(u: &Url) -> (r: bool)
    ensures
        r == url_has_host(url_text(*u)),
{
    u.has_host()
}

/// Calls `Url::join`. Trusted: the outcome is the one that [`joined_url`]
/// names for this base and reference, which is to say that it depends on the
/// base's serialized form and the reference alone.
#[verifier::external_body]
pub(crate) fn join_url(base: &Url, reference: &str) -> (r: Option<Url>)
    ensures
        match r {
            Some(u) => joined_url(url_text(*base), reference@) == Some(url_text(u)),
            None => joined_url(url_text(*base), reference@) is None,
        },
{
    base.join(reference).ok()
}

} // verus!
