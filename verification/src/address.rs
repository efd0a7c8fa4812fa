//! The address of the duplex stream.

use crate::error::ConnectionErrorView;
use crate::views::option_view;
use vstd::prelude::*;

verus! {

/// What URL parsing makes of a text: the serialisation of the absolute URL
/// that was read from it, or `None` where the text is no such URL.
pub uninterp spec fn parsed_url(text: Seq<char>) -> Option<Seq<char>>;

/// Parses a text with `reqwest::Url::parse` and hands back the serialisation
/// of the URL, `None` where the parser rejects the text.
///
/// Trusted, not proved: the result is the one that [`parsed_url`] names, that
/// is, it depends on the text alone. Nothing is claimed of what a URL looks
/// like.
#[verifier::external_body]
pub(crate) fn parse_url(text: &str) -> (parsed: Option<String>)
    ensures
        option_view(parsed) == parsed_url(text@),
{
    match reqwest::Url::parse(text) {
        Ok(url) => Some(String::from(url)),
        Err(_) => None,
    }
}

/// The address to open the stream at, given what URL parsing made of the
/// session's stream URL.
pub open spec fn address_of(parsed: Option<Seq<char>>) -> Result<Seq<char>, ConnectionErrorView> {
    match parsed {
        Some(address) => Ok(address),
        None => Err(ConnectionErrorView::InvalidUrl),
    }
}

} // verus!
