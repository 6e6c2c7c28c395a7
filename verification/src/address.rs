//! Addresses of remote content.

use vstd::prelude::*;
use crate::protocol::{PipelineError, PipelineErrorView};

verus! {

/// What `reqwest::Url::parse` makes of a text: `Ok` with the address in its
/// serialised form, or `Err` with the parser's message.
pub uninterp spec fn url_parse(text: Seq<char>) -> Result<Seq<char>, Seq<char>>;

/// The texts of a result of two strings.
pub open spec fn result_text(r: Result<String, String>) -> Result<Seq<char>, Seq<char>> {
    match r {
        Ok(s) => Ok(s@),
        Err(e) => Err(e@),
    }
}

/// Calls `reqwest::Url::parse` on `text`. Nothing is claimed of what the
/// parser accepts or how it writes an address down, only that the outcome is
/// the one that `url_parse` names: the serialisation of the parsed address,
/// or the text of the parser's error.
#[verifier::external_body]
fn parse_url(text: &str) -> (parsed: Result<String, String>)
    ensures
        result_text(parsed) == url_parse(text@),
{
    match reqwest::Url::parse(text) {
        Ok(url) => Ok(String::from(url)),
        Err(error) => Err(error.to_string()),
    }
}

/// What a parsed address means for a fetch: the address to ask for, or the
/// failure of the fetch with the parser's message.
pub open spec fn checked_address(parsed: Result<Seq<char>, Seq<char>>) -> Result<
    Seq<char>,
    PipelineErrorView,
> {
    match parsed {
        Ok(url) => Ok(url),
        Err(message) => Err(PipelineErrorView::NetworkFetch(message)),
    }
}

/// The view of a checked address.
pub open spec fn address_view(r: Result<String, PipelineError>) -> Result<
    Seq<char>,
    PipelineErrorView,
> {
    match r {
        Ok(url) => Ok(url@),
        Err(error) => Err(error@),
    }
}

/// Turns the outcome of parsing an address into the address to fetch, or
/// into the error that ends the run.
pub fn check_address(parsed: Result<String, String>) -> (address: Result<String, PipelineError>)
    ensures
        address_view(address) == checked_address(result_text(parsed)),
{
    match parsed {
        Ok(url) => Ok(url),
        Err(message) => Err(PipelineError::NetworkFetch(message)),
    }
}

/// Parses `text` as an address and returns it in serialised form. A text that
/// is no address is a failed fetch.
pub fn resolve_address(text: &str) -> (address: Result<String, PipelineError>)
    ensures
        address_view(address) == checked_address(url_parse(text@)),
{
    check_address(parse_url(text))
}

} // verus!
