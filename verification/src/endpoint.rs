//! The address of the telemetry server.

use vstd::prelude::*;
use crate::snapshot::text_view;

verus! {

/// Where the game-state server listens on this machine.
pub const ENDPOINT: &'static str = "ws://127.0.0.1:24050/websocket/v2";

/// The serialization of the URL that `url::Url::parse` reads from
/// `address`, where `address` is an absolute URL.
pub uninterp spec fn url_serialization(address: Seq<char>) -> Option<Seq<char>>;

/// Parses `address` with `url::Url::parse` and takes the URL's
/// serialization, which is what the URL converts to as a `String`.
///
/// Claimed: the text that comes back is the serialization named by
/// [`url_serialization`], and an address that `url` rejects gives `None`.
#[verifier::external_body]
pub(crate) fn parse_address(address: &str) -> (serialized: Option<String>)
    ensures
        text_view(serialized) == url_serialization(address@),
{
    url::Url::parse(address).ok().map(String::from)
}

/// The address to connect to: [`ENDPOINT`] as `url` serializes it, or
/// `None` if `url` does not take it for a URL.
pub fn endpoint() -> (address: Option<String>)
    ensures
        text_view(address) == url_serialization(ENDPOINT@),
{
    parse_address(ENDPOINT)
}

} // verus!
