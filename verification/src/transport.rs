//! The HTTP client that carries the requests: how it is set up and shared.
//! Nothing here sends anything.

use vstd::prelude::*;

use crate::headers::has_room;
use crate::headers::header_entries;
use reqwest::header::HeaderMap;
use reqwest::header::HeaderValue;
use reqwest::Client;
use std::time::Duration;

verus! {

/// `reqwest::Client`: the HTTP client. It is only carried and handed out.
#[verifier::external_type_specification]
#[verifier::external_body]
pub struct ExClient(Client);

/// `reqwest::Error`: a failure of the HTTP layer. It is only passed on.
#[verifier::external_type_specification]
#[verifier::external_body]
pub struct ExTransportError(reqwest::Error);

/// `Client::builder`, `ClientBuilder::connect_timeout`,
/// `ClientBuilder::default_headers` and `ClientBuilder::build`, in that
/// order: a client that allows `connect_seconds` for connecting and sends
/// `headers` with every request, unless the HTTP layer cannot set itself up
/// on this machine. The builder copies the headers into a map of its own
/// that holds one name already, so they must leave room.
#[verifier::external_body]
pub(crate) fn build_client(headers: HeaderMap<HeaderValue>, connect_seconds: u64) -> Result<
    Client,
    reqwest::Error,
>
    requires
        has_room(header_entries(headers)),
{
    Client::builder().connect_timeout(Duration::from_secs(connect_seconds)).default_headers(
        headers,
    ).build()
}

/// `Client::clone`: another handle on the same client and its connections.
#[verifier::external_body]
pub(crate) fn share_client(client: &Client) -> (shared: Client)
    ensures
        shared == *client,
{
    client.clone()
}

} // verus!
