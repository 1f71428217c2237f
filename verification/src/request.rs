//! The plan of one HTTP request: what to send and where, as plain values.

use vstd::prelude::*;

verus! {

/// The HTTP methods that the API is called with.
#[derive(Clone, Copy, Debug, PartialEq, Eq, Structural)]
pub enum Method {
    Get,
    Post,
    Put,
    Delete,
}

/// One request, ready to be handed to an HTTP client. The headers are the
/// client's own and are not repeated here.
#[derive(Debug)]
pub struct Request {
    /// The method to call with.
    pub method: Method,
    /// The full URL: the base URL followed by the resource's path.
    pub url: String,
    /// The JSON text to send, where the call sends any.
    pub body: Option<String>,
}

impl Method {
    /// The method's name as it stands on the wire.
    pub open spec fn name(self) -> Seq<char> {
        match self {
            Method::Get => "GET"@,
            Method::Post => "POST"@,
            Method::Put => "PUT"@,
            Method::Delete => "DELETE"@,
        }
    }

    /// The method's name as it stands on the wire.
    pub fn as_str(self) -> (name: &'static str)
        ensures
            name@ == self.name(),
    {
        match self {
            Method::Get => "GET",
            Method::Post => "POST",
            Method::Put => "PUT",
            Method::Delete => "DELETE",
        }
    }
}

impl Request {
    /// A request without a body.
    pub fn bare(method: Method, url: String) -> (request: Request)
        ensures
            request.method == method,
            request.url == url,
            request.body is None,
    {
        Request { method, url, body: None }
    }

    /// A request that sends `body`.
    pub fn with_body(method: Method, url: String, body: String) -> (request: Request)
        ensures
            request.method == method,
            request.url == url,
            request.body == Some(body),
    {
        Request { method, url, body: Some(body) }
    }
}

} // verus!
