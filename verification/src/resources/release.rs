use vstd::prelude::*;

use crate::request::Method;
use crate::request::Request;
use crate::url::collection_path;
use crate::url::collection_path_text;
use crate::url::join;
use crate::url::joined;
use reqwest::Client;

verus! {

/// A release as the API sends it.
#[derive(Debug)]
pub struct ReleaseDto {
    /// The id of the release.
    pub release_id: Option<u64>,
    /// The full name of the release.
    pub full_name: Option<String>,
}

impl Default for ReleaseDto {
    /// A release with every field absent.
    fn default() -> (empty: Self)
        ensures
            empty.release_id is None,
            empty.full_name is None,
    {
        ReleaseDto { release_id: None, full_name: None }
    }
}

/// Plans the calls on releases.
pub struct ReleaseClient<'a> {
    client: Client,
    base_url: &'a str,
}

/// The path of the releases of a project.
pub open spec fn releases_path(project_id: u64) -> Seq<char> {
    collection_path(project_id, "releases"@)
}

impl<'a> ReleaseClient<'a> {
    /// The base URL that every path is joined to.
    pub closed spec fn base(&self) -> Seq<char> {
        self.base_url@
    }

    /// The HTTP client that carries the calls.
    pub closed spec fn transport(&self) -> Client {
        self.client
    }

    /// A client for the releases of the API at `base_url`, whose calls go
    /// through `client`.
    pub fn new(client: Client, base_url: &'a str) -> (made: Self)
        ensures
            made.base() == base_url@,
            made.transport() == client,
    {
        ReleaseClient { client, base_url }
    }

    /// The HTTP client to send the planned requests with.
    pub fn client(&self) -> (client: &Client)
        ensures
            *client == self.transport(),
    {
        &self.client
    }

    /// The base URL that every path is joined to.
    pub fn base_url(&self) -> (base_url: &'a str)
        ensures
            base_url@ == self.base(),
    {
        self.base_url
    }

    /// Retrieves all the releases that belong to a project.
    pub fn list(&self, project_id: u64) -> (request: Request)
        ensures
            request.method == Method::Get,
            request.url@ == joined(self.base(), releases_path(project_id)),
            request.body is None,
    {
        let path = collection_path_text(project_id, "releases");
        Request::bare(Method::Get, self.append_to_url(path.as_str()))
    }

    fn append_to_url(&self, path: &str) -> (url: String)
        ensures
            url@ == joined(self.base(), path@),
    {
        join(self.base_url, path)
    }
}

} // verus!
