use vstd::prelude::*;

use crate::request::Method;
use crate::request::Request;
use crate::url::join;
use crate::url::joined;
use reqwest::Client;

verus! {

/// A project as the API sends it.
#[derive(Debug)]
pub struct ProjectDto {
    /// The name of the project.
    pub name: Option<String>,
    /// The id of the project.
    pub project_id: Option<u64>,
}

impl Default for ProjectDto {
    /// A project with every field absent.
    fn default() -> (empty: Self)
        ensures
            empty.name is None,
            empty.project_id is None,
    {
        ProjectDto { name: None, project_id: None }
    }
}

/// Plans the calls on projects.
pub struct ProjectClient<'a> {
    client: Client,
    base_url: &'a str,
}

/// The path that lists the projects.
pub open spec fn projects_path() -> Seq<char> {
    "/projects"@
}

impl<'a> ProjectClient<'a> {
    /// The base URL that every path is joined to.
    pub closed spec fn base(&self) -> Seq<char> {
        self.base_url@
    }

    /// The HTTP client that carries the calls.
    pub closed spec fn transport(&self) -> Client {
        self.client
    }

    /// A client for the projects of the API at `base_url`, whose calls go
    /// through `client`.
    pub fn new(client: Client, base_url: &'a str) -> (made: Self)
        ensures
            made.base() == base_url@,
            made.transport() == client,
    {
        ProjectClient { client, base_url }
    }

    /// The HTTP client to send the planned requests with.
    pub fn client(&self) -> (client: &Client)
        ensures
            *client == self.transport(),
    {
        &self.client
    }

    /// The base URL that every path is joined to.
    pub fn base_url(&self) -> (base_url: &'a str)
        ensures
            base_url@ == self.base(),
    {
        self.base_url
    }

    /// Retrieves the projects that the authenticated user may see.
    pub fn list(&self) -> (request: Request)
        ensures
            request.method == Method::Get,
            request.url@ == joined(self.base(), projects_path()),
            request.body is None,
    {
        Request::bare(Method::Get, self.append_to_url("/projects"))
    }

    fn append_to_url(&self, path: &str) -> (url: String)
        ensures
            url@ == joined(self.base(), path@),
    {
        join(self.base_url, path)
    }
}

} // verus!
