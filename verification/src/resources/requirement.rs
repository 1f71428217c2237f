use vstd::prelude::*;

use crate::request::Method;
use crate::request::Request;
use crate::url::collection_path;
use crate::url::collection_path_text;
use crate::url::item_path;
use crate::url::item_path_text;
use crate::url::join;
use crate::url::joined;
use reqwest::Client;

verus! {

/// Plans the calls on requirements.
pub struct RequirementClient<'a> {
    client: Client,
    base_url: &'a str,
}

/// The path that lists the requirements of the authenticated user.
pub open spec fn my_requirements_path() -> Seq<char> {
    "/requirements"@
}

/// The path of the requirements of a project.
pub open spec fn requirements_path(project_id: u64) -> Seq<char> {
    collection_path(project_id, "requirements"@)
}

/// The path of one requirement of a project.
pub open spec fn requirement_path(project_id: u64, requirement_id: u64) -> Seq<char> {
    item_path(project_id, "requirements"@, requirement_id)
}

impl<'a> RequirementClient<'a> {
    /// The base URL that every path is joined to.
    pub closed spec fn base(&self) -> Seq<char> {
        self.base_url@
    }

    /// The HTTP client that carries the calls.
    pub closed spec fn transport(&self) -> Client {
        self.client
    }

    /// A client for the requirements of the API at `base_url`, whose calls go
    /// through `client`.
    pub fn new(client: Client, base_url: &'a str) -> (made: Self)
        ensures
            made.base() == base_url@,
            made.transport() == client,
    {
        RequirementClient { client, base_url }
    }

    /// The HTTP client to send the planned requests with.
    pub fn client(&self) -> (client: &Client)
        ensures
            *client == self.transport(),
    {
        &self.client
    }

    /// The base URL that every path is joined to.
    pub fn base_url(&self) -> (base_url: &'a str)
        ensures
            base_url@ == self.base(),
    {
        self.base_url
    }

    /// Retrieves all requirements owned by the authenticated user.
    pub fn list_my(&self) -> (request: Request)
        ensures
            request.method == Method::Get,
            request.url@ == joined(self.base(), my_requirements_path()),
            request.body is None,
    {
        Request::bare(Method::Get, self.append_to_url("/requirements"))
    }

    /// Retrieves a single requirement.
    pub fn get(&self, project_id: u64, requirement_id: u64) -> (request: Request)
        ensures
            request.method == Method::Get,
            request.url@ == joined(self.base(), requirement_path(project_id, requirement_id)),
            request.body is None,
    {
        let path = item_path_text(project_id, "requirements", requirement_id);
        Request::bare(Method::Get, self.append_to_url(path.as_str()))
    }

    /// Creates a requirement at the end of a project's list;
    /// `json_requirement` is the requirement as JSON text.
    pub fn create(&self, project_id: u64, json_requirement: String) -> (request: Request)
        ensures
            request.method == Method::Post,
            request.url@ == joined(self.base(), requirements_path(project_id)),
            request.body == Some(json_requirement),
    {
        let path = collection_path_text(project_id, "requirements");
        Request::with_body(Method::Post, self.append_to_url(path.as_str()), json_requirement)
    }

    /// Updates a requirement of a project; `json_requirement` is the
    /// requirement as JSON text, which names the requirement by its id.
    pub fn update(&self, project_id: u64, json_requirement: String) -> (request: Request)
        ensures
            request.method == Method::Put,
            request.url@ == joined(self.base(), requirements_path(project_id)),
            request.body == Some(json_requirement),
    {
        let path = collection_path_text(project_id, "requirements");
        Request::with_body(Method::Put, self.append_to_url(path.as_str()), json_requirement)
    }

    /// Deletes a requirement of a project.
    pub fn delete(&self, project_id: u64, requirement_id: u64) -> (request: Request)
        ensures
            request.method == Method::Delete,
            request.url@ == joined(self.base(), requirement_path(project_id, requirement_id)),
            request.body is None,
    {
        let path = item_path_text(project_id, "requirements", requirement_id);
        Request::bare(Method::Delete, self.append_to_url(path.as_str()))
    }

    fn append_to_url(&self, path: &str) -> (url: String)
        ensures
            url@ == joined(self.base(), path@),
    {
        join(self.base_url, path)
    }
}

} // verus!
