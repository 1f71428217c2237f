use vstd::prelude::*;
use vstd::string::StringExecFns;

use crate::request::Method;
use crate::request::Request;
use crate::url::decimal;
use crate::url::decimal_text;
use crate::url::join;
use crate::url::joined;
use reqwest::Client;

verus! {

/// An incident status of a project template as the API sends it.
#[derive(Debug)]
pub struct IncidentStatusDto {
    /// The id of the status.
    pub incident_status_id: Option<u64>,
    /// The name of the status.
    pub name: Option<String>,
    /// Whether the status is in use.
    pub active: Option<bool>,
    /// Whether an incident in this status counts as open.
    pub open: Option<bool>,
}

impl Default for IncidentStatusDto {
    /// A status with every field absent.
    fn default() -> (empty: Self)
        ensures
            empty.incident_status_id is None,
            empty.name is None,
            empty.active is None,
            empty.open is None,
    {
        IncidentStatusDto { incident_status_id: None, name: None, active: None, open: None }
    }
}

/// A project template as the API sends it.
#[derive(Debug)]
pub struct ProjectTemplateDto {
    /// The id of the template.
    pub project_template_id: Option<u64>,
    /// The name of the template.
    pub name: Option<String>,
    /// The description of the template.
    pub description: Option<String>,
    /// Whether the template is in use.
    pub is_active: Option<bool>,
}

impl Default for ProjectTemplateDto {
    /// A template with every field absent.
    fn default() -> (empty: Self)
        ensures
            empty.project_template_id is None,
            empty.name is None,
            empty.description is None,
            empty.is_active is None,
    {
        ProjectTemplateDto {
            project_template_id: None,
            name: None,
            description: None,
            is_active: None,
        }
    }
}

/// Plans the calls on project templates.
pub struct ProjectTemplateClient<'a> {
    client: Client,
    base_url: &'a str,
}

/// The path that lists the project templates.
pub open spec fn templates_path() -> Seq<char> {
    "/project-templates"@
}

/// The path of the incident statuses of a project template.
pub open spec fn incident_statuses_path(project_template_id: u64) -> Seq<char> {
    "/project-templates/"@ + decimal(project_template_id as nat) + "/incidents/statuses"@
}

impl<'a> ProjectTemplateClient<'a> {
    /// The base URL that every path is joined to.
    pub closed spec fn base(&self) -> Seq<char> {
        self.base_url@
    }

    /// The HTTP client that carries the calls.
    pub closed spec fn transport(&self) -> Client {
        self.client
    }

    /// A client for the project templates of the API at `base_url`, whose calls go
    /// through `client`.
    pub fn new(client: Client, base_url: &'a str) -> (made: Self)
        ensures
            made.base() == base_url@,
            made.transport() == client,
    {
        ProjectTemplateClient { client, base_url }
    }

    /// The HTTP client to send the planned requests with.
    pub fn client(&self) -> (client: &Client)
        ensures
            *client == self.transport(),
    {
        &self.client
    }

    /// The base URL that every path is joined to.
    pub fn base_url(&self) -> (base_url: &'a str)
        ensures
            base_url@ == self.base(),
    {
        self.base_url
    }

    /// Asks for the project templates.
    pub fn list(&self) -> (request: Request)
        ensures
            request.method == Method::Get,
            request.url@ == joined(self.base(), templates_path()),
            request.body is None,
    {
        Request::bare(Method::Get, self.append_to_url("/project-templates"))
    }

    /// Retrieves the incident statuses of a project template.
    pub fn incident_status_list(&self, project_template_id: u64) -> (request: Request)
        ensures
            request.method == Method::Get,
            request.url@ == joined(self.base(), incident_statuses_path(project_template_id)),
            request.body is None,
    {
        let mut path = String::from_str("/project-templates/");
        let id = decimal_text(project_template_id);
        path.append(id.as_str());
        path.append("/incidents/statuses");
        Request::bare(Method::Get, self.append_to_url(path.as_str()))
    }

    fn append_to_url(&self, path: &str) -> (url: String)
        ensures
            url@ == joined(self.base(), path@),
    {
        join(self.base_url, path)
    }
}

} // verus!
