use vstd::prelude::*;

use crate::request::Method;
use crate::request::Request;
use crate::url::collection_path;
use crate::url::collection_path_text;
use crate::url::item_path;
use crate::url::item_path_text;
use crate::url::join;
use crate::url::joined;
use reqwest::Client;

verus! {

/// An incident as the API sends and takes it. The name and the project's id
/// are always there; every other field may be absent.
#[derive(Debug)]
pub struct IncidentDto {
    /// The id of the incident.
    pub incident_id: Option<u64>,
    /// The id of the priority of the incident.
    pub priority_id: Option<u64>,
    /// The id of the severity of the incident.
    pub severity_id: Option<u64>,
    /// The id of the status of the incident; where absent, the workflow's
    /// default status is used.
    pub incident_status_id: Option<u64>,
    /// The id of the type of the incident; where absent, the project's
    /// default type is used.
    pub incident_type_id: Option<u64>,
    /// The id of the user who detected the incident; where absent, the
    /// authenticated user stands in.
    pub opener_id: Option<u64>,
    /// The id of the user that the incident is assigned to.
    pub owner_id: Option<u64>,
    /// The id of the test run steps that the incident relates to.
    pub test_run_step_ids: Option<u64>,
    /// The id of the release or iteration that the incident was detected in.
    pub detected_release_id: Option<u64>,
    /// The id of the release or iteration that the incident will be fixed in.
    pub resolved_release_id: Option<u64>,
    /// The id of the release or iteration that the incident was retested in.
    pub verified_release_id: Option<u64>,
    /// The components that the incident belongs to.
    pub component_ids: Option<Vec<u64>>,
    /// The name of the incident.
    pub name: String,
    /// The description of the incident.
    pub description: Option<String>,
    /// The date and time at which the incident was created, such as
    /// `2022-03-14T11:28:07.240Z`; where absent, the server's clock is used.
    pub creation_date: Option<String>,
    /// The date that work started on the incident.
    pub start_date: Option<String>,
    /// The date that work is scheduled to finish on the incident.
    pub end_date: Option<String>,
    /// The date that the incident was closed.
    pub closed_date: Option<String>,
    /// The effort estimated to resolve the incident, in minutes.
    pub estimated_effort: Option<u64>,
    /// The effort that resolving the incident took, in minutes.
    pub actual_effort: Option<u64>,
    /// The effort remaining as reported by the developer.
    pub remaining_effort: Option<u64>,
    /// The date and time of the last change; an update must send back the
    /// value it retrieved.
    pub last_update_date: Option<String>,
    /// The id of the build that the incident was fixed in.
    pub fixed_build_id: Option<u64>,
    /// The id of the build that the incident was detected in.
    pub detected_build_id: Option<u64>,
    /// The id of the project that the incident belongs to.
    pub project_id: u64,
    /// The date and time that guards against conflicting edits.
    pub concurrency_date: Option<String>,
    /// Whether the incident has attachments.
    pub is_attachements: Option<bool>,
}

impl IncidentDto {
    /// Whether the incident is the empty one: no name, project 0, and every
    /// other field absent.
    pub open spec fn is_empty(&self) -> bool {
        &&& self.incident_id is None
        &&& self.priority_id is None
        &&& self.severity_id is None
        &&& self.incident_status_id is None
        &&& self.incident_type_id is None
        &&& self.opener_id is None
        &&& self.owner_id is None
        &&& self.test_run_step_ids is None
        &&& self.detected_release_id is None
        &&& self.resolved_release_id is None
        &&& self.verified_release_id is None
        &&& self.component_ids is None
        &&& self.name@ == Seq::<char>::empty()
        &&& self.description is None
        &&& self.creation_date is None
        &&& self.start_date is None
        &&& self.end_date is None
        &&& self.closed_date is None
        &&& self.estimated_effort is None
        &&& self.actual_effort is None
        &&& self.remaining_effort is None
        &&& self.last_update_date is None
        &&& self.fixed_build_id is None
        &&& self.detected_build_id is None
        &&& self.project_id == 0
        &&& self.concurrency_date is None
        &&& self.is_attachements is None
    }
}

impl Default for IncidentDto {
    /// The empty incident.
    fn default() -> (empty: Self)
        ensures
            empty.is_empty(),
    {
        IncidentDto {
            incident_id: None,
            priority_id: None,
            severity_id: None,
            incident_status_id: None,
            incident_type_id: None,
            opener_id: None,
            owner_id: None,
            test_run_step_ids: None,
            detected_release_id: None,
            resolved_release_id: None,
            verified_release_id: None,
            component_ids: None,
            name: String::new(),
            description: None,
            creation_date: None,
            start_date: None,
            end_date: None,
            closed_date: None,
            estimated_effort: None,
            actual_effort: None,
            remaining_effort: None,
            last_update_date: None,
            fixed_build_id: None,
            detected_build_id: None,
            project_id: 0,
            concurrency_date: None,
            is_attachements: None,
        }
    }
}

/// Plans the calls on incidents.
pub struct IncidentClient<'a> {
    client: Client,
    base_url: &'a str,
}

/// The path that lists the incidents of the authenticated user.
pub open spec fn my_incidents_path() -> Seq<char> {
    "/incidents"@
}

/// The path of the incidents of a project.
pub open spec fn incidents_path(project_id: u64) -> Seq<char> {
    collection_path(project_id, "incidents"@)
}

/// The path of one incident of a project.
pub open spec fn incident_path(project_id: u64, incident_id: u64) -> Seq<char> {
    item_path(project_id, "incidents"@, incident_id)
}

impl<'a> IncidentClient<'a> {
    /// The base URL that every path is joined to.
    pub closed spec fn base(&self) -> Seq<char> {
        self.base_url@
    }

    /// The HTTP client that carries the calls.
    pub closed spec fn transport(&self) -> Client {
        self.client
    }

    /// A client for the incidents of the API at `base_url`, whose calls go
    /// through `client`.
    pub fn new(client: Client, base_url: &'a str) -> (made: Self)
        ensures
            made.base() == base_url@,
            made.transport() == client,
    {
        IncidentClient { client, base_url }
    }

    /// The HTTP client to send the planned requests with.
    pub fn client(&self) -> (client: &Client)
        ensures
            *client == self.transport(),
    {
        &self.client
    }

    /// The base URL that every path is joined to.
    pub fn base_url(&self) -> (base_url: &'a str)
        ensures
            base_url@ == self.base(),
    {
        self.base_url
    }

    /// Retrieves all incidents owned by the authenticated user.
    pub fn list_my(&self) -> (request: Request)
        ensures
            request.method == Method::Get,
            request.url@ == joined(self.base(), my_incidents_path()),
            request.body is None,
    {
        Request::bare(Method::Get, self.append_to_url("/incidents"))
    }

    /// Retrieves a single incident.
    pub fn get(&self, project_id: u64, incident_id: u64) -> (request: Request)
        ensures
            request.method == Method::Get,
            request.url@ == joined(self.base(), incident_path(project_id, incident_id)),
            request.body is None,
    {
        let path = item_path_text(project_id, "incidents", incident_id);
        Request::bare(Method::Get, self.append_to_url(path.as_str()))
    }

    /// Creates an incident in a project; `json_incident` is the incident as
    /// JSON text.
    pub fn create(&self, project_id: u64, json_incident: String) -> (request: Request)
        ensures
            request.method == Method::Post,
            request.url@ == joined(self.base(), incidents_path(project_id)),
            request.body == Some(json_incident),
    {
        let path = collection_path_text(project_id, "incidents");
        Request::with_body(Method::Post, self.append_to_url(path.as_str()), json_incident)
    }

    /// Updates an incident, which must carry its id: the id picks the URL.
    /// `json_incident` is the incident as JSON text.
    pub fn update(&self, project_id: u64, incident: &IncidentDto, json_incident: String) -> (request:
        Request)
        requires
            incident.incident_id is Some,
        ensures
            request.method == Method::Put,
            request.url@ == joined(
                self.base(),
                incident_path(project_id, incident.incident_id->Some_0),
            ),
            request.body == Some(json_incident),
    {
        let path = item_path_text(project_id, "incidents", incident.incident_id.unwrap());
        Request::with_body(Method::Put, self.append_to_url(path.as_str()), json_incident)
    }

    /// Deletes an incident of a project.
    pub fn delete(&self, project_id: u64, incident_id: u64) -> (request: Request)
        ensures
            request.method == Method::Delete,
            request.url@ == joined(self.base(), incident_path(project_id, incident_id)),
            request.body is None,
    {
        let path = item_path_text(project_id, "incidents", incident_id);
        Request::bare(Method::Delete, self.append_to_url(path.as_str()))
    }

    fn append_to_url(&self, path: &str) -> (url: String)
        ensures
            url@ == joined(self.base(), path@),
    {
        join(self.base_url, path)
    }
}

} // verus!
