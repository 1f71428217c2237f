use vstd::prelude::*;

use crate::request::Method;
use crate::request::Request;
use crate::url::collection_path;
use crate::url::collection_path_text;
use crate::url::item_path;
use crate::url::item_path_text;
use crate::url::join;
use crate::url::joined;
use reqwest::Client;

verus! {

/// A task as the API sends and takes it. Every field but the project's id
/// may be absent.
#[derive(Debug)]
pub struct TaskDto {
    /// The id of the task.
    pub task_id: Option<u64>,
    /// The id of the status of the task.
    pub task_status_id: Option<u64>,
    /// The id of the type of the task.
    pub task_type_id: Option<u64>,
    /// The id of the folder the task is stored in (absent for the root).
    pub task_folder_id: Option<u64>,
    /// The id of the parent requirement that the task belongs to.
    pub requirement_id: Option<u64>,
    /// The id of the release or iteration that the task is scheduled for.
    pub release_id: Option<u64>,
    /// The id of the user that created the task; where absent, the
    /// authenticated user stands in.
    pub creator_id: Option<u64>,
    /// The id of the user that the task is assigned to.
    pub owner_id: Option<u64>,
    /// The id of the priority of the task.
    pub task_priority_id: Option<u64>,
    /// The name of the task.
    pub name: Option<String>,
    /// The detailed description of the task.
    pub description: Option<String>,
    /// The date and time at which the task was created, such as
    /// `2022-03-14T11:28:07.240Z`.
    pub creation_date: Option<String>,
    /// The date and time of the last change; an update must send back the
    /// value it retrieved.
    pub last_update_date: Option<String>,
    /// The scheduled start date.
    pub start_date: Option<String>,
    /// The scheduled end date.
    pub end_date: Option<String>,
    /// The effort first estimated, in minutes.
    pub estimated_effort: Option<u64>,
    /// The effort spent so far, in minutes.
    pub actual_effort: Option<u64>,
    /// The effort remaining as reported by the developer.
    pub remaining_effort: Option<u64>,
    /// The id of the project that the task belongs to.
    pub project_id: u64,
    /// The date and time that guards against conflicting edits.
    pub concurrency_date: Option<String>,
}

/// Plans the calls on tasks.
pub struct TaskClient<'a> {
    client: Client,
    base_url: &'a str,
}

/// The path that lists the tasks of the authenticated user.
pub open spec fn my_tasks_path() -> Seq<char> {
    "/tasks"@
}

/// The path of the tasks of a project.
pub open spec fn tasks_path(project_id: u64) -> Seq<char> {
    collection_path(project_id, "tasks"@)
}

/// The path of one task of a project.
pub open spec fn task_path(project_id: u64, task_id: u64) -> Seq<char> {
    item_path(project_id, "tasks"@, task_id)
}

impl<'a> TaskClient<'a> {
    /// The base URL that every path is joined to.
    pub closed spec fn base(&self) -> Seq<char> {
        self.base_url@
    }

    /// The HTTP client that carries the calls.
    pub closed spec fn transport(&self) -> Client {
        self.client
    }

    /// A client for the tasks of the API at `base_url`, whose calls go
    /// through `client`.
    pub fn new(client: Client, base_url: &'a str) -> (made: Self)
        ensures
            made.base() == base_url@,
            made.transport() == client,
    {
        TaskClient { client, base_url }
    }

    /// The HTTP client to send the planned requests with.
    pub fn client(&self) -> (client: &Client)
        ensures
            *client == self.transport(),
    {
        &self.client
    }

    /// The base URL that every path is joined to.
    pub fn base_url(&self) -> (base_url: &'a str)
        ensures
            base_url@ == self.base(),
    {
        self.base_url
    }

    /// Retrieves all tasks owned by the authenticated user.
    pub fn list_my(&self) -> (request: Request)
        ensures
            request.method == Method::Get,
            request.url@ == joined(self.base(), my_tasks_path()),
            request.body is None,
    {
        Request::bare(Method::Get, self.append_to_url("/tasks"))
    }

    /// Retrieves a single task.
    pub fn get(&self, project_id: u64, task_id: u64) -> (request: Request)
        ensures
            request.method == Method::Get,
            request.url@ == joined(self.base(), task_path(project_id, task_id)),
            request.body is None,
    {
        let path = item_path_text(project_id, "tasks", task_id);
        Request::bare(Method::Get, self.append_to_url(path.as_str()))
    }

    /// Creates a task in a project; `json_task` is the task as JSON text.
    pub fn create(&self, project_id: u64, json_task: String) -> (request: Request)
        ensures
            request.method == Method::Post,
            request.url@ == joined(self.base(), tasks_path(project_id)),
            request.body == Some(json_task),
    {
        let path = collection_path_text(project_id, "tasks");
        Request::with_body(Method::Post, self.append_to_url(path.as_str()), json_task)
    }

    /// Updates a task of a project; `json_task` is the task as JSON text,
    /// which names the task by its id.
    pub fn update(&self, project_id: u64, json_task: String) -> (request: Request)
        ensures
            request.method == Method::Put,
            request.url@ == joined(self.base(), tasks_path(project_id)),
            request.body == Some(json_task),
    {
        let path = collection_path_text(project_id, "tasks");
        Request::with_body(Method::Put, self.append_to_url(path.as_str()), json_task)
    }

    /// Deletes a task of a project.
    pub fn delete(&self, project_id: u64, task_id: u64) -> (request: Request)
        ensures
            request.method == Method::Delete,
            request.url@ == joined(self.base(), task_path(project_id, task_id)),
            request.body is None,
    {
        let path = item_path_text(project_id, "tasks", task_id);
        Request::bare(Method::Delete, self.append_to_url(path.as_str()))
    }

    fn append_to_url(&self, path: &str) -> (url: String)
        ensures
            url@ == joined(self.base(), path@),
    {
        join(self.base_url, path)
    }
}

} // verus!
