//! A typed client for the REST API of Spira, a project-management system.
//!
//! The client is assembled here and every call is planned here: which
//! headers go along, which method is used, which URL is addressed and which
//! text is sent. Sending a planned [`request::Request`] and reading the
//! answer is left to the caller, who holds the HTTP client that
//! [`SpiraClient::new`] made.

pub mod headers;
pub mod request;
pub mod resources;
pub mod transport;
pub mod url;

use vstd::prelude::*;

use crate::headers::default_headers;
use crate::headers::is_header_text;
use crate::resources::project::ProjectClient;
use crate::resources::requirement::RequirementClient;
use crate::resources::task::TaskClient;
use crate::resources::user::UserClient;
use crate::transport::build_client;
use crate::transport::share_client;
use reqwest::header::InvalidHeaderValue;
use reqwest::Client;

verus! {

/// The seconds that a client allows for connecting to the server.
pub const CONNECT_TIMEOUT_SECS: u64 = 10;

/// The main client, with one child client for each kind of resource that it
/// serves. The children share one HTTP client and one base URL.
pub struct SpiraClient<'a> {
    pub task: TaskClient<'a>,
    pub project: ProjectClient<'a>,
    pub user: UserClient<'a>,
    pub requirement: RequirementClient<'a>,
}

/// Why no client could be made.
#[derive(Debug)]
pub enum ClientError {
    /// A credential cannot stand in a header.
    InvalidHeader(InvalidHeaderValue),
    /// The HTTP layer could not set itself up.
    Build(reqwest::Error),
}

/// Whether both credentials can stand in a header.
pub open spec fn credentials_fit(api_key: Seq<char>, username: Seq<char>) -> bool {
    is_header_text(api_key) && is_header_text(username)
}

impl<'a> SpiraClient<'a> {
    /// Whether every child addresses `base_url` through `client`.
    pub open spec fn serves(&self, client: Client, base_url: Seq<char>) -> bool {
        &&& self.task.transport() == client
        &&& self.task.base() == base_url
        &&& self.project.transport() == client
        &&& self.project.base() == base_url
        &&& self.user.transport() == client
        &&& self.user.base() == base_url
        &&& self.requirement.transport() == client
        &&& self.requirement.base() == base_url
    }

    /// Makes a client for the API at `base_url` that signs every request
    /// with the two credentials and allows ten seconds for connecting.
    ///
    /// A credential that cannot stand in a header is refused before anything
    /// else is tried. After that only the HTTP layer can still fail.
    pub fn new(base_url: &'a str, api_key: &str, username: &str) -> (made: Result<
        Self,
        ClientError,
    >)
        ensures
            !credentials_fit(api_key@, username@) ==> made is Err && made->Err_0 is InvalidHeader,
            made is Err && credentials_fit(api_key@, username@) ==> made->Err_0 is Build,
            made is Ok ==> made->Ok_0.serves(made->Ok_0.user.transport(), base_url@),
    {
        let headers = match default_headers(api_key, username) {
            Ok(headers) => headers,
            Err(refused) => {
                return Err(ClientError::InvalidHeader(refused));
            },
        };
        let built = build_client(headers, CONNECT_TIMEOUT_SECS);
        Self::from_built(built, base_url)
    }

    /// Turns what the HTTP layer built into the client: on success every
    /// child gets a handle on the one HTTP client, on failure the error is
    /// passed on.
    pub fn from_built(built: Result<Client, reqwest::Error>, base_url: &'a str) -> (made: Result<
        Self,
        ClientError,
    >)
        ensures
            built is Ok ==> made is Ok && made->Ok_0.serves(built->Ok_0, base_url@),
            built is Err ==> made == Err::<Self, ClientError>(ClientError::Build(built->Err_0)),
    {
        match built {
            Ok(client) => Ok(Self::with_client(client, base_url)),
            Err(failed) => Err(ClientError::Build(failed)),
        }
    }

    /// Makes the client from an HTTP client that is already set up.
    pub fn with_client(client: Client, base_url: &'a str) -> (made: Self)
        ensures
            made.serves(client, base_url@),
    {
        let task = TaskClient::new(share_client(&client), base_url);
        let project = ProjectClient::new(share_client(&client), base_url);
        let requirement = RequirementClient::new(share_client(&client), base_url);
        let user = UserClient::new(client, base_url);
        SpiraClient { task, project, user, requirement }
    }
}

} // verus!
