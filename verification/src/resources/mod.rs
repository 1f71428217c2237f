//! One client per kind of resource, each planning the calls on its own
//! URL patterns.

/// Incidents of a project.
pub mod incident;
/// Projects.
pub mod project;
/// Project templates and their incident statuses.
pub mod project_template;
/// Releases of a project.
pub mod release;
/// Requirements of a project.
pub mod requirement;
/// Tasks of a project.
pub mod task;
/// Users.
pub mod user;
