use spira::request::Method;
use spira::resources::incident::IncidentClient;
use spira::resources::incident::IncidentDto;
use spira::resources::project::ProjectClient;
use spira::resources::project::ProjectDto;
use spira::resources::project_template::IncidentStatusDto;
use spira::resources::project_template::ProjectTemplateClient;
use spira::resources::project_template::ProjectTemplateDto;
use spira::resources::release::ReleaseClient;
use spira::resources::release::ReleaseDto;
use spira::resources::requirement::RequirementClient;
use spira::resources::task::TaskClient;
use spira::resources::task::TaskDto;
use spira::resources::user::UserClient;

const BASE: &str = "https://spira.example/Services/v6_0/RestService.svc";

fn http() -> reqwest::Client {
    reqwest::Client::new()
}

#[test]
fn task_list_my() {
    let request = TaskClient::new(http(), BASE).list_my();
    assert_eq!(request.method, Method::Get);
    assert_eq!(
        request.url,
        "https://spira.example/Services/v6_0/RestService.svc/tasks"
    );
    assert_eq!(request.body, None);
}

#[test]
fn task_get() {
    let request = TaskClient::new(http(), BASE).get(3, 41);
    assert_eq!(request.method, Method::Get);
    assert_eq!(
        request.url,
        "https://spira.example/Services/v6_0/RestService.svc/projects/3/tasks/41"
    );
    assert_eq!(request.body, None);
}

#[test]
fn task_create() {
    let body = String::from("{\"Name\":\"write\",\"ProjectId\":3}");
    let request = TaskClient::new(http(), "http://h").create(3, body);
    assert_eq!(request.method, Method::Post);
    assert_eq!(request.url, "http://h/projects/3/tasks");
    assert_eq!(
        request.body,
        Some(String::from("{\"Name\":\"write\",\"ProjectId\":3}"))
    );
}

#[test]
fn task_update_addresses_the_collection() {
    let body = String::from("{\"TaskId\":41,\"ProjectId\":3}");
    let request = TaskClient::new(http(), "http://h").update(3, body);
    assert_eq!(request.method, Method::Put);
    assert_eq!(request.url, "http://h/projects/3/tasks");
    assert_eq!(
        request.body,
        Some(String::from("{\"TaskId\":41,\"ProjectId\":3}"))
    );
}

#[test]
fn task_delete() {
    let request = TaskClient::new(http(), "http://h").delete(3, 41);
    assert_eq!(request.method, Method::Delete);
    assert_eq!(request.url, "http://h/projects/3/tasks/41");
    assert_eq!(request.body, None);
}

#[test]
fn task_client_keeps_what_it_was_made_with() {
    let tasks = TaskClient::new(http(), "http://h");
    assert_eq!(tasks.base_url(), "http://h");
    let _handle: &reqwest::Client = tasks.client();
}

#[test]
fn task_dto_holds_its_fields() {
    let task = TaskDto {
        task_id: Some(41),
        task_status_id: Some(1),
        task_type_id: None,
        task_folder_id: None,
        requirement_id: Some(9),
        release_id: None,
        creator_id: None,
        owner_id: Some(2),
        task_priority_id: None,
        name: Some(String::from("write")),
        description: None,
        creation_date: Some(String::from("2022-03-14T11:28:07.240Z")),
        last_update_date: None,
        start_date: None,
        end_date: None,
        estimated_effort: Some(90),
        actual_effort: None,
        remaining_effort: None,
        project_id: 3,
        concurrency_date: None,
    };
    assert_eq!(task.task_id, Some(41));
    assert_eq!(task.project_id, 3);
    assert_eq!(task.name.as_deref(), Some("write"));
    assert_eq!(task.estimated_effort, Some(90));
}

#[test]
fn incident_list_my() {
    let request = IncidentClient::new(http(), "http://h").list_my();
    assert_eq!(request.method, Method::Get);
    assert_eq!(request.url, "http://h/incidents");
    assert_eq!(request.body, None);
}

#[test]
fn incident_get() {
    let request = IncidentClient::new(http(), "http://h").get(5, 600);
    assert_eq!(request.method, Method::Get);
    assert_eq!(request.url, "http://h/projects/5/incidents/600");
    assert_eq!(request.body, None);
}

#[test]
fn incident_create() {
    let request = IncidentClient::new(http(), "http://h").create(5, String::from("{}"));
    assert_eq!(request.method, Method::Post);
    assert_eq!(request.url, "http://h/projects/5/incidents");
    assert_eq!(request.body, Some(String::from("{}")));
}

#[test]
fn incident_update_addresses_the_incident_by_its_id() {
    let mut incident = IncidentDto::default();
    incident.incident_id = Some(600);
    incident.name = String::from("crash");
    incident.project_id = 5;
    let body = String::from("{\"IncidentId\":600,\"Name\":\"crash\",\"ProjectId\":5}");
    let request = IncidentClient::new(http(), "http://h").update(5, &incident, body);
    assert_eq!(request.method, Method::Put);
    assert_eq!(request.url, "http://h/projects/5/incidents/600");
    assert_eq!(
        request.body,
        Some(String::from("{\"IncidentId\":600,\"Name\":\"crash\",\"ProjectId\":5}"))
    );
}

#[test]
fn incident_update_takes_the_project_from_the_argument() {
    let mut incident = IncidentDto::default();
    incident.incident_id = Some(1);
    incident.project_id = 99;
    let request = IncidentClient::new(http(), "http://h").update(5, &incident, String::new());
    assert_eq!(request.url, "http://h/projects/5/incidents/1");
}

#[test]
fn incident_delete() {
    let request = IncidentClient::new(http(), "http://h").delete(5, 600);
    assert_eq!(request.method, Method::Delete);
    assert_eq!(request.url, "http://h/projects/5/incidents/600");
    assert_eq!(request.body, None);
}

#[test]
fn incident_default_is_empty() {
    let incident = IncidentDto::default();
    assert_eq!(incident.incident_id, None);
    assert_eq!(incident.priority_id, None);
    assert_eq!(incident.severity_id, None);
    assert_eq!(incident.incident_status_id, None);
    assert_eq!(incident.incident_type_id, None);
    assert_eq!(incident.opener_id, None);
    assert_eq!(incident.owner_id, None);
    assert_eq!(incident.test_run_step_ids, None);
    assert_eq!(incident.detected_release_id, None);
    assert_eq!(incident.resolved_release_id, None);
    assert_eq!(incident.verified_release_id, None);
    assert_eq!(incident.component_ids, None);
    assert_eq!(incident.name, "");
    assert_eq!(incident.description, None);
    assert_eq!(incident.creation_date, None);
    assert_eq!(incident.start_date, None);
    assert_eq!(incident.end_date, None);
    assert_eq!(incident.closed_date, None);
    assert_eq!(incident.estimated_effort, None);
    assert_eq!(incident.actual_effort, None);
    assert_eq!(incident.remaining_effort, None);
    assert_eq!(incident.last_update_date, None);
    assert_eq!(incident.fixed_build_id, None);
    assert_eq!(incident.detected_build_id, None);
    assert_eq!(incident.project_id, 0);
    assert_eq!(incident.concurrency_date, None);
    assert_eq!(incident.is_attachements, None);
}

#[test]
fn requirement_list_my() {
    let request = RequirementClient::new(http(), "http://h").list_my();
    assert_eq!(request.method, Method::Get);
    assert_eq!(request.url, "http://h/requirements");
    assert_eq!(request.body, None);
}

#[test]
fn requirement_get() {
    let request = RequirementClient::new(http(), "http://h").get(8, 15);
    assert_eq!(request.method, Method::Get);
    assert_eq!(request.url, "http://h/projects/8/requirements/15");
    assert_eq!(request.body, None);
}

#[test]
fn requirement_create() {
    let request =
        RequirementClient::new(http(), "http://h").create(8, String::from("{\"Name\":\"r\"}"));
    assert_eq!(request.method, Method::Post);
    assert_eq!(request.url, "http://h/projects/8/requirements");
    assert_eq!(request.body, Some(String::from("{\"Name\":\"r\"}")));
}

#[test]
fn requirement_update_addresses_the_collection() {
    let request =
        RequirementClient::new(http(), "http://h").update(8, String::from("{\"Name\":\"r\"}"));
    assert_eq!(request.method, Method::Put);
    assert_eq!(request.url, "http://h/projects/8/requirements");
    assert_eq!(request.body, Some(String::from("{\"Name\":\"r\"}")));
}

#[test]
fn requirement_delete() {
    let request = RequirementClient::new(http(), "http://h").delete(8, 15);
    assert_eq!(request.method, Method::Delete);
    assert_eq!(request.url, "http://h/projects/8/requirements/15");
    assert_eq!(request.body, None);
}

#[test]
fn project_list() {
    let request = ProjectClient::new(http(), "http://h").list();
    assert_eq!(request.method, Method::Get);
    assert_eq!(request.url, "http://h/projects");
    assert_eq!(request.body, None);
}

#[test]
fn project_default_is_empty() {
    let project = ProjectDto::default();
    assert_eq!(project.name, None);
    assert_eq!(project.project_id, None);
}

#[test]
fn release_list() {
    let request = ReleaseClient::new(http(), "http://h").list(77);
    assert_eq!(request.method, Method::Get);
    assert_eq!(request.url, "http://h/projects/77/releases");
    assert_eq!(request.body, None);
}

#[test]
fn release_default_is_empty() {
    let release = ReleaseDto::default();
    assert_eq!(release.release_id, None);
    assert_eq!(release.full_name, None);
}

#[test]
fn project_template_list() {
    let request = ProjectTemplateClient::new(http(), "http://h").list();
    assert_eq!(request.method, Method::Get);
    assert_eq!(request.url, "http://h/project-templates");
    assert_eq!(request.body, None);
}

#[test]
fn project_template_incident_status_list() {
    let request = ProjectTemplateClient::new(http(), "http://h").incident_status_list(20);
    assert_eq!(request.method, Method::Get);
    assert_eq!(request.url, "http://h/project-templates/20/incidents/statuses");
    assert_eq!(request.body, None);
}

#[test]
fn project_template_defaults_are_empty() {
    let template = ProjectTemplateDto::default();
    assert_eq!(template.project_template_id, None);
    assert_eq!(template.name, None);
    assert_eq!(template.description, None);
    assert_eq!(template.is_active, None);
    let status = IncidentStatusDto::default();
    assert_eq!(status.incident_status_id, None);
    assert_eq!(status.name, None);
    assert_eq!(status.active, None);
    assert_eq!(status.open, None);
}

#[test]
fn user_client_keeps_what_it_was_made_with() {
    let users = UserClient::new(http(), "http://h");
    assert_eq!(users.base_url(), "http://h");
    let _handle: &reqwest::Client = users.client();
}

#[test]
fn largest_ids_fit_in_a_path() {
    let request = TaskClient::new(http(), "http://h").get(u64::MAX, u64::MAX);
    assert_eq!(
        request.url,
        "http://h/projects/18446744073709551615/tasks/18446744073709551615"
    );
}
