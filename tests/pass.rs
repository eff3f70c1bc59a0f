use krakker::binding::BindingError;
use krakker::model::{SelectProject, SelectTask, SelectUser, TaskStatus};
use krakker::pass::{PassCommand, ReconcilePass};
use krakker::reconcile::{Issue, IssueState, TaskMutation};

fn user(id: u64) -> SelectUser {
    SelectUser {
        id,
        created_at: 0,
        last_seen: 0,
        email: String::new(),
        username: String::new(),
        first_name: String::new(),
        last_name: String::new(),
    }
}

fn project(id: u64, binding: Option<&str>, tasks: Vec<SelectTask>) -> SelectProject {
    SelectProject {
        id,
        created_at: 0,
        name: format!("project {id}"),
        description: String::new(),
        owner: user(1),
        members: Vec::new(),
        tasks,
        repository_id: binding.map(|b| b.to_string()),
    }
}

fn open(number: u64) -> Issue {
    Issue { number, title: format!("issue {number}"), body: None, state: IssueState::Open }
}

#[test]
fn unbound_projects_get_no_command() {
    let mut pass = ReconcilePass::new(vec![
        project(1, None, Vec::new()),
        project(2, None, Vec::new()),
    ]);
    assert!(matches!(pass.next_command(), PassCommand::Finished));
    assert!(matches!(pass.next_command(), PassCommand::Finished));
}

#[test]
fn unbound_project_is_passed_over() {
    let mut pass = ReconcilePass::new(vec![
        project(1, None, Vec::new()),
        project(2, Some("acme/widgets"), Vec::new()),
        project(3, None, Vec::new()),
    ]);
    match pass.next_command() {
        PassCommand::FetchIssues { project, project_id, repository } => {
            assert_eq!(project, 1);
            assert_eq!(project_id, 2);
            assert_eq!(repository.owner, "acme");
            assert_eq!(repository.repo, "widgets");
        }
        other => panic!("expected a fetch, got {other:?}"),
    }
    let ms = pass.issues_fetched(&vec![open(7)]);
    assert_eq!(ms.len(), 1);
    assert!(matches!(pass.next_command(), PassCommand::Finished));
}

#[test]
fn malformed_bindings_are_reported_and_siblings_reconcile() {
    let mut pass = ReconcilePass::new(vec![
        project(1, Some("no-slash-here"), Vec::new()),
        project(2, Some("/repo"), Vec::new()),
        project(3, Some("acme/widgets"), Vec::new()),
        project(4, Some("owner/"), Vec::new()),
    ]);
    match pass.next_command() {
        PassCommand::ReportBinding { project, project_id, error } => {
            assert_eq!((project, project_id, error), (0, 1, BindingError::MissingSeparator));
        }
        other => panic!("expected a report, got {other:?}"),
    }
    match pass.next_command() {
        PassCommand::ReportBinding { project, project_id, error } => {
            assert_eq!((project, project_id, error), (1, 2, BindingError::EmptyOwner));
        }
        other => panic!("expected a report, got {other:?}"),
    }
    match pass.next_command() {
        PassCommand::FetchIssues { project, project_id, .. } => {
            assert_eq!((project, project_id), (2, 3));
        }
        other => panic!("expected a fetch, got {other:?}"),
    }
    let ms = pass.issues_fetched(&vec![open(7)]);
    assert_eq!(ms.len(), 1);
    match &ms[0] {
        TaskMutation::Create { request, .. } => assert_eq!(request.project_id, 3),
        other => panic!("expected a create, got {other:?}"),
    }
    match pass.next_command() {
        PassCommand::ReportBinding { project, project_id, error } => {
            assert_eq!((project, project_id, error), (3, 4, BindingError::EmptyRepository));
        }
        other => panic!("expected a report, got {other:?}"),
    }
    assert!(matches!(pass.next_command(), PassCommand::Finished));
}

#[test]
fn failed_fetch_moves_on_to_the_next_project() {
    let done = SelectTask {
        id: 5,
        created_at: 0,
        name: "t".to_string(),
        description: String::new(),
        attached_to: Vec::new(),
        status: TaskStatus::Todo,
        due_date: None,
        assigned_issue: Some(9),
    };
    let mut pass = ReconcilePass::new(vec![
        project(1, Some("a/b"), Vec::new()),
        project(2, Some("c/d"), vec![done]),
    ]);
    assert!(matches!(pass.next_command(), PassCommand::FetchIssues { project: 0, .. }));
    // the fetch failed: no issues are handed back
    match pass.next_command() {
        PassCommand::FetchIssues { project, repository, .. } => {
            assert_eq!(project, 1);
            assert_eq!(repository.owner, "c");
        }
        other => panic!("expected a fetch, got {other:?}"),
    }
    let closed = Issue { number: 9, title: String::new(), body: None, state: IssueState::Closed };
    let ms = pass.issues_fetched(&vec![closed]);
    assert_eq!(ms.len(), 1);
    assert!(matches!(ms[0], TaskMutation::Update { task_id: 5, .. }));
    assert!(matches!(pass.next_command(), PassCommand::Finished));
}
