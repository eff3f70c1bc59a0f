use krakker::model::{
    notification_to_response, project_data_to_response, task_data_to_response,
    user_data_to_response, NotificationData, ProjectData, RowError, TaskData, TaskStatus,
    UserData,
};

fn user_row(id: i32) -> UserData {
    UserData {
        id,
        created_at: 10,
        last_seen: 20,
        email: format!("u{id}@x.org"),
        username: format!("u{id}"),
        first_name: "F".to_string(),
        last_name: "L".to_string(),
    }
}

fn task_row(id: i32, status: &str) -> TaskData {
    TaskData {
        id,
        created_at: 30,
        name: format!("task {id}"),
        description: "d".to_string(),
        status: status.to_string(),
        due_date: Some(40),
        attached_to: Some(vec![user_row(5)]),
        assigned_issue: Some(42),
    }
}

fn project_row(tasks: Option<Vec<TaskData>>) -> ProjectData {
    ProjectData {
        id: 7,
        created_at: 50,
        name: "P".to_string(),
        description: "D".to_string(),
        owner: Some(user_row(1)),
        members: Some(vec![user_row(2), user_row(3)]),
        tasks,
        repo_id: Some("acme/widgets".to_string()),
    }
}

#[test]
fn status_names_round_trip() {
    let all = [
        (TaskStatus::Todo, "todo"),
        (TaskStatus::InProgress, "in_progress"),
        (TaskStatus::InReview, "in_review"),
        (TaskStatus::Done, "done"),
        (TaskStatus::Blocked, "blocked"),
        (TaskStatus::Cancelled, "cancelled"),
    ];
    for (status, name) in all {
        assert_eq!(status.name(), name);
        assert_eq!(TaskStatus::from_name(name), Some(status));
    }
    assert_eq!(TaskStatus::from_name("Done"), None);
    assert_eq!(TaskStatus::from_name(""), None);
}

#[test]
fn user_row_converts() {
    let row = UserData {
        id: 17,
        created_at: 1_700_000_000,
        last_seen: 1_700_000_500,
        email: "a@b.c".to_string(),
        username: "ann".to_string(),
        first_name: "Ann".to_string(),
        last_name: "Lee".to_string(),
    };
    let u = user_data_to_response(&row);
    assert_eq!(u.id, 17);
    assert_eq!(u.created_at, 1_700_000_000);
    assert_eq!(u.last_seen, 1_700_000_500);
    assert_eq!(u.email, "a@b.c");
    assert_eq!(u.username, "ann");
    assert_eq!(u.first_name, "Ann");
    assert_eq!(u.last_name, "Lee");
}

#[test]
fn negative_ids_reinterpret_as_unsigned() {
    let row = NotificationData {
        id: -1,
        created_at: -1,
        title: "t".to_string(),
        description: "d".to_string(),
    };
    let n = notification_to_response(&row);
    assert_eq!(n.id, u64::MAX);
    assert_eq!(n.created_at, u64::MAX);
    assert_eq!(n.title, "t");
    assert_eq!(n.description, "d");
}

#[test]
fn task_row_converts() {
    let t = task_data_to_response(&task_row(4, "in_review")).unwrap();
    assert_eq!(t.id, 4);
    assert_eq!(t.created_at, 30);
    assert_eq!(t.name, "task 4");
    assert_eq!(t.status, TaskStatus::InReview);
    assert_eq!(t.due_date, Some(40));
    assert_eq!(t.assigned_issue, Some(42));
    assert_eq!(t.attached_to.len(), 1);
    assert_eq!(t.attached_to[0].username, "u5");
}

#[test]
fn task_row_errors() {
    assert_eq!(task_data_to_response(&task_row(4, "finished")).unwrap_err(), RowError::UnknownStatus);
    let mut row = task_row(4, "done");
    row.attached_to = None;
    assert_eq!(task_data_to_response(&row).unwrap_err(), RowError::MissingAttachedUsers);
    row.status = "bogus".to_string();
    assert_eq!(task_data_to_response(&row).unwrap_err(), RowError::UnknownStatus);
}

#[test]
fn project_row_converts() {
    let p = project_data_to_response(&project_row(Some(vec![task_row(1, "todo"), task_row(2, "done")]))).unwrap();
    assert_eq!(p.id, 7);
    assert_eq!(p.owner.id, 1);
    assert_eq!(p.members.iter().map(|m| m.id).collect::<Vec<_>>(), vec![2, 3]);
    assert_eq!(p.tasks.iter().map(|t| t.status).collect::<Vec<_>>(), vec![TaskStatus::Todo, TaskStatus::Done]);
    assert_eq!(p.repository_id.as_deref(), Some("acme/widgets"));
}

#[test]
fn project_row_errors() {
    assert_eq!(project_data_to_response(&project_row(None)).unwrap_err(), RowError::MissingTasks);
    let mut row = project_row(Some(Vec::new()));
    row.members = None;
    assert_eq!(project_data_to_response(&row).unwrap_err(), RowError::MissingMembers);
    row.owner = None;
    assert_eq!(project_data_to_response(&row).unwrap_err(), RowError::MissingOwner);
    let mut bad = task_row(2, "todo");
    bad.attached_to = None;
    let row = project_row(Some(vec![task_row(1, "todo"), bad, task_row(3, "nope")]));
    assert_eq!(project_data_to_response(&row).unwrap_err(), RowError::MissingAttachedUsers);
}
