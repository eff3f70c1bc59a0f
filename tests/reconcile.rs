use krakker::model::{SelectProject, SelectTask, SelectUser, TaskStatus};
use krakker::reconcile::{
    find_task_for_issue, handle_issue, reconcile_issues, Issue, IssueState, TaskMutation,
};

fn user(id: u64) -> SelectUser {
    SelectUser {
        id,
        created_at: 0,
        last_seen: 0,
        email: String::new(),
        username: String::new(),
        first_name: String::new(),
        last_name: String::new(),
    }
}

fn task(id: u64, status: TaskStatus, issue: Option<u64>) -> SelectTask {
    SelectTask {
        id,
        created_at: 0,
        name: format!("task {id}"),
        description: String::new(),
        attached_to: Vec::new(),
        status,
        due_date: None,
        assigned_issue: issue,
    }
}

fn project(tasks: Vec<SelectTask>) -> SelectProject {
    SelectProject {
        id: 3,
        created_at: 0,
        name: "P".to_string(),
        description: String::new(),
        owner: user(9),
        members: Vec::new(),
        tasks,
        repository_id: Some("acme/widgets".to_string()),
    }
}

fn issue(number: u64, state: IssueState) -> Issue {
    Issue {
        number,
        title: format!("issue {number}"),
        body: Some(format!("body of {number}")),
        state,
    }
}

fn assert_create(m: &TaskMutation, number: u64) {
    match m {
        TaskMutation::Create { acting_user, request } => {
            assert_eq!(*acting_user, 9);
            assert_eq!(request.name, format!("issue {number}"));
            assert_eq!(request.description, format!("body of {number}"));
            assert_eq!(request.project_id, 3);
            assert!(request.attached_to.is_empty());
            assert_eq!(request.due_date, None);
            assert_eq!(request.assigned_issue, Some(number));
        }
        other => panic!("expected a create, got {other:?}"),
    }
}

fn assert_complete(m: &TaskMutation, task_id: u64, number: u64) {
    match m {
        TaskMutation::Update { acting_user, task_id: t, request } => {
            assert_eq!(*acting_user, 9);
            assert_eq!(*t, task_id);
            assert_eq!(request.status, Some(TaskStatus::Done));
            assert_eq!(request.assigned_issue, Some(number));
            assert!(request.name.is_none());
            assert!(request.description.is_none());
            assert_eq!(request.due_date, None);
        }
        other => panic!("expected an update, got {other:?}"),
    }
}

#[test]
fn scenario_closed_tracked_and_open_untracked() {
    let p = project(vec![task(100, TaskStatus::Todo, Some(42))]);
    let issues = vec![issue(42, IssueState::Closed), issue(7, IssueState::Open)];
    let ms = reconcile_issues(&p, &issues);
    assert_eq!(ms.len(), 2);
    assert_complete(&ms[0], 100, 42);
    assert_create(&ms[1], 7);
}

#[test]
fn open_issue_without_task_creates_one() {
    let p = project(vec![task(1, TaskStatus::Todo, Some(5))]);
    let ms = reconcile_issues(&p, &vec![issue(6, IssueState::Open)]);
    assert_eq!(ms.len(), 1);
    assert_create(&ms[0], 6);
}

#[test]
fn open_issue_with_task_changes_nothing() {
    for status in [TaskStatus::Todo, TaskStatus::Done, TaskStatus::Cancelled] {
        let p = project(vec![task(1, status, Some(6))]);
        assert!(reconcile_issues(&p, &vec![issue(6, IssueState::Open)]).is_empty());
    }
}

#[test]
fn open_issue_without_body_gets_empty_description() {
    let p = project(Vec::new());
    let i = Issue { number: 8, title: "t".to_string(), body: None, state: IssueState::Open };
    match handle_issue(&p, &i) {
        Some(TaskMutation::Create { request, .. }) => {
            assert_eq!(request.name, "t");
            assert_eq!(request.description, "");
        }
        other => panic!("expected a create, got {other:?}"),
    }
}

#[test]
fn closed_issue_completes_task_not_done() {
    for status in [TaskStatus::Todo, TaskStatus::InProgress, TaskStatus::InReview, TaskStatus::Blocked, TaskStatus::Cancelled] {
        let p = project(vec![task(1, TaskStatus::Done, Some(4)), task(2, status, Some(5))]);
        let ms = reconcile_issues(&p, &vec![issue(5, IssueState::Closed)]);
        assert_eq!(ms.len(), 1);
        assert_complete(&ms[0], 2, 5);
    }
}

#[test]
fn closed_issue_of_done_task_changes_nothing() {
    let p = project(vec![task(1, TaskStatus::Done, Some(5))]);
    assert!(reconcile_issues(&p, &vec![issue(5, IssueState::Closed)]).is_empty());
}

#[test]
fn closed_issue_without_task_changes_nothing() {
    let p = project(vec![task(1, TaskStatus::Todo, None)]);
    assert!(reconcile_issues(&p, &vec![issue(5, IssueState::Closed)]).is_empty());
}

#[test]
fn issue_of_unknown_state_changes_nothing() {
    let p = project(Vec::new());
    assert!(reconcile_issues(&p, &vec![issue(5, IssueState::Unknown)]).is_empty());
}

#[test]
fn duplicate_references_match_the_first_task() {
    let tasks = vec![
        task(1, TaskStatus::Todo, None),
        task(2, TaskStatus::InProgress, Some(5)),
        task(3, TaskStatus::Todo, Some(5)),
    ];
    assert_eq!(find_task_for_issue(&tasks, 5), Some(1));
    assert_eq!(find_task_for_issue(&tasks, 6), None);
    let p = project(tasks);
    let ms = reconcile_issues(&p, &vec![issue(5, IssueState::Closed)]);
    assert_eq!(ms.len(), 1);
    assert_complete(&ms[0], 2, 5);
    // the first match being done, the second is left as it is
    let p = project(vec![task(2, TaskStatus::Done, Some(5)), task(3, TaskStatus::Todo, Some(5))]);
    assert!(reconcile_issues(&p, &vec![issue(5, IssueState::Closed)]).is_empty());
}

#[test]
fn done_task_of_reopened_issue_is_not_reverted() {
    let p = project(vec![task(1, TaskStatus::Done, Some(5))]);
    assert!(reconcile_issues(&p, &vec![issue(5, IssueState::Open)]).is_empty());
}

#[test]
fn issues_are_judged_against_the_snapshot() {
    // the same open issue twice: the snapshot has no task for it either time
    let p = project(Vec::new());
    let ms = reconcile_issues(&p, &vec![issue(5, IssueState::Open), issue(5, IssueState::Open)]);
    assert_eq!(ms.len(), 2);
}

fn apply(p: &mut SelectProject, ms: Vec<TaskMutation>) {
    let mut fresh = 1000;
    for m in ms {
        match m {
            TaskMutation::Create { request, .. } => {
                p.tasks.push(task(fresh, TaskStatus::Todo, request.assigned_issue));
                fresh += 1;
            }
            TaskMutation::Update { task_id, request, .. } => {
                for t in p.tasks.iter_mut().filter(|t| t.id == task_id) {
                    t.status = request.status.unwrap();
                    t.assigned_issue = request.assigned_issue;
                }
            }
        }
    }
}

#[test]
fn second_pass_over_same_issues_is_empty() {
    let mut p = project(vec![
        task(1, TaskStatus::Todo, Some(42)),
        task(2, TaskStatus::Done, Some(43)),
        task(3, TaskStatus::InReview, Some(44)),
    ]);
    let issues = vec![
        issue(42, IssueState::Closed),
        issue(7, IssueState::Open),
        issue(43, IssueState::Closed),
        issue(44, IssueState::Open),
        issue(45, IssueState::Closed),
        issue(8, IssueState::Open),
    ];
    let first = reconcile_issues(&p, &issues);
    assert_eq!(first.len(), 3);
    apply(&mut p, first);
    assert!(reconcile_issues(&p, &issues).is_empty());
}
