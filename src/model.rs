//! The records that the task tracker keeps: users, projects, tasks, and the
//! requests that create or change them.

use vstd::prelude::*;
use crate::text::same_text;

verus! {

/// Where a task stands in its workflow.
#[derive(Debug, Clone, Copy, PartialEq, Eq, Structural)]
pub enum TaskStatus {
    Todo,
    InProgress,
    InReview,
    Done,
    Blocked,
    Cancelled,
}

/// The stored (snake case) name of a status.
pub open spec fn status_name(s: TaskStatus) -> Seq<char> {
    match s {
        TaskStatus::Todo => "todo"@,
        TaskStatus::InProgress => "in_progress"@,
        TaskStatus::InReview => "in_review"@,
        TaskStatus::Done => "done"@,
        TaskStatus::Blocked => "blocked"@,
        TaskStatus::Cancelled => "cancelled"@,
    }
}

impl TaskStatus {
    /// The name under which the store keeps this status.
    pub fn name(&self) -> (r: &'static str)
        ensures
            r@ == status_name(*self),
    {
        match self {
            TaskStatus::Todo => "todo",
            TaskStatus::InProgress => "in_progress",
            TaskStatus::InReview => "in_review",
            TaskStatus::Done => "done",
            TaskStatus::Blocked => "blocked",
            TaskStatus::Cancelled => "cancelled",
        }
    }

    /// The status stored under `name`, if any.
    pub fn from_name(name: &str) -> (r: Option<TaskStatus>)
        ensures
            r matches Some(s) ==> status_name(s) == name@,
            r is None ==> forall|s: TaskStatus| status_name(s) != name@,
    {
        if same_text(name, "todo") {
            Some(TaskStatus::Todo)
        } else if same_text(name, "in_progress") {
            Some(TaskStatus::InProgress)
        } else if same_text(name, "in_review") {
            Some(TaskStatus::InReview)
        } else if same_text(name, "done") {
            Some(TaskStatus::Done)
        } else if same_text(name, "blocked") {
            Some(TaskStatus::Blocked)
        } else if same_text(name, "cancelled") {
            Some(TaskStatus::Cancelled)
        } else {
            None
        }
    }
}


/// A user as the API shows it. Times are seconds since the Unix epoch.
#[derive(Debug, Clone)]
pub struct SelectUser {
    pub id: u64,
    pub created_at: u64,
    pub last_seen: u64,
    pub email: String,
    pub username: String,
    pub first_name: String,
    pub last_name: String,
}

/// A task as the store holds it. `assigned_issue` is the number of the
/// external issue that the task tracks, if it tracks one.
#[derive(Debug)]
pub struct SelectTask {
    pub id: u64,
    pub created_at: u64,
    pub name: String,
    pub description: String,
    pub attached_to: Vec<SelectUser>,
    pub status: TaskStatus,
    pub due_date: Option<u64>,
    pub assigned_issue: Option<u64>,
}

/// A project with the snapshot of its tasks taken when it was read.
/// `repository_id` binds the project to an external repository, written
/// `owner/repo`.
#[derive(Debug)]
pub struct SelectProject {
    pub id: u64,
    pub created_at: u64,
    pub name: String,
    pub description: String,
    pub owner: SelectUser,
    pub members: Vec<SelectUser>,
    pub tasks: Vec<SelectTask>,
    pub repository_id: Option<String>,
}

/// Filter of a task listing.
#[derive(Debug)]
pub struct SelectTaskRequest {
    pub project_id: Option<u64>,
}

/// What a new task is made of. The store creates every task as `Todo`.
#[derive(Debug)]
pub struct CreateTaskRequest {
    pub name: String,
    pub description: String,
    pub project_id: u64,
    pub attached_to: Vec<u64>,
    pub due_date: Option<u64>,
    pub assigned_issue: Option<u64>,
}

/// A change to a task: each `Some` field is written. `assigned_issue` is
/// always written, `None` clearing it.
#[derive(Debug)]
pub struct UpdateTaskRequest {
    pub name: Option<String>,
    pub description: Option<String>,
    pub status: Option<TaskStatus>,
    pub due_date: Option<u64>,
    pub assigned_issue: Option<u64>,
}

/// What a new project is made of.
#[derive(Debug)]
pub struct CreateProjectRequest {
    pub name: String,
    pub description: String,
    pub members: Vec<u64>,
}

/// A change to a project: each `Some` field is written; `repository_id` is
/// always written, `None` removing the binding.
#[derive(Debug, Clone)]
pub struct UpdateProjectRequest {
    pub name: Option<String>,
    pub description: Option<String>,
    pub owner_id: Option<u64>,
    pub repository_id: Option<String>,
}

/// Filter of a user listing.
#[derive(Debug)]
pub struct SelectUserQuery {
    pub project_id: Option<u64>,
    pub username: Option<String>,
}

/// A notification as the API shows it.
#[derive(Debug)]
pub struct SelectNotification {
    pub id: u64,
    pub created_at: u64,
    pub title: String,
    pub description: String,
}

/// A user row as the database returns it. Times are Unix timestamps in
/// seconds.
#[derive(Debug)]
pub struct UserData {
    pub id: i32,
    pub created_at: i64,
    pub last_seen: i64,
    pub email: String,
    pub username: String,
    pub first_name: String,
    pub last_name: String,
}

/// A notification row as the database returns it.
#[derive(Debug)]
pub struct NotificationData {
    pub id: i32,
    pub created_at: i64,
    pub title: String,
    pub description: String,
}

/// Whether `r` is the API form of user row `u`.
pub open spec fn converts_user(r: SelectUser, u: UserData) -> bool {
    &&& r.id == u.id as u64
    &&& r.created_at == u.created_at as u64
    &&& r.last_seen == u.last_seen as u64
    &&& r.email@ == u.email@
    &&& r.username@ == u.username@
    &&& r.first_name@ == u.first_name@
    &&& r.last_name@ == u.last_name@
}

/// Converts a user row to its API form. Identifiers and times are
/// reinterpreted as unsigned, as a Rust `as` cast does.
pub fn user_data_to_response(user: &UserData) -> (r: SelectUser)
    ensures
        converts_user(r, *user),
{
    SelectUser {
        id: user.id as u64,
        created_at: user.created_at as u64,
        last_seen: user.last_seen as u64,
        email: user.email.clone(),
        username: user.username.clone(),
        first_name: user.first_name.clone(),
        last_name: user.last_name.clone(),
    }
}

/// Converts a notification row to its API form.
pub fn notification_to_response(notification: &NotificationData) -> (r: SelectNotification)
    ensures
        r.id == notification.id as u64,
        r.created_at == notification.created_at as u64,
        r.title@ == notification.title@,
        r.description@ == notification.description@,
{
    SelectNotification {
        id: notification.id as u64,
        created_at: notification.created_at as u64,
        title: notification.title.clone(),
        description: notification.description.clone(),
    }
}

/// A task row, with the users attached to it where they were fetched.
#[derive(Debug)]
pub struct TaskData {
    pub id: i32,
    pub created_at: i64,
    pub name: String,
    pub description: String,
    pub status: String,
    pub due_date: Option<i64>,
    pub attached_to: Option<Vec<UserData>>,
    pub assigned_issue: Option<i32>,
}

/// A project row, with its owner, members and tasks where they were
/// fetched.
#[derive(Debug)]
pub struct ProjectData {
    pub id: i32,
    pub created_at: i64,
    pub name: String,
    pub description: String,
    pub owner: Option<UserData>,
    pub members: Option<Vec<UserData>>,
    pub tasks: Option<Vec<TaskData>>,
    pub repo_id: Option<String>,
}

/// Why a row cannot be shown.
#[derive(Debug, Clone, Copy, PartialEq, Eq, Structural)]
pub enum RowError {
    /// A task's status is none of the known names.
    UnknownStatus,
    /// A task's attached users were not fetched.
    MissingAttachedUsers,
    /// A project's owner was not fetched.
    MissingOwner,
    /// A project's members were not fetched.
    MissingMembers,
    /// A project's tasks were not fetched.
    MissingTasks,
}

pub open spec fn converts_users(r: Seq<SelectUser>, us: Seq<UserData>) -> bool {
    &&& r.len() == us.len()
    &&& forall|k: int| 0 <= k < r.len() ==> #[trigger] converts_user(r[k], us[k])
}

/// Whether `r` is the API form of task row `t`.
pub open spec fn converts_task(r: SelectTask, t: TaskData) -> bool {
    &&& r.id == t.id as u64
    &&& r.created_at == t.created_at as u64
    &&& r.name@ == t.name@
    &&& r.description@ == t.description@
    &&& status_name(r.status) == t.status@
    &&& r.due_date == (match t.due_date {
        Some(d) => Some(d as u64),
        None => None,
    })
    &&& t.attached_to is Some
    &&& converts_users(r.attached_to@, t.attached_to->0@)
    &&& r.assigned_issue == (match t.assigned_issue {
        Some(i) => Some(i as u64),
        None => None,
    })
}

/// The error that a task row gets, checked in this order.
pub open spec fn task_row_error(t: TaskData) -> Option<RowError> {
    if forall|s: TaskStatus| status_name(s) != t.status@ {
        Some(RowError::UnknownStatus)
    } else if t.attached_to is None {
        Some(RowError::MissingAttachedUsers)
    } else {
        None
    }
}

/// The error of the first task row that has one.
pub open spec fn first_task_row_error(ts: Seq<TaskData>) -> Option<RowError>
    decreases ts.len(),
{
    if ts.len() == 0 {
        None
    } else {
        match first_task_row_error(ts.drop_last()) {
            Some(e) => Some(e),
            None => task_row_error(ts.last()),
        }
    }
}

/// The error that a project row gets, checked in this order.
pub open spec fn project_row_error(p: ProjectData) -> Option<RowError> {
    if p.owner is None {
        Some(RowError::MissingOwner)
    } else if p.members is None {
        Some(RowError::MissingMembers)
    } else if p.tasks is None {
        Some(RowError::MissingTasks)
    } else {
        first_task_row_error(p.tasks->0@)
    }
}

/// Whether `r` is the API form of project row `p`.
pub open spec fn converts_project(r: SelectProject, p: ProjectData) -> bool {
    &&& r.id == p.id as u64
    &&& r.created_at == p.created_at as u64
    &&& r.name@ == p.name@
    &&& r.description@ == p.description@
    &&& p.owner is Some && converts_user(r.owner, p.owner->0)
    &&& p.members is Some && converts_users(r.members@, p.members->0@)
    &&& p.tasks is Some && r.tasks@.len() == p.tasks->0@.len()
    &&& forall|k: int| 0 <= k < r.tasks@.len() ==> #[trigger] converts_task(r.tasks@[k], p.tasks->0@[k])
    &&& r.repository_id == (match p.repo_id {
        Some(b) => Some(b),
        None => None::<String>,
    })
}

fn users_to_response(users: &Vec<UserData>) -> (r: Vec<SelectUser>)
    ensures
        converts_users(r@, users@),
{
    let mut out: Vec<SelectUser> = Vec::new();
    let mut k: usize = 0;
    while k < users.len()
        invariant
            k <= users@.len(),
            converts_users(out@, users@.take(k as int)),
        decreases users@.len() - k,
    {
        out.push(user_data_to_response(&users[k]));
        k = k + 1;
        assert(converts_users(out@, users@.take(k as int))) by {
            assert forall|j: int| 0 <= j < out@.len() implies #[trigger] converts_user(
                out@[j],
                users@.take(k as int)[j],
            ) by {
                assert(users@.take(k as int)[j] == users@[j]);
                if j < k - 1 {
                    assert(users@.take(k - 1)[j] == users@[j]);
                }
            }
        }
    }
    assert(users@.take(k as int) == users@);
    out
}

/// Converts a task row to its API form.
pub fn task_data_to_response(task: &TaskData) -> (r: Result<SelectTask, RowError>)
    ensures
        r is Ok <==> task_row_error(*task) is None,
        r matches Ok(t) ==> converts_task(t, *task),
        r matches Err(e) ==> task_row_error(*task) == Some(e),
{
    let status = match TaskStatus::from_name(task.status.as_str()) {
        Some(s) => s,
        None => {
            return Err(RowError::UnknownStatus);
        },
    };
    let attached_to = match &task.attached_to {
        Some(users) => users_to_response(users),
        None => {
            return Err(RowError::MissingAttachedUsers);
        },
    };
    let due_date = match task.due_date {
        Some(d) => Some(d as u64),
        None => None,
    };
    let assigned_issue = match task.assigned_issue {
        Some(i) => Some(i as u64),
        None => None,
    };
    Ok(SelectTask {
        id: task.id as u64,
        created_at: task.created_at as u64,
        name: task.name.clone(),
        description: task.description.clone(),
        attached_to,
        status,
        due_date,
        assigned_issue,
    })
}

/// Converts a project row, with its owner, members and tasks, to its API
/// form.
pub fn project_data_to_response(project: &ProjectData) -> (r: Result<SelectProject, RowError>)
    ensures
        r is Ok <==> project_row_error(*project) is None,
        r matches Ok(p) ==> converts_project(p, *project),
        r matches Err(e) ==> project_row_error(*project) == Some(e),
{
    let owner = match &project.owner {
        Some(o) => user_data_to_response(o),
        None => {
            return Err(RowError::MissingOwner);
        },
    };
    let members = match &project.members {
        Some(ms) => users_to_response(ms),
        None => {
            return Err(RowError::MissingMembers);
        },
    };
    let rows = match &project.tasks {
        Some(ts) => ts,
        None => {
            return Err(RowError::MissingTasks);
        },
    };
    let mut tasks: Vec<SelectTask> = Vec::new();
    let mut k: usize = 0;
    while k < rows.len()
        invariant
            project.owner is Some,
            project.members is Some,
            project.tasks is Some,
            rows@ == project.tasks->0@,
            k <= rows@.len(),
            first_task_row_error(rows@.take(k as int)) is None,
            tasks@.len() == k,
            forall|j: int| 0 <= j < k ==> #[trigger] converts_task(tasks@[j], rows@[j]),
        decreases rows@.len() - k,
    {
        assert(rows@.take(k + 1).drop_last() == rows@.take(k as int));
        match task_data_to_response(&rows[k]) {
            Ok(t) => {
                tasks.push(t);
            },
            Err(e) => {
                proof {
                    lemma_first_task_row_error_prefix(rows@, k + 1);
                }
                return Err(e);
            },
        }
        k = k + 1;
    }
    assert(rows@.take(k as int) == rows@);
    let repository_id = match &project.repo_id {
        Some(b) => Some(b.clone()),
        None => None,
    };
    Ok(SelectProject {
        id: project.id as u64,
        created_at: project.created_at as u64,
        name: project.name.clone(),
        description: project.description.clone(),
        owner,
        members,
        tasks,
        repository_id,
    })
}

proof fn lemma_first_task_row_error_prefix(ts: Seq<TaskData>, len: int)
    requires
        0 <= len <= ts.len(),
        first_task_row_error(ts.take(len)) is Some,
    ensures
        first_task_row_error(ts) == first_task_row_error(ts.take(len)),
    decreases ts.len() - len,
{
    if len < ts.len() {
        assert(ts.take(len + 1).drop_last() == ts.take(len));
        lemma_first_task_row_error_prefix(ts, len + 1);
    } else {
        assert(ts.take(len) == ts);
    }
}

} // verus!
