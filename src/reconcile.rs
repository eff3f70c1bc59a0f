//! Deciding which task changes bring one project's tasks in line with the
//! issues of its repository.
//!
//! The policy only moves tasks forward: an open issue without a task gets
//! one, and a closed issue completes the first task that tracks it. Nothing
//! here reopens a task or reverts a status.

use vstd::prelude::*;
use crate::model::{CreateTaskRequest, SelectProject, SelectTask, TaskStatus, UpdateTaskRequest};

verus! {

/// Whether an issue is open or closed; `Unknown` stands for any other state
/// that the tracker may report, on which nothing is done.
#[derive(Debug, Clone, Copy, PartialEq, Eq, Structural)]
pub enum IssueState {
    Open,
    Closed,
    Unknown,
}

/// An issue of the external tracker, as far as reconciliation reads it.
#[derive(Debug)]
pub struct Issue {
    pub number: u64,
    pub title: String,
    pub body: Option<String>,
    pub state: IssueState,
}

/// What reconciliation reads of a task.
pub struct TaskRecord {
    pub id: u64,
    pub status: TaskStatus,
    pub issue: Option<u64>,
}

pub open spec fn record_of(t: SelectTask) -> TaskRecord {
    TaskRecord { id: t.id, status: t.status, issue: t.assigned_issue }
}

pub open spec fn records_of(tasks: Seq<SelectTask>) -> Seq<TaskRecord> {
    tasks.map_values(|t: SelectTask| record_of(t))
}

/// The body of an issue as a task description: empty where there is none.
pub open spec fn body_text(body: Option<String>) -> Seq<char> {
    match body {
        Some(b) => b@,
        None => Seq::empty(),
    }
}

/// A change to the task store, as a value.
///
/// `Create` makes a task of the project, in status `Todo`, tracking `issue`,
/// with no assignee and no due date. `Complete` sets the task's status to
/// `Done` and writes `issue` again as its reference, leaving the rest.
/// `acting_user` is the user on whose behalf the store is asked.
pub enum Change {
    Create {
        project_id: u64,
        acting_user: u64,
        issue: u64,
        name: Seq<char>,
        description: Seq<char>,
    },
    Complete { acting_user: u64, task_id: u64, issue: u64 },
}

/// The position of the first task that tracks issue `number`.
pub open spec fn first_task_for(tasks: Seq<TaskRecord>, number: u64) -> Option<int>
    decreases tasks.len(),
{
    if tasks.len() == 0 {
        None
    } else {
        match first_task_for(tasks.drop_last(), number) {
            Some(i) => Some(i),
            None => if tasks.last().issue == Some(number) {
                Some(tasks.len() - 1)
            } else {
                None
            },
        }
    }
}

/// The change that an open issue calls for: a task, unless one tracks it.
pub open spec fn open_decision(
    project_id: u64,
    acting_user: u64,
    tasks: Seq<TaskRecord>,
    issue: Issue,
) -> Option<Change> {
    if first_task_for(tasks, issue.number) is None {
        Some(
            Change::Create {
                project_id,
                acting_user,
                issue: issue.number,
                name: issue.title@,
                description: body_text(issue.body),
            },
        )
    } else {
        None
    }
}

/// The change that a closed issue calls for: completing the first task that
/// tracks it, unless that task is done already or there is none.
pub open spec fn closed_decision(acting_user: u64, tasks: Seq<TaskRecord>, issue: Issue) -> Option<
    Change,
> {
    match first_task_for(tasks, issue.number) {
        Some(i) => if tasks[i].status != TaskStatus::Done {
            Some(Change::Complete { acting_user, task_id: tasks[i].id, issue: issue.number })
        } else {
            None
        },
        None => None,
    }
}

/// The change that one issue calls for, given the project's tasks.
pub open spec fn decide(project_id: u64, acting_user: u64, tasks: Seq<TaskRecord>, issue: Issue) -> Option<
    Change,
> {
    match issue.state {
        IssueState::Open => open_decision(project_id, acting_user, tasks, issue),
        IssueState::Closed => closed_decision(acting_user, tasks, issue),
        IssueState::Unknown => None,
    }
}

pub open spec fn option_seq(c: Option<Change>) -> Seq<Change> {
    match c {
        Some(c) => seq![c],
        None => Seq::empty(),
    }
}

/// The changes for a list of issues, in the order of the issues. Each issue
/// is judged against the same snapshot of tasks.
pub open spec fn plan(project_id: u64, acting_user: u64, tasks: Seq<TaskRecord>, issues: Seq<Issue>) -> Seq<
    Change,
>
    decreases issues.len(),
{
    if issues.len() == 0 {
        Seq::empty()
    } else {
        plan(project_id, acting_user, tasks, issues.drop_last()) + option_seq(
            decide(project_id, acting_user, tasks, issues.last()),
        )
    }
}

/// The changes that a project calls for: the store acts on behalf of the
/// project's owner.
pub open spec fn project_plan(project: SelectProject, issues: Seq<Issue>) -> Seq<Change> {
    plan(project.id, project.owner.id, records_of(project.tasks@), issues)
}

/// A change to the task store, ready to be sent.
#[derive(Debug)]
pub enum TaskMutation {
    Create { acting_user: u64, request: CreateTaskRequest },
    Update { acting_user: u64, task_id: u64, request: UpdateTaskRequest },
}

impl TaskMutation {
    /// Whether this mutation is `c`, with every field it sends fixed.
    pub open spec fn realises(&self, c: Change) -> bool {
        match self {
            TaskMutation::Create { acting_user, request } => {
                &&& c is Create
                &&& c->Create_acting_user == *acting_user
                &&& c->Create_project_id == request.project_id
                &&& c->name == request.name@
                &&& c->description == request.description@
                &&& request.attached_to@.len() == 0
                &&& request.due_date is None
                &&& request.assigned_issue == Some(c->Create_issue)
            },
            TaskMutation::Update { acting_user, task_id, request } => {
                &&& c is Complete
                &&& c->Complete_acting_user == *acting_user
                &&& c->task_id == *task_id
                &&& request.name is None
                &&& request.description is None
                &&& request.status == Some(TaskStatus::Done)
                &&& request.due_date is None
                &&& request.assigned_issue == Some(c->Complete_issue)
            },
        }
    }
}

pub open spec fn realises_option(m: Option<TaskMutation>, c: Option<Change>) -> bool {
    match m {
        Some(m) => c is Some && m.realises(c->0),
        None => c is None,
    }
}

pub open spec fn realises_all(ms: Seq<TaskMutation>, cs: Seq<Change>) -> bool {
    &&& ms.len() == cs.len()
    &&& forall|k: int| 0 <= k < ms.len() ==> #[trigger] ms[k].realises(cs[k])
}

/// What `first_task_for` finds, stated without recursion.
pub proof fn lemma_first_task_for(tasks: Seq<TaskRecord>, number: u64)
    ensures
        match first_task_for(tasks, number) {
            Some(i) => {
                &&& 0 <= i < tasks.len()
                &&& tasks[i].issue == Some(number)
                &&& forall|j: int| 0 <= j < i ==> tasks[j].issue != Some(number)
            },
            None => forall|j: int| 0 <= j < tasks.len() ==> tasks[j].issue != Some(number),
        },
    decreases tasks.len(),
{
    if tasks.len() > 0 {
        lemma_first_task_for(tasks.drop_last(), number);
        assert forall|j: int| 0 <= j < tasks.len() - 1 implies tasks.drop_last()[j] == tasks[j] by {}
    }
}

/// The first task of `tasks` that tracks issue `number`.
pub fn find_task_for_issue(tasks: &Vec<SelectTask>, number: u64) -> (r: Option<usize>)
    ensures
        r matches Some(i) ==> first_task_for(records_of(tasks@), number) == Some(i as int),
        r is None ==> first_task_for(records_of(tasks@), number) is None,
{
    let ghost recs = records_of(tasks@);
    let mut i: usize = 0;
    while i < tasks.len()
        invariant
            recs == records_of(tasks@),
            i <= tasks@.len(),
            first_task_for(recs.take(i as int), number) is None,
        decreases tasks@.len() - i,
    {
        let found = match tasks[i].assigned_issue {
            Some(n) => n == number,
            None => false,
        };
        assert(recs.take(i + 1).drop_last() == recs.take(i as int));
        if found {
            assert(first_task_for(recs.take(i + 1), number) == Some(i as int));
            proof {
                lemma_first_task_for_prefix(recs, number, i + 1);
            }
            return Some(i);
        }
        i = i + 1;
    }
    assert(recs.take(i as int) == recs);
    None
}

/// A first match in a prefix is the first match of the whole.
pub proof fn lemma_first_task_for_prefix(tasks: Seq<TaskRecord>, number: u64, len: int)
    requires
        0 <= len <= tasks.len(),
        first_task_for(tasks.take(len), number) is Some,
    ensures
        first_task_for(tasks, number) == first_task_for(tasks.take(len), number),
    decreases tasks.len() - len,
{
    if len < tasks.len() {
        assert(tasks.take(len + 1).drop_last() == tasks.take(len));
        lemma_first_task_for_prefix(tasks, number, len + 1);
    } else {
        assert(tasks.take(len) == tasks);
    }
}

/// The mutation that makes a task for an open issue.
pub fn create_task_for_issue(project: &SelectProject, issue: &Issue) -> (r: TaskMutation)
    ensures
        r.realises(
            Change::Create {
                project_id: project.id,
                acting_user: project.owner.id,
                issue: issue.number,
                name: issue.title@,
                description: body_text(issue.body),
            },
        ),
{
    let description = match &issue.body {
        Some(b) => b.clone(),
        None => String::new(),
    };
    let request = CreateTaskRequest {
        name: issue.title.clone(),
        description,
        project_id: project.id,
        attached_to: Vec::new(),
        due_date: None,
        assigned_issue: Some(issue.number),
    };
    TaskMutation::Create { acting_user: project.owner.id, request }
}

/// The mutation that completes `task` for a closed issue.
pub fn close_task_for_issue(project: &SelectProject, task: &SelectTask, issue: &Issue) -> (r:
    TaskMutation)
    ensures
        r.realises(
            Change::Complete {
                acting_user: project.owner.id,
                task_id: task.id,
                issue: issue.number,
            },
        ),
{
    let request = UpdateTaskRequest {
        name: None,
        description: None,
        status: Some(TaskStatus::Done),
        due_date: None,
        assigned_issue: Some(issue.number),
    };
    TaskMutation::Update { acting_user: project.owner.id, task_id: task.id, request }
}

/// The mutation that an open issue calls for.
pub fn handle_open_issue(project: &SelectProject, issue: &Issue) -> (r: Option<TaskMutation>)
    ensures
        realises_option(
            r,
            open_decision(project.id, project.owner.id, records_of(project.tasks@), *issue),
        ),
{
    match find_task_for_issue(&project.tasks, issue.number) {
        Some(_) => None,
        None => Some(create_task_for_issue(project, issue)),
    }
}

/// The mutation that a closed issue calls for.
pub fn handle_closed_issue(project: &SelectProject, issue: &Issue) -> (r: Option<TaskMutation>)
    ensures
        realises_option(r, closed_decision(project.owner.id, records_of(project.tasks@), *issue)),
{
    match find_task_for_issue(&project.tasks, issue.number) {
        Some(i) => {
            proof {
                lemma_first_task_for(records_of(project.tasks@), issue.number);
            }
            let task = &project.tasks[i];
            assert(records_of(project.tasks@)[i as int] == record_of(*task));
            if task.status != TaskStatus::Done {
                Some(close_task_for_issue(project, task, issue))
            } else {
                None
            }
        },
        None => None,
    }
}

/// The mutation that one issue calls for.
pub fn handle_issue(project: &SelectProject, issue: &Issue) -> (r: Option<TaskMutation>)
    ensures
        realises_option(
            r,
            decide(project.id, project.owner.id, records_of(project.tasks@), *issue),
        ),
{
    match issue.state {
        IssueState::Open => handle_open_issue(project, issue),
        IssueState::Closed => handle_closed_issue(project, issue),
        IssueState::Unknown => None,
    }
}

/// The mutations that a project's issues call for, in the order of the
/// issues, each judged against the project's task snapshot.
pub fn reconcile_issues(project: &SelectProject, issues: &Vec<Issue>) -> (r: Vec<TaskMutation>)
    ensures
        realises_all(r@, project_plan(*project, issues@)),
{
    let ghost tasks = records_of(project.tasks@);
    let mut out: Vec<TaskMutation> = Vec::new();
    let mut j: usize = 0;
    while j < issues.len()
        invariant
            tasks == records_of(project.tasks@),
            j <= issues@.len(),
            realises_all(out@, plan(project.id, project.owner.id, tasks, issues@.take(j as int))),
        decreases issues@.len() - j,
    {
        let ghost before = out@;
        let decision = handle_issue(project, &issues[j]);
        assert(issues@.take(j + 1).drop_last() == issues@.take(j as int));
        assert(issues@.take(j + 1).last() == issues@[j as int]);
        match decision {
            Some(m) => {
                out.push(m);
                assert(realises_all(
                    out@,
                    plan(project.id, project.owner.id, tasks, issues@.take(j + 1)),
                )) by {
                    let cs = plan(project.id, project.owner.id, tasks, issues@.take(j + 1));
                    assert forall|k: int| 0 <= k < out@.len() implies #[trigger] out@[k].realises(
                        cs[k],
                    ) by {
                        if k < before.len() {
                            assert(out@[k] == before[k]);
                        }
                    }
                }
            },
            None => {
                assert(plan(project.id, project.owner.id, tasks, issues@.take(j + 1)) =~= plan(
                    project.id,
                    project.owner.id,
                    tasks,
                    issues@.take(j as int),
                ));
            },
        }
        j = j + 1;
    }
    assert(issues@.take(j as int) == issues@);
    out
}

} // verus!
