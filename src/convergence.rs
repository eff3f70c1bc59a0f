//! What reconciliation guarantees over whole lists of issues: which changes
//! each issue gets, and that a second pass over the same issues, once the
//! changes of the first have been applied, asks for nothing more.

use vstd::prelude::*;
use crate::model::{SelectProject, TaskStatus};
use crate::reconcile::{
    Change, Issue, IssueState, TaskRecord, body_text, decide, first_task_for, lemma_first_task_for,
    plan, project_plan, record_of, records_of,
};

verus! {

/// Whether change `c` concerns issue `number`.
pub open spec fn mentions(c: Change, number: u64) -> bool {
    match c {
        Change::Create { issue, .. } => issue == number,
        Change::Complete { issue, .. } => issue == number,
    }
}

/// How many of `cs` concern issue `number`.
pub open spec fn count_mentions(cs: Seq<Change>, number: u64) -> nat
    decreases cs.len(),
{
    if cs.len() == 0 {
        0
    } else {
        count_mentions(cs.drop_last(), number) + if mentions(cs.last(), number) {
            1nat
        } else {
            0nat
        }
    }
}

/// Whether no two issues share a number, as the tracker guarantees.
pub open spec fn distinct_numbers(issues: Seq<Issue>) -> bool {
    forall|i: int, j: int| 0 <= i < j < issues.len() ==> issues[i].number != issues[j].number
}

/// The tasks after a change has been applied by the store; `fresh_id` is the
/// id that the store gives a task it creates.
pub open spec fn apply_change(tasks: Seq<TaskRecord>, c: Change, fresh_id: u64) -> Seq<TaskRecord> {
    match c {
        Change::Create { issue, .. } => tasks.push(
            TaskRecord { id: fresh_id, status: TaskStatus::Todo, issue: Some(issue) },
        ),
        Change::Complete { task_id, .. } => tasks.map_values(
            |t: TaskRecord|
                if t.id == task_id {
                    TaskRecord { id: t.id, status: TaskStatus::Done, issue: t.issue }
                } else {
                    t
                },
        ),
    }
}

/// The tasks after all of `cs` have been applied in order; the `k`-th change,
/// where it creates a task, gives it the id `fresh_ids[k]`.
pub open spec fn apply_all(tasks: Seq<TaskRecord>, cs: Seq<Change>, fresh_ids: Seq<u64>) -> Seq<
    TaskRecord,
>
    decreases cs.len(),
{
    if cs.len() == 0 {
        tasks
    } else {
        apply_change(apply_all(tasks, cs.drop_last(), fresh_ids), cs.last(), fresh_ids[cs.len() - 1])
    }
}

proof fn lemma_plan_step(pid: u64, user: u64, tasks: Seq<TaskRecord>, issues: Seq<Issue>)
    requires
        issues.len() > 0,
    ensures
        ({
            let p = plan(pid, user, tasks, issues);
            let q = plan(pid, user, tasks, issues.drop_last());
            match decide(pid, user, tasks, issues.last()) {
                Some(c) => p.len() == q.len() + 1 && p.drop_last() == q && p.last() == c,
                None => p == q,
            }
        }),
{
    let p = plan(pid, user, tasks, issues);
    let q = plan(pid, user, tasks, issues.drop_last());
    match decide(pid, user, tasks, issues.last()) {
        Some(c) => {
            assert(p.drop_last() =~= q);
        },
        None => {
            assert(p =~= q);
        },
    }
}

proof fn lemma_decision_mentions(pid: u64, user: u64, tasks: Seq<TaskRecord>, issue: Issue)
    ensures
        decide(pid, user, tasks, issue) matches Some(c) ==> mentions(c, issue.number),
{
}

proof fn lemma_no_mentions(pid: u64, user: u64, tasks: Seq<TaskRecord>, issues: Seq<Issue>, n: u64)
    requires
        forall|j: int| 0 <= j < issues.len() ==> issues[j].number != n,
    ensures
        count_mentions(plan(pid, user, tasks, issues), n) == 0,
    decreases issues.len(),
{
    if issues.len() > 0 {
        lemma_no_mentions(pid, user, tasks, issues.drop_last(), n);
        lemma_plan_step(pid, user, tasks, issues);
        lemma_decision_mentions(pid, user, tasks, issues.last());
        if let Some(c) = decide(pid, user, tasks, issues.last()) {
            if mentions(c, n) {
                match c {
                    Change::Create { issue, .. } => {},
                    Change::Complete { issue, .. } => {},
                }
            }
        }
    }
}

/// Where one issue alone has number `n`, the changes that concern `n` are its
/// own decision, and nothing else.
proof fn lemma_one_mention(
    pid: u64,
    user: u64,
    tasks: Seq<TaskRecord>,
    issues: Seq<Issue>,
    j0: int,
)
    requires
        0 <= j0 < issues.len(),
        forall|j: int| 0 <= j < issues.len() && j != j0 ==> issues[j].number != issues[j0].number,
    ensures
        ({
            let p = plan(pid, user, tasks, issues);
            let n = issues[j0].number;
            match decide(pid, user, tasks, issues[j0]) {
                Some(c) => count_mentions(p, n) == 1 && exists|k: int| 0 <= k < p.len() && p[k] == c,
                None => count_mentions(p, n) == 0,
            }
        }),
    decreases issues.len(),
{
    let n = issues[j0].number;
    let p = plan(pid, user, tasks, issues);
    lemma_plan_step(pid, user, tasks, issues);
    let q = plan(pid, user, tasks, issues.drop_last());
    let last = issues.last();
    if j0 == issues.len() - 1 {
        assert forall|j: int| 0 <= j < issues.drop_last().len() implies issues.drop_last()[j].number
            != n by {
            assert(issues.drop_last()[j] == issues[j]);
        }
        lemma_no_mentions(pid, user, tasks, issues.drop_last(), n);
        if let Some(c) = decide(pid, user, tasks, last) {
            lemma_decision_mentions(pid, user, tasks, last);
            assert(p[p.len() - 1] == c);
        }
    } else {
        assert forall|j: int| 0 <= j < issues.drop_last().len() && j != j0 implies issues.drop_last()[j].number
            != issues.drop_last()[j0].number by {
            assert(issues.drop_last()[j] == issues[j]);
        }
        lemma_one_mention(pid, user, tasks, issues.drop_last(), j0);
        assert(issues.drop_last()[j0] == issues[j0]);
        assert(last.number != n);
        if let Some(c) = decide(pid, user, tasks, last) {
            lemma_decision_mentions(pid, user, tasks, last);
            assert(!mentions(c, n)) by {
                match c {
                    Change::Create { issue, .. } => {},
                    Change::Complete { issue, .. } => {},
                }
            }
            if let Some(c0) = decide(pid, user, tasks, issues[j0]) {
                let k = choose|k: int| 0 <= k < q.len() && q[k] == c0;
                assert(p[k] == q[k]);
            }
        }
    }
}

/// An open issue that no task of the project tracks gets exactly one change
/// about it: a new task (created `Todo`) named after the issue, described by
/// its body, tracking its number.
pub proof fn open_issue_without_task_is_created_once(
    project: SelectProject,
    issues: Seq<Issue>,
    j: int,
)
    requires
        distinct_numbers(issues),
        0 <= j < issues.len(),
        issues[j].state == IssueState::Open,
        forall|t: int|
            0 <= t < project.tasks@.len() ==> project.tasks@[t].assigned_issue != Some(
                issues[j].number,
            ),
    ensures
        ({
            let p = project_plan(project, issues);
            &&& count_mentions(p, issues[j].number) == 1
            &&& exists|k: int|
                0 <= k < p.len() && p[k] == Change::Create {
                    project_id: project.id,
                    acting_user: project.owner.id,
                    issue: issues[j].number,
                    name: issues[j].title@,
                    description: body_text(issues[j].body),
                }
        }),
{
    let tasks = records_of(project.tasks@);
    lemma_first_task_for(tasks, issues[j].number);
    if first_task_for(tasks, issues[j].number) is Some {
        let i = first_task_for(tasks, issues[j].number)->0;
        assert(tasks[i].issue == project.tasks@[i].assigned_issue);
    }
    lemma_one_mention(project.id, project.owner.id, tasks, issues, j);
}

/// A closed issue whose first tracking task is not done gets exactly one
/// change about it: that task set to `Done`.
pub proof fn closed_issue_completes_its_task_once(
    project: SelectProject,
    issues: Seq<Issue>,
    j: int,
    t: int,
)
    requires
        distinct_numbers(issues),
        0 <= j < issues.len(),
        issues[j].state == IssueState::Closed,
        0 <= t < project.tasks@.len(),
        project.tasks@[t].assigned_issue == Some(issues[j].number),
        forall|s: int| 0 <= s < t ==> project.tasks@[s].assigned_issue != Some(issues[j].number),
        project.tasks@[t].status != TaskStatus::Done,
    ensures
        ({
            let p = project_plan(project, issues);
            &&& count_mentions(p, issues[j].number) == 1
            &&& exists|k: int|
                0 <= k < p.len() && p[k] == Change::Complete {
                    acting_user: project.owner.id,
                    task_id: project.tasks@[t].id,
                    issue: issues[j].number,
                }
        }),
{
    let tasks = records_of(project.tasks@);
    assert forall|s: int| 0 <= s < t implies tasks[s].issue != Some(issues[j].number) by {
        assert(tasks[s].issue == project.tasks@[s].assigned_issue);
    }
    lemma_first_task_is(tasks, issues[j].number, t);
    assert(tasks[t] == record_of(project.tasks@[t]));
    lemma_one_mention(project.id, project.owner.id, tasks, issues, j);
}

/// A closed issue whose first tracking task is done already gets no change.
pub proof fn closed_issue_of_done_task_is_left_alone(
    project: SelectProject,
    issues: Seq<Issue>,
    j: int,
    t: int,
)
    requires
        distinct_numbers(issues),
        0 <= j < issues.len(),
        issues[j].state == IssueState::Closed,
        0 <= t < project.tasks@.len(),
        project.tasks@[t].assigned_issue == Some(issues[j].number),
        forall|s: int| 0 <= s < t ==> project.tasks@[s].assigned_issue != Some(issues[j].number),
        project.tasks@[t].status == TaskStatus::Done,
    ensures
        count_mentions(project_plan(project, issues), issues[j].number) == 0,
{
    let tasks = records_of(project.tasks@);
    assert forall|s: int| 0 <= s < t implies tasks[s].issue != Some(issues[j].number) by {
        assert(tasks[s].issue == project.tasks@[s].assigned_issue);
    }
    lemma_first_task_is(tasks, issues[j].number, t);
    assert(tasks[t] == record_of(project.tasks@[t]));
    lemma_one_mention(project.id, project.owner.id, tasks, issues, j);
}

/// A closed issue that no task tracks gets no change.
pub proof fn closed_issue_without_task_is_left_alone(
    project: SelectProject,
    issues: Seq<Issue>,
    j: int,
)
    requires
        distinct_numbers(issues),
        0 <= j < issues.len(),
        issues[j].state == IssueState::Closed,
        forall|t: int|
            0 <= t < project.tasks@.len() ==> project.tasks@[t].assigned_issue != Some(
                issues[j].number,
            ),
    ensures
        count_mentions(project_plan(project, issues), issues[j].number) == 0,
{
    let tasks = records_of(project.tasks@);
    lemma_first_task_for(tasks, issues[j].number);
    if first_task_for(tasks, issues[j].number) is Some {
        let i = first_task_for(tasks, issues[j].number)->0;
        assert(tasks[i].issue == project.tasks@[i].assigned_issue);
    }
    lemma_one_mention(project.id, project.owner.id, tasks, issues, j);
}

/// The first task that tracks `n` is the one at `t` when `t` tracks it and no
/// earlier task does.
proof fn lemma_first_task_is(tasks: Seq<TaskRecord>, n: u64, t: int)
    requires
        0 <= t < tasks.len(),
        tasks[t].issue == Some(n),
        forall|s: int| 0 <= s < t ==> tasks[s].issue != Some(n),
    ensures
        first_task_for(tasks, n) == Some(t),
{
    lemma_first_task_for(tasks, n);
}

proof fn lemma_plan_members(pid: u64, user: u64, tasks: Seq<TaskRecord>, issues: Seq<Issue>)
    ensures
        ({
            let p = plan(pid, user, tasks, issues);
            &&& forall|j: int|
                0 <= j < issues.len() && #[trigger] decide(pid, user, tasks, issues[j]) is Some
                    ==> exists|k: int|
                    0 <= k < p.len() && p[k] == decide(pid, user, tasks, issues[j])->0
            &&& forall|k: int|
                0 <= k < p.len() ==> exists|j: int|
                    0 <= j < issues.len() && decide(pid, user, tasks, issues[j]) == Some(
                        #[trigger] p[k],
                    )
        }),
    decreases issues.len(),
{
    if issues.len() > 0 {
        let p = plan(pid, user, tasks, issues);
        let q = plan(pid, user, tasks, issues.drop_last());
        let d = issues.drop_last();
        lemma_plan_members(pid, user, tasks, d);
        lemma_plan_step(pid, user, tasks, issues);
        assert forall|j: int|
            0 <= j < issues.len() && #[trigger] decide(pid, user, tasks, issues[j]) is Some implies exists|k: int|
                0 <= k < p.len() && p[k] == decide(pid, user, tasks, issues[j])->0 by {
            if j < issues.len() - 1 {
                assert(d[j] == issues[j]);
                assert(decide(pid, user, tasks, d[j]) is Some);
                let k = choose|k: int| 0 <= k < q.len() && q[k] == decide(pid, user, tasks, d[j])->0;
                assert(p[k] == q[k]);
            } else {
                assert(p[p.len() - 1] == p.last());
            }
        }
        assert forall|k: int| 0 <= k < p.len() implies exists|j: int|
            0 <= j < issues.len() && decide(pid, user, tasks, issues[j]) == Some(
                #[trigger] p[k],
            ) by {
            if k < q.len() {
                assert(p[k] == q[k]);
                let j = choose|j: int| 0 <= j < d.len() && decide(pid, user, tasks, d[j]) == Some(q[k]);
                assert(d[j] == issues[j]);
            } else {
                assert(decide(pid, user, tasks, issues[issues.len() - 1]) == Some(p[k]));
            }
        }
    }
}

/// What applying changes does to the tasks already there and what it adds.
proof fn lemma_apply_all(tasks: Seq<TaskRecord>, cs: Seq<Change>, fresh_ids: Seq<u64>)
    ensures
        ({
            let after = apply_all(tasks, cs, fresh_ids);
            &&& after.len() >= tasks.len()
            &&& forall|i: int|
                0 <= i < tasks.len() ==> (#[trigger] after[i]).id == tasks[i].id && after[i].issue
                    == tasks[i].issue && (tasks[i].status == TaskStatus::Done ==> after[i].status
                    == TaskStatus::Done)
            &&& forall|k: int, i: int|
                0 <= k < cs.len() && 0 <= i < tasks.len() && #[trigger] cs[k] is Complete
                    && after[i].id == cs[k]->task_id ==> #[trigger] after[i].status
                    == TaskStatus::Done
            &&& forall|k: int|
                0 <= k < cs.len() && #[trigger] cs[k] is Create ==> exists|i: int|
                    0 <= i < after.len() && after[i].issue == Some(cs[k]->Create_issue)
            &&& forall|i: int|
                tasks.len() <= i < after.len() ==> exists|k: int|
                    0 <= k < cs.len() && cs[k] is Create && #[trigger] after[i].issue == Some(
                        cs[k]->Create_issue,
                    )
        }),
    decreases cs.len(),
{
    if cs.len() > 0 {
        let d = cs.drop_last();
        lemma_apply_all(tasks, d, fresh_ids);
        let mid = apply_all(tasks, d, fresh_ids);
        let after = apply_all(tasks, cs, fresh_ids);
        let last = cs.last();
        assert(forall|k: int| 0 <= k < d.len() ==> d[k] == cs[k]);
        match last {
            Change::Create { issue, .. } => {
                assert(after == mid.push(
                    TaskRecord { id: fresh_ids[cs.len() - 1], status: TaskStatus::Todo, issue: Some(issue) },
                ));
                assert forall|i: int| 0 <= i < mid.len() implies after[i] == mid[i] by {}
                assert forall|k: int|
                    0 <= k < cs.len() && #[trigger] cs[k] is Create implies exists|i: int|
                        0 <= i < after.len() && after[i].issue == Some(cs[k]->Create_issue) by {
                    if k < d.len() {
                        assert(d[k] is Create);
                        let i = choose|i: int| 0 <= i < mid.len() && mid[i].issue == Some(d[k]->Create_issue);
                        assert(after[i] == mid[i]);
                    } else {
                        assert(after[mid.len() as int].issue == Some(issue));
                    }
                }
                assert forall|i: int| tasks.len() <= i < after.len() implies exists|k: int|
                    0 <= k < cs.len() && cs[k] is Create && #[trigger] after[i].issue == Some(
                        cs[k]->Create_issue,
                    ) by {
                    if i < mid.len() {
                        assert(after[i] == mid[i]);
                        let k = choose|k: int| 0 <= k < d.len() && d[k] is Create && mid[i].issue == Some(d[k]->Create_issue);
                        assert(cs[k] == d[k]);
                    } else {
                        assert(cs[cs.len() - 1] == last);
                    }
                }
            },
            Change::Complete { task_id, .. } => {
                assert(after.len() == mid.len());
                assert forall|i: int| 0 <= i < mid.len() implies #[trigger] after[i].id == mid[i].id
                    && after[i].issue == mid[i].issue && (mid[i].status == TaskStatus::Done
                    ==> after[i].status == TaskStatus::Done) && (mid[i].id == task_id
                    ==> after[i].status == TaskStatus::Done) by {}
                assert forall|k: int|
                    0 <= k < cs.len() && #[trigger] cs[k] is Create implies exists|i: int|
                        0 <= i < after.len() && after[i].issue == Some(cs[k]->Create_issue) by {
                    assert(k < d.len());
                    assert(d[k] is Create);
                    let i = choose|i: int| 0 <= i < mid.len() && mid[i].issue == Some(d[k]->Create_issue);
                    assert(after[i].issue == mid[i].issue);
                }
                assert forall|i: int| tasks.len() <= i < after.len() implies exists|k: int|
                    0 <= k < cs.len() && cs[k] is Create && #[trigger] after[i].issue == Some(
                        cs[k]->Create_issue,
                    ) by {
                    assert(after[i].issue == mid[i].issue);
                    let k = choose|k: int| 0 <= k < d.len() && d[k] is Create && mid[i].issue == Some(d[k]->Create_issue);
                    assert(cs[k] == d[k]);
                }
                assert forall|k: int, i: int|
                    0 <= k < cs.len() && 0 <= i < tasks.len() && #[trigger] cs[k] is Complete
                        && after[i].id == cs[k]->task_id implies #[trigger] after[i].status
                        == TaskStatus::Done by {
                    assert(after[i].id == mid[i].id);
                    if k < d.len() {
                        assert(d[k] is Complete);
                    }
                }
            },
        }
    }
}

/// Where every issue's decision is none, there are no changes.
proof fn lemma_plan_empty(pid: u64, user: u64, tasks: Seq<TaskRecord>, issues: Seq<Issue>)
    requires
        forall|j: int| 0 <= j < issues.len() ==> decide(pid, user, tasks, #[trigger] issues[j]) is None,
    ensures
        plan(pid, user, tasks, issues) == Seq::<Change>::empty(),
    decreases issues.len(),
{
    if issues.len() > 0 {
        assert(forall|j: int| 0 <= j < issues.drop_last().len() ==> issues.drop_last()[j] == issues[j]);
        lemma_plan_empty(pid, user, tasks, issues.drop_last());
        lemma_plan_step(pid, user, tasks, issues);
        assert(issues.last() == issues[issues.len() - 1]);
    }
}

proof fn fact_kept(tasks: Seq<TaskRecord>, cs: Seq<Change>, fresh_ids: Seq<u64>, i: int)
    requires
        0 <= i < tasks.len(),
    ensures
        ({
            let after = apply_all(tasks, cs, fresh_ids);
            &&& i < after.len()
            &&& after[i].id == tasks[i].id
            &&& after[i].issue == tasks[i].issue
            &&& tasks[i].status == TaskStatus::Done ==> after[i].status == TaskStatus::Done
        }),
{
    lemma_apply_all(tasks, cs, fresh_ids);
    let after = apply_all(tasks, cs, fresh_ids);
    assert(after[i].id == tasks[i].id);
}

proof fn fact_completed(tasks: Seq<TaskRecord>, cs: Seq<Change>, fresh_ids: Seq<u64>, k: int, i: int)
    requires
        0 <= k < cs.len(),
        0 <= i < tasks.len(),
        cs[k] is Complete,
        tasks[i].id == cs[k]->task_id,
    ensures
        apply_all(tasks, cs, fresh_ids)[i].status == TaskStatus::Done,
{
    lemma_apply_all(tasks, cs, fresh_ids);
    let after = apply_all(tasks, cs, fresh_ids);
    assert(after[i].id == tasks[i].id);
    assert(cs[k] is Complete);
}

proof fn fact_created(tasks: Seq<TaskRecord>, cs: Seq<Change>, fresh_ids: Seq<u64>, k: int)
    requires
        0 <= k < cs.len(),
        cs[k] is Create,
    ensures
        exists|i: int|
            0 <= i < apply_all(tasks, cs, fresh_ids).len() && apply_all(tasks, cs, fresh_ids)[i].issue
                == Some(cs[k]->Create_issue),
{
    lemma_apply_all(tasks, cs, fresh_ids);
    assert(cs[k] is Create);
}

proof fn fact_appended(tasks: Seq<TaskRecord>, cs: Seq<Change>, fresh_ids: Seq<u64>, i: int)
    requires
        tasks.len() <= i < apply_all(tasks, cs, fresh_ids).len(),
    ensures
        exists|k: int|
            0 <= k < cs.len() && cs[k] is Create && apply_all(tasks, cs, fresh_ids)[i].issue == Some(
                cs[k]->Create_issue,
            ),
{
    lemma_apply_all(tasks, cs, fresh_ids);
    let after = apply_all(tasks, cs, fresh_ids);
    assert(after[i].issue == after[i].issue);
}

proof fn fact_in_plan(pid: u64, user: u64, tasks: Seq<TaskRecord>, issues: Seq<Issue>, j: int)
    requires
        0 <= j < issues.len(),
        decide(pid, user, tasks, issues[j]) is Some,
    ensures
        exists|k: int|
            0 <= k < plan(pid, user, tasks, issues).len() && plan(pid, user, tasks, issues)[k]
                == decide(pid, user, tasks, issues[j])->0,
{
    lemma_plan_members(pid, user, tasks, issues);
}

proof fn fact_origin(pid: u64, user: u64, tasks: Seq<TaskRecord>, issues: Seq<Issue>, k: int)
    requires
        0 <= k < plan(pid, user, tasks, issues).len(),
    ensures
        exists|j: int|
            0 <= j < issues.len() && decide(pid, user, tasks, issues[j]) == Some(
                plan(pid, user, tasks, issues)[k],
            ),
{
    lemma_plan_members(pid, user, tasks, issues);
    assert(plan(pid, user, tasks, issues)[k] == plan(pid, user, tasks, issues)[k]);
}

proof fn lemma_open_issue_settled(
    pid: u64,
    user: u64,
    tasks: Seq<TaskRecord>,
    issues: Seq<Issue>,
    fresh_ids: Seq<u64>,
    j: int,
)
    requires
        0 <= j < issues.len(),
        issues[j].state == IssueState::Open,
    ensures
        decide(pid, user, apply_all(tasks, plan(pid, user, tasks, issues), fresh_ids), issues[j])
            is None,
{
    let p = plan(pid, user, tasks, issues);
    let after = apply_all(tasks, p, fresh_ids);
    let n = issues[j].number;
    lemma_first_task_for(tasks, n);
    lemma_first_task_for(after, n);
    match first_task_for(tasks, n) {
        Some(i) => {
            fact_kept(tasks, p, fresh_ids, i);
        },
        None => {
            fact_in_plan(pid, user, tasks, issues, j);
            let k = choose|k: int| 0 <= k < p.len() && p[k] == decide(pid, user, tasks, issues[j])->0;
            fact_created(tasks, p, fresh_ids, k);
        },
    }
}

proof fn lemma_closed_issue_settled(
    pid: u64,
    user: u64,
    tasks: Seq<TaskRecord>,
    issues: Seq<Issue>,
    fresh_ids: Seq<u64>,
    j: int,
)
    requires
        distinct_numbers(issues),
        0 <= j < issues.len(),
        issues[j].state == IssueState::Closed,
    ensures
        decide(pid, user, apply_all(tasks, plan(pid, user, tasks, issues), fresh_ids), issues[j])
            is None,
{
    let p = plan(pid, user, tasks, issues);
    let after = apply_all(tasks, p, fresh_ids);
    let n = issues[j].number;
    lemma_first_task_for(tasks, n);
    lemma_first_task_for(after, n);
    match first_task_for(tasks, n) {
        Some(i) => {
            fact_kept(tasks, p, fresh_ids, i);
            assert forall|s: int| 0 <= s < i implies after[s].issue != Some(n) by {
                fact_kept(tasks, p, fresh_ids, s);
            }
            lemma_first_task_is(after, n, i);
            if tasks[i].status != TaskStatus::Done {
                fact_in_plan(pid, user, tasks, issues, j);
                let k = choose|k: int| 0 <= k < p.len() && p[k] == decide(pid, user, tasks, issues[j])->0;
                fact_completed(tasks, p, fresh_ids, k, i);
            }
        },
        None => {
            if first_task_for(after, n) is Some {
                let i = first_task_for(after, n)->0;
                if i < tasks.len() {
                    fact_kept(tasks, p, fresh_ids, i);
                } else {
                    fact_appended(tasks, p, fresh_ids, i);
                    let k = choose|k: int|
                        0 <= k < p.len() && p[k] is Create && after[i].issue == Some(p[k]->Create_issue);
                    fact_origin(pid, user, tasks, issues, k);
                    let j2 = choose|j2: int|
                        0 <= j2 < issues.len() && decide(pid, user, tasks, issues[j2]) == Some(p[k]);
                    assert(issues[j2].state == IssueState::Open);
                    assert(issues[j2].number == n);
                    assert(j2 != j);
                }
            }
        },
    }
}

/// Reconciliation reaches a fixed point in one pass: once the changes of a
/// pass are applied, whatever ids the store gives the new tasks, a pass over
/// the same issues asks for no change.
pub proof fn second_pass_changes_nothing(
    pid: u64,
    user: u64,
    tasks: Seq<TaskRecord>,
    issues: Seq<Issue>,
    fresh_ids: Seq<u64>,
)
    requires
        distinct_numbers(issues),
    ensures
        plan(pid, user, apply_all(tasks, plan(pid, user, tasks, issues), fresh_ids), issues)
            == Seq::<Change>::empty(),
{
    let after = apply_all(tasks, plan(pid, user, tasks, issues), fresh_ids);
    assert forall|j: int| 0 <= j < issues.len() implies decide(pid, user, after, #[trigger] issues[j])
        is None by {
        match issues[j].state {
            IssueState::Open => lemma_open_issue_settled(pid, user, tasks, issues, fresh_ids, j),
            IssueState::Closed => lemma_closed_issue_settled(pid, user, tasks, issues, fresh_ids, j),
            IssueState::Unknown => {},
        }
    }
    lemma_plan_empty(pid, user, after, issues);
}

} // verus!
