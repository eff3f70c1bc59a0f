//! One reconciliation pass over all projects, as a state machine.
//!
//! The caller asks for the next command and performs it: it fetches the
//! issues of a repository and hands them back, or logs a refused binding.
//! Projects without a binding are passed over without a command. A refused
//! binding or a failed fetch concerns its project alone: the pass goes on
//! with the next one.

use vstd::prelude::*;
use crate::binding::{BindingError, RepositoryRef, binding_error, parse_repository, splits_into};
use crate::model::SelectProject;
use crate::reconcile::{Issue, TaskMutation, project_plan, realises_all, reconcile_issues};

verus! {

/// Whether a project is bound to a repository.
pub open spec fn is_bound(p: SelectProject) -> bool {
    p.repository_id is Some
}

/// The binding of a bound project.
pub open spec fn binding_of(p: SelectProject) -> Seq<char> {
    p.repository_id->0@
}

/// What the caller is to do next.
#[derive(Debug)]
pub enum PassCommand {
    /// Fetch the issues of `repository` and hand them to `issues_fetched`;
    /// where the fetch fails, log it and ask for the next command.
    FetchIssues { project: usize, project_id: u64, repository: RepositoryRef },
    /// Log that the binding of the project is refused.
    ReportBinding { project: usize, project_id: u64, error: BindingError },
    /// The pass is over.
    Finished,
}

/// A pass in progress.
pub struct ReconcilePass {
    projects: Vec<SelectProject>,
    next: usize,
    awaiting: Option<usize>,
}

impl ReconcilePass {
    /// The projects of the pass.
    pub closed spec fn projects(&self) -> Seq<SelectProject> {
        self.projects@
    }

    /// The first project not looked at yet.
    pub closed spec fn next_index(&self) -> int {
        self.next as int
    }

    /// The project whose issues were asked for and not handed back yet.
    pub closed spec fn awaiting(&self) -> Option<int> {
        match self.awaiting {
            Some(i) => Some(i as int),
            None => None,
        }
    }

    pub open spec fn wf(&self) -> bool {
        &&& 0 <= self.next_index() <= self.projects().len()
        &&& self.awaiting() matches Some(i) ==> {
            &&& 0 <= i < self.next_index()
            &&& is_bound(self.projects()[i])
            &&& binding_error(binding_of(self.projects()[i])) is None
        }
    }

    /// Starts a pass over `projects`, in their order.
    pub fn new(projects: Vec<SelectProject>) -> (r: Self)
        ensures
            r.wf(),
            r.projects() == projects@,
            r.next_index() == 0,
            r.awaiting() is None,
    {
        ReconcilePass { projects, next: 0, awaiting: None }
    }

    /// The next command. Projects without a binding are passed over; the
    /// first bound project from here on gets a fetch of its issues, or the
    /// report of its refused binding. An unanswered fetch is dropped.
    pub fn next_command(&mut self) -> (r: PassCommand)
        requires
            old(self).wf(),
        ensures
            final(self).wf(),
            final(self).projects() == old(self).projects(),
            final(self).next_index() >= old(self).next_index(),
            forall|t: int|
                old(self).next_index() <= t < final(self).next_index() - 1 ==> !is_bound(
                    #[trigger] old(self).projects()[t],
                ),
            match r {
                PassCommand::Finished => {
                    &&& final(self).next_index() == old(self).projects().len()
                    &&& final(self).awaiting() is None
                    &&& old(self).next_index() < final(self).next_index() ==> !is_bound(
                        old(self).projects().last(),
                    )
                },
                PassCommand::ReportBinding { project, project_id, error } => {
                    let p = old(self).projects()[project as int];
                    &&& final(self).next_index() == project + 1
                    &&& old(self).next_index() <= project
                    &&& project_id == p.id
                    &&& is_bound(p)
                    &&& binding_error(binding_of(p)) == Some(error)
                    &&& final(self).awaiting() is None
                },
                PassCommand::FetchIssues { project, project_id, repository } => {
                    let p = old(self).projects()[project as int];
                    &&& final(self).next_index() == project + 1
                    &&& old(self).next_index() <= project
                    &&& project_id == p.id
                    &&& is_bound(p)
                    &&& splits_into(binding_of(p), repository.owner@, repository.repo@)
                    &&& final(self).awaiting() == Some(project as int)
                },
            },
    {
        self.awaiting = None;
        let ghost start = self.next;
        while self.next < self.projects.len()
            invariant
                self.projects@ == old(self).projects@,
                start == old(self).next,
                start <= self.next <= self.projects@.len(),
                self.awaiting is None,
                forall|t: int| start <= t < self.next ==> !is_bound(#[trigger] self.projects@[t]),
            decreases self.projects@.len() - self.next,
        {
            let i = self.next;
            match &self.projects[i].repository_id {
                None => {
                    self.next = i + 1;
                },
                Some(binding) => {
                    self.next = i + 1;
                    let id = self.projects[i].id;
                    match parse_repository(binding.as_str()) {
                        Err(error) => {
                            return PassCommand::ReportBinding { project: i, project_id: id, error };
                        },
                        Ok(repository) => {
                            self.awaiting = Some(i);
                            return PassCommand::FetchIssues { project: i, project_id: id, repository };
                        },
                    }
                },
            }
        }
        PassCommand::Finished
    }

    /// Hands back the issues of the project last asked for, and returns the
    /// mutations that they call for, to be applied in order. A mutation that
    /// fails is logged and the rest are applied all the same.
    pub fn issues_fetched(&mut self, issues: &Vec<Issue>) -> (r: Vec<TaskMutation>)
        requires
            old(self).wf(),
            old(self).awaiting() is Some,
        ensures
            final(self).wf(),
            final(self).projects() == old(self).projects(),
            final(self).next_index() == old(self).next_index(),
            final(self).awaiting() is None,
            is_bound(old(self).projects()[old(self).awaiting()->0]),
            realises_all(r@, project_plan(old(self).projects()[old(self).awaiting()->0], issues@)),
    {
        let i = match self.awaiting {
            Some(i) => i,
            None => 0,
        };
        self.awaiting = None;
        reconcile_issues(&self.projects[i], issues)
    }
}

} // verus!
