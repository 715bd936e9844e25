use vstd::prelude::*;

use crate::models::{valid_index, UiMessage};
use crate::services::workflow::{
    sort_workflows, workflow_error_text, workflows_sorted, GitHubWorkflow, RepoWorkflows,
    WorkflowServiceMessage,
};
use crate::text::{concat, owned};

verus! {

/// State of the workflow list: the GitHub Actions workflows of every
/// repository linked to a project.
#[derive(Debug, Clone)]
pub struct WorkflowModel {
    pub loading: bool,
    pub authenticated: bool,
    pub error_message: UiMessage,
    pub repo_workflows: Vec<RepoWorkflows>,
    /// Whether the project store is attached.
    pub has_store: bool,
}

/// The model after attaching the project store: the first time, the store
/// is taken if the services offer one and the authentication flag is read.
pub open spec fn workflow_initialized(old: WorkflowModel, store_available: bool, github_available: bool) -> WorkflowModel {
    if old.has_store {
        old
    } else {
        WorkflowModel { has_store: store_available, authenticated: github_available, ..old }
    }
}

/// `new` holds the repositories of `data`, each with its workflows listed
/// by name, then by path.
pub open spec fn workflows_received(new: Seq<RepoWorkflows>, data: Seq<RepoWorkflows>) -> bool {
    &&& new.len() == data.len()
    &&& forall|i: int| 0 <= i < new.len() ==> {
        &&& (#[trigger] new[i]).repo_id == data[i].repo_id
        &&& workflows_sorted(new[i].workflows@)
        &&& new[i].workflows@.to_multiset() == data[i].workflows@.to_multiset()
    }
}

/// Each repository with its workflows listed by name, then by path.
fn sort_each(data: Vec<RepoWorkflows>) -> (r: Vec<RepoWorkflows>)
    ensures
        workflows_received(r@, data@),
{
    let mut rest = data;
    let mut out: Vec<RepoWorkflows> = Vec::new();
    let ghost all = rest@;
    while rest.len() > 0
        invariant
            out@.len() + rest@.len() == all.len(),
            rest@ == all.subrange(out@.len() as int, all.len() as int),
            workflows_received(out@, all.subrange(0, out@.len() as int)),
        decreases rest.len(),
    {
        let rw = rest.remove(0);
        let ghost k = out@.len();
        assert(rw == all[k as int]);
        let sorted = sort_workflows(rw.workflows);
        out.push(RepoWorkflows { repo_id: rw.repo_id, workflows: sorted });
        assert(rest@ =~= all.subrange(out@.len() as int, all.len() as int));
        assert forall|i: int| 0 <= i < out@.len() implies {
            &&& (#[trigger] out@[i]).repo_id == all.subrange(0, out@.len() as int)[i].repo_id
            &&& workflows_sorted(out@[i].workflows@)
            &&& out@[i].workflows@.to_multiset() == all.subrange(0, out@.len() as int)[i].workflows@.to_multiset()
        } by {
            if i < k {
                assert(all.subrange(0, out@.len() as int)[i] == all.subrange(0, k as int)[i]);
            }
        }
    }
    assert(all.subrange(0, out@.len() as int) =~= all);
    out
}

impl WorkflowModel {
    /// A model with no store attached and no workflows.
    pub fn new() -> (r: Self)
        ensures
            !r.loading && !r.authenticated && !r.has_store,
            r.error_message == UiMessage::Empty,
            r.repo_workflows@.len() == 0,
    {
        WorkflowModel {
            loading: false,
            authenticated: false,
            error_message: UiMessage::Empty,
            repo_workflows: Vec::new(),
            has_store: false,
        }
    }

    /// Attach the project store on first use; `store_available` and
    /// `github_available` say what the services offer.
    pub fn ensure_initialized(&mut self, store_available: bool, github_available: bool)
        ensures
            *final(self) == workflow_initialized(*old(self), store_available, github_available),
    {
        if self.has_store {
            return;
        }
        self.has_store = store_available;
        self.authenticated = github_available;
    }

    /// Start fetching the workflows of the linked repositories.
    /// `linked_repo_ids` is what the project store lists (its error text on
    /// failure); it is only consulted when a store is attached.  Returns the
    /// repository ids to fetch, or `None` with the reason in the error
    /// message.
    pub fn fetch_workflows(
        &mut self,
        store_available: bool,
        github_available: bool,
        linked_repo_ids: Result<Vec<String>, String>,
        channel_ready: bool,
    ) -> (r: Option<Vec<String>>)
        ensures
            ({
                let m = workflow_initialized(*old(self), store_available, github_available);
                if !m.has_store {
                    &&& r is None
                    &&& final(self).error_message matches UiMessage::Text(t) && t@ == "Project store not initialized"@
                    &&& *final(self) == (WorkflowModel { error_message: final(self).error_message, ..m })
                } else {
                    match linked_repo_ids {
                        Err(e) => {
                            &&& r is None
                            &&& final(self).error_message matches UiMessage::Text(t) && t@ == "Failed to list linked repos: "@ + e@
                            &&& *final(self) == (WorkflowModel { error_message: final(self).error_message, ..m })
                        },
                        Ok(ids) => if !github_available {
                            &&& r is None
                            &&& final(self).error_message matches UiMessage::Text(t) && t@ == "GitHub not authenticated"@
                            &&& *final(self) == (WorkflowModel { error_message: final(self).error_message, ..m })
                        } else if !channel_ready {
                            &&& r is None
                            &&& final(self).error_message matches UiMessage::Text(t) && t@ == "Workflow service channel not ready"@
                            &&& *final(self) == (WorkflowModel { error_message: final(self).error_message, ..m })
                        } else {
                            &&& r == Some(ids)
                            &&& *final(self) == (WorkflowModel { loading: true, error_message: UiMessage::Empty, ..m })
                        },
                    }
                }
            }),
    {
        self.ensure_initialized(store_available, github_available);
        if !self.has_store {
            self.error_message = UiMessage::Text(owned("Project store not initialized"));
            return None;
        }
        let ids = match linked_repo_ids {
            Ok(ids) => ids,
            Err(e) => {
                self.error_message = UiMessage::Text(concat("Failed to list linked repos: ", e.as_str()));
                return None;
            },
        };
        if !github_available {
            self.error_message = UiMessage::Text(owned("GitHub not authenticated"));
            return None;
        }
        if !channel_ready {
            self.error_message = UiMessage::Text(owned("Workflow service channel not ready"));
            return None;
        }
        self.loading = true;
        self.error_message = UiMessage::Empty;
        Some(ids)
    }

    /// Apply the completion of a fetch.  Returns whether the workflow list
    /// changed (the `workflows_changed` signal).
    pub fn poll_channel(&mut self, msg: WorkflowServiceMessage) -> (changed: bool)
        ensures
            match msg {
                WorkflowServiceMessage::FetchWorkflowsDone(Ok(data)) => {
                    &&& changed
                    &&& workflows_received(final(self).repo_workflows@, data@)
                    &&& *final(self) == (WorkflowModel { loading: false, repo_workflows: final(self).repo_workflows, ..*old(self) })
                },
                WorkflowServiceMessage::FetchWorkflowsDone(Err(e)) => {
                    &&& !changed
                    &&& final(self).error_message matches UiMessage::Text(t) && t@ == workflow_error_text(e)
                    &&& *final(self) == (WorkflowModel { loading: false, error_message: final(self).error_message, ..*old(self) })
                },
            },
    {
        self.loading = false;
        match msg {
            WorkflowServiceMessage::FetchWorkflowsDone(Ok(data)) => {
                self.repo_workflows = sort_each(data);
                true
            },
            WorkflowServiceMessage::FetchWorkflowsDone(Err(e)) => {
                self.error_message = UiMessage::Text(e.message());
                false
            },
        }
    }

    /// Refresh the authentication flag: `github_available` says whether a
    /// GitHub client is available now.
    pub fn check_auth(&mut self, store_available: bool, github_available: bool)
        ensures
            *final(self) == (WorkflowModel {
                authenticated: github_available,
                ..workflow_initialized(*old(self), store_available, github_available)
            }),
    {
        self.ensure_initialized(store_available, github_available);
        self.authenticated = github_available;
    }

    /// Number of repositories listed.
    pub fn row_count(&self) -> (r: i32)
        ensures
            r == self.repo_workflows@.len() as i32,
    {
        self.repo_workflows.len() as i32
    }

    /// The repository at `index`, if the index is valid.
    pub fn get_repo_workflows(&self, index: i32) -> (r: Option<&RepoWorkflows>)
        ensures
            valid_index(index, self.repo_workflows@.len()) ==> r == Some(&self.repo_workflows@[index as int]),
            !valid_index(index, self.repo_workflows@.len()) ==> r is None,
    {
        if index < 0 || index as usize >= self.repo_workflows.len() {
            None
        } else {
            Some(&self.repo_workflows[index as usize])
        }
    }

    /// The workflow `workflow_index` of repository `repo_index`, if both
    /// indices are valid.
    pub fn get_workflow(&self, repo_index: i32, workflow_index: i32) -> (r: Option<&GitHubWorkflow>)
        ensures
            ({
                let rs = self.repo_workflows@;
                if valid_index(repo_index, rs.len()) && valid_index(workflow_index, rs[repo_index as int].workflows@.len()) {
                    r == Some(&rs[repo_index as int].workflows@[workflow_index as int])
                } else {
                    r is None
                }
            }),
    {
        match self.get_repo_workflows(repo_index) {
            Some(rw) => {
                if workflow_index < 0 || workflow_index as usize >= rw.workflows.len() {
                    None
                } else {
                    Some(&rw.workflows[workflow_index as usize])
                }
            },
            None => None,
        }
    }

    /// Id (`owner/repo`) of the repository at `index`; empty for an invalid index.
    pub fn get_repo_id(&self, index: i32) -> (r: String)
        ensures
            valid_index(index, self.repo_workflows@.len()) ==> r@ == self.repo_workflows@[index as int].repo_id@,
            !valid_index(index, self.repo_workflows@.len()) ==> r@.len() == 0,
    {
        match self.get_repo_workflows(index) {
            Some(rw) => owned(rw.repo_id.as_str()),
            None => String::new(),
        }
    }

    /// Number of workflows of the repository at `repo_index`; 0 for an
    /// invalid index.
    pub fn get_workflow_count(&self, repo_index: i32) -> (r: i32)
        ensures
            valid_index(repo_index, self.repo_workflows@.len())
                ==> r == self.repo_workflows@[repo_index as int].workflows@.len() as i32,
            !valid_index(repo_index, self.repo_workflows@.len()) ==> r == 0,
    {
        match self.get_repo_workflows(repo_index) {
            Some(rw) => rw.workflows.len() as i32,
            None => 0,
        }
    }

    /// Name of a workflow; empty for invalid indices.
    pub fn get_workflow_name(&self, repo_index: i32, workflow_index: i32) -> (r: String)
        ensures
            ({
                let rs = self.repo_workflows@;
                if valid_index(repo_index, rs.len()) && valid_index(workflow_index, rs[repo_index as int].workflows@.len()) {
                    r@ == rs[repo_index as int].workflows@[workflow_index as int].name@
                } else {
                    r@.len() == 0
                }
            }),
    {
        match self.get_workflow(repo_index, workflow_index) {
            Some(w) => owned(w.name.as_str()),
            None => String::new(),
        }
    }

    /// Path of a workflow file; empty for invalid indices.
    pub fn get_workflow_path(&self, repo_index: i32, workflow_index: i32) -> (r: String)
        ensures
            ({
                let rs = self.repo_workflows@;
                if valid_index(repo_index, rs.len()) && valid_index(workflow_index, rs[repo_index as int].workflows@.len()) {
                    r@ == rs[repo_index as int].workflows@[workflow_index as int].path@
                } else {
                    r@.len() == 0
                }
            }),
    {
        match self.get_workflow(repo_index, workflow_index) {
            Some(w) => owned(w.path.as_str()),
            None => String::new(),
        }
    }

    /// State of a workflow (such as `active`); empty for invalid indices.
    pub fn get_workflow_state(&self, repo_index: i32, workflow_index: i32) -> (r: String)
        ensures
            ({
                let rs = self.repo_workflows@;
                if valid_index(repo_index, rs.len()) && valid_index(workflow_index, rs[repo_index as int].workflows@.len()) {
                    r@ == rs[repo_index as int].workflows@[workflow_index as int].state@
                } else {
                    r@.len() == 0
                }
            }),
    {
        match self.get_workflow(repo_index, workflow_index) {
            Some(w) => owned(w.state.as_str()),
            None => String::new(),
        }
    }

    /// Web page of a workflow; empty for invalid indices or when it has none.
    pub fn get_workflow_html_url(&self, repo_index: i32, workflow_index: i32) -> (r: String)
        ensures
            ({
                let rs = self.repo_workflows@;
                if valid_index(repo_index, rs.len()) && valid_index(workflow_index, rs[repo_index as int].workflows@.len()) {
                    match rs[repo_index as int].workflows@[workflow_index as int].html_url {
                        Some(u) => r@ == u@,
                        None => r@.len() == 0,
                    }
                } else {
                    r@.len() == 0
                }
            }),
    {
        match self.get_workflow(repo_index, workflow_index) {
            Some(w) => match &w.html_url {
                Some(u) => owned(u.as_str()),
                None => String::new(),
            },
            None => String::new(),
        }
    }
}

} // verus!
