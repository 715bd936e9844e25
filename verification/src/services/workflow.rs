use vstd::prelude::*;
use vstd::multiset::Multiset;

use crate::services::app_error::AppError;
use crate::order::{
    compare_text, lemma_text_le_total, lemma_text_le_trans,
    lemma_text_lt_le_trans, lemma_text_order_flip, lemma_text_order_zero, text_le, text_order,
};
use crate::text::{concat, owned};
use vstd::string::StrSliceExecFns;

verus! {

/// Error type for workflow operations.
#[derive(Debug, Clone, PartialEq, Eq)]
pub enum WorkflowError {
    Network(String),
    NotInitialized,
}

/// The text that a WorkflowError displays.
pub open spec fn workflow_error_text(e: WorkflowError) -> Seq<char> {
    match e {
        WorkflowError::Network(s) => "Workflow error: "@ + s@,
        WorkflowError::NotInitialized => "Workflow service not initialized"@,
    }
}

/// Whether `a` is the application error that `e` is reported as.
pub open spec fn workflow_reported_as(e: WorkflowError, a: AppError) -> bool {
    match e {
        WorkflowError::Network(s) => a == AppError::GitHub(s),
        WorkflowError::NotInitialized => a matches AppError::Service(m) && m@ == "Workflow service not initialized"@,
    }
}

impl WorkflowError {
    /// The text this error displays.
    pub fn message(&self) -> (r: String)
        ensures
            r@ == workflow_error_text(*self),
    {
        match self {
            WorkflowError::Network(s) => concat("Workflow error: ", s.as_str()),
            WorkflowError::NotInitialized => owned("Workflow service not initialized"),
        }
    }

    /// The application error this error is reported as.
    pub fn to_app_error(self) -> (r: AppError)
        ensures
            workflow_reported_as(self, r),
    {
        match self {
            WorkflowError::Network(s) => AppError::GitHub(s),
            WorkflowError::NotInitialized => AppError::Service(owned("Workflow service not initialized")),
        }
    }
}


/// A GitHub Actions workflow of a repository.
#[derive(Debug, Clone, PartialEq, Eq)]
pub struct GitHubWorkflow {
    pub id: u64,
    pub name: String,
    pub path: String,
    pub state: String,
    pub html_url: Option<String>,
}

/// The workflows of one repository, named `owner/repo`.
#[derive(Debug, Clone, PartialEq, Eq)]
pub struct RepoWorkflows {
    pub repo_id: String,
    pub workflows: Vec<GitHubWorkflow>,
}

/// Messages sent from asynchronous workflow operations back to the UI thread.
#[derive(Debug)]
pub enum WorkflowServiceMessage {
    /// Result of fetching the workflows of every linked repository.
    FetchWorkflowsDone(Result<Vec<RepoWorkflows>, WorkflowError>),
}

/// Workflow `a` is listed no later than `b`: by name, then by path.
pub open spec fn workflow_before(a: GitHubWorkflow, b: GitHubWorkflow) -> bool {
    text_order(a.name@, b.name@) < 0 || (a.name@ == b.name@ && text_le(a.path@, b.path@))
}

/// The workflows are listed by name, then by path.
pub open spec fn workflows_sorted(s: Seq<GitHubWorkflow>) -> bool {
    forall|i: int, j: int| 0 <= i < j < s.len() ==> workflow_before(#[trigger] s[i], #[trigger] s[j])
}

/// Any two workflows are ordered one way or the other.
pub proof fn lemma_workflow_before_total(a: GitHubWorkflow, b: GitHubWorkflow)
    ensures
        workflow_before(a, b) || workflow_before(b, a),
{
    lemma_text_order_flip(a.name@, b.name@);
    lemma_text_order_zero(a.name@, b.name@);
    lemma_text_le_total(a.path@, b.path@);
}

/// The workflow order is transitive.
pub proof fn lemma_workflow_before_trans(a: GitHubWorkflow, b: GitHubWorkflow, c: GitHubWorkflow)
    requires
        workflow_before(a, b),
        workflow_before(b, c),
    ensures
        workflow_before(a, c),
{
    if text_order(a.name@, b.name@) < 0 {
        if text_order(b.name@, c.name@) < 0 {
            lemma_text_lt_le_trans(a.name@, b.name@, c.name@);
        } else {
            lemma_text_order_zero(b.name@, c.name@);
        }
    } else if text_order(b.name@, c.name@) < 0 {
        lemma_text_order_zero(a.name@, b.name@);
    } else {
        lemma_text_le_trans(a.path@, b.path@, c.path@);
    }
}

/// Whether workflow `a` is listed no later than `b`.
fn workflow_le(a: &GitHubWorkflow, b: &GitHubWorkflow) -> (r: bool)
    ensures
        r == workflow_before(*a, *b),
{
    let c = compare_text(a.name.as_str(), b.name.as_str());
    proof {
        lemma_text_order_zero(a.name@, b.name@);
    }
    if c < 0 {
        true
    } else if c > 0 {
        false
    } else {
        compare_text(a.path.as_str(), b.path.as_str()) <= 0
    }
}

/// The workflows listed by name, then by path.
pub fn sort_workflows(workflows: Vec<GitHubWorkflow>) -> (r: Vec<GitHubWorkflow>)
    ensures
        workflows_sorted(r@),
        r@.to_multiset() == workflows@.to_multiset(),
{
    broadcast use vstd::seq_lib::group_to_multiset_ensures;
    let mut input = workflows;
    let mut out: Vec<GitHubWorkflow> = Vec::new();
    while input.len() > 0
        invariant
            workflows_sorted(out@),
            out@.to_multiset().add(input@.to_multiset()) == workflows@.to_multiset(),
        decreases input.len(),
    {
        let ghost before_input = input@;
        let x = input.remove(0);
        proof {
            assert(input@ =~= before_input.remove(0));
            vstd::seq_lib::to_multiset_remove(before_input, 0);
            vstd::seq_lib::to_multiset_contains(before_input, x);
            assert(before_input.contains(x)) by {
                assert(before_input[0] == x);
            }
        }
        let mut j = out.len();
        while j > 0 && !workflow_le(&out[j - 1], &x)
            invariant
                j <= out.len(),
                workflows_sorted(out@),
                forall|k: int| j <= k < out.len() ==> !workflow_before(#[trigger] out@[k], x),
            decreases j,
        {
            j = j - 1;
        }
        proof {
            assert forall|k: int| 0 <= k < j implies workflow_before(#[trigger] out@[k], x) by {
                if k < j - 1 {
                    lemma_workflow_before_trans(out@[k], out@[j - 1], x);
                }
            }
            assert forall|k: int| j <= k < out@.len() implies workflow_before(x, #[trigger] out@[k]) by {
                lemma_workflow_before_total(x, out@[k]);
            }
        }
        let ghost old_out = out@;
        out.insert(j, x);
        proof {
            assert forall|a: int, b: int| 0 <= a < b < out@.len() implies workflow_before(#[trigger] out@[a], #[trigger] out@[b]) by {
                if a < j as int && b > j as int {
                    assert(out@[a] == old_out[a]);
                    assert(out@[b] == old_out[b - 1]);
                    lemma_workflow_before_trans(old_out[a], x, old_out[b - 1]);
                } else if a < j as int && b == j as int {
                } else if a == j as int {
                    assert(out@[b] == old_out[b - 1]);
                } else if b < j as int {
                } else {
                    assert(out@[a] == old_out[a - 1]);
                    assert(out@[b] == old_out[b - 1]);
                }
            }
            vstd::seq_lib::to_multiset_insert(old_out, j as int, x);
            assert(out@ == old_out.insert(j as int, x));
            broadcast use vstd::multiset::group_multiset_axioms;
            assert(out@.to_multiset().add(input@.to_multiset()) =~= workflows@.to_multiset());
        }
    }
    proof {
        assert(input@.to_multiset() =~= Multiset::empty()) by {
            broadcast use vstd::multiset::group_multiset_axioms;
        }
        broadcast use vstd::multiset::group_multiset_axioms;
        assert(out@.to_multiset() =~= out@.to_multiset().add(Multiset::empty()));
    }
    out
}


/// `s` holds no slash.
pub open spec fn slash_free(s: Seq<char>) -> bool {
    forall|i: int| 0 <= i < s.len() ==> s[i] != '/'
}

/// Split `owner/repo` at its first slash.  Without a slash there is no
/// owner to ask for, and the repository is listed with no workflows.
pub fn split_repo_id(repo_id: &str) -> (r: Option<(String, String)>)
    ensures
        r is None <==> slash_free(repo_id@),
        r matches Some((owner, repo)) ==> slash_free(owner@) && repo_id@ == owner@ + seq!['/'] + repo@,
{
    let n = repo_id.unicode_len();
    let mut i: usize = 0;
    while i < n
        invariant
            n == repo_id@.len(),
            i <= n,
            slash_free(repo_id@.subrange(0, i as int)),
        decreases n - i,
    {
        if repo_id.get_char(i) == '/' {
            let owner = owned(repo_id.substring_char(0, i));
            let repo = owned(repo_id.substring_char(i + 1, n));
            proof {
                assert(repo_id@ =~= owner@ + seq!['/'] + repo@);
            }
            return Some((owner, repo));
        }
        proof {
            assert forall|k: int| 0 <= k < i + 1 implies #[trigger] repo_id@.subrange(0, i + 1)[k] != '/' by {
                if k < i {
                    assert(repo_id@.subrange(0, i + 1)[k] == repo_id@.subrange(0, i as int)[k]);
                }
            }
        }
        i = i + 1;
    }
    assert(repo_id@.subrange(0, n as int) =~= repo_id@);
    None
}

/// A repository's entry as plain values: its id and its workflows.
pub open spec fn entry_view(w: RepoWorkflows) -> (Seq<char>, Seq<GitHubWorkflow>) {
    (w.repo_id@, w.workflows@)
}

/// The entries as plain values.
pub open spec fn entries_view(s: Seq<RepoWorkflows>) -> Seq<(Seq<char>, Seq<GitHubWorkflow>)> {
    s.map_values(|w: RepoWorkflows| entry_view(w))
}

/// The position of the first id from `k` on that names an owner (holds a
/// slash), or the number of ids when none does.
pub open spec fn next_listed(ids: Seq<String>, k: int) -> int
    decreases ids.len() - k,
{
    if k >= ids.len() {
        ids.len() as int
    } else if slash_free(ids[k]@) {
        next_listed(ids, k + 1)
    } else {
        k
    }
}

/// The entries, with no workflows, of the ids from `from` up to `to`.
pub open spec fn empty_entries(ids: Seq<String>, from: int, to: int) -> Seq<(Seq<char>, Seq<GitHubWorkflow>)> {
    Seq::new((to - from) as nat, |i: int| (ids[from + i]@, Seq::<GitHubWorkflow>::empty()))
}

/// What fetching the workflows of the (sorted) repository ids does next.
#[derive(Debug)]
pub enum WorkflowFetchStep {
    /// Ask GitHub for the workflows of `owner/repo`, the id at `index`;
    /// `results` holds the entries of the ids before it.
    List { index: usize, owner: String, repo: String, results: Vec<RepoWorkflows> },
    /// The fetch is over: this is the message to send.
    Done(WorkflowServiceMessage),
}

/// `r` is the step that `next_workflow_step` makes from the ids, the
/// entries of the first `index` of them, and GitHub's answer `last`.
pub open spec fn workflow_step_made(
    ids: Seq<String>,
    index: int,
    results: Seq<RepoWorkflows>,
    last: Option<Result<Vec<GitHubWorkflow>, String>>,
    r: WorkflowFetchStep,
) -> bool {
    let from = if last matches Some(Ok(_)) { index + 1 } else { index };
    let before = match last {
        Some(Ok(ws)) => entries_view(results).push((ids[index]@, ws@)),
        _ => entries_view(results),
    };
    let j = next_listed(ids, from);
    let all = before + empty_entries(ids, from, j);
    match last {
        Some(Err(e)) => r matches WorkflowFetchStep::Done(WorkflowServiceMessage::FetchWorkflowsDone(Err(err)))
            && err == WorkflowError::Network(e),
        _ => if j < ids.len() {
            r matches WorkflowFetchStep::List { index: i, owner, repo, results: rs }
                && i == j && slash_free(owner@) && ids[j]@ == owner@ + seq!['/'] + repo@
                && entries_view(rs@) == all
        } else {
            r matches WorkflowFetchStep::Done(WorkflowServiceMessage::FetchWorkflowsDone(Ok(rs)))
                && entries_view(rs@) == all
        },
    }
}

/// One step of fetching the workflows of `ids` (sorted, see
/// `sort_repo_ids`): `results` holds the entries of the first `index` ids,
/// and `last` is the answer GitHub gave for the id at `index` when it was
/// asked for it.  A failed answer ends the fetch with that error.  An
/// answer is otherwise added as the id's entry; ids without a slash get an
/// entry with no workflows; the next id with a slash is asked for, and
/// when none is left the fetch ends with every entry.
pub fn next_workflow_step(
    ids: &Vec<String>,
    index: usize,
    results: Vec<RepoWorkflows>,
    last: Option<Result<Vec<GitHubWorkflow>, String>>,
) -> (r: WorkflowFetchStep)
    requires
        results@.len() == index,
        index <= ids@.len(),
        last is Some ==> index < ids@.len() && !slash_free(ids@[index as int]@),
    ensures
        workflow_step_made(ids@, index as int, results@, last, r),
{
    let ghost given = results@;
    let mut entries = results;
    let mut k: usize = index;
    match last {
        Some(Err(e)) => {
            return WorkflowFetchStep::Done(WorkflowServiceMessage::FetchWorkflowsDone(Err(WorkflowError::Network(e))));
        },
        Some(Ok(ws)) => {
            assert(index < ids.len());
            let id = owned(ids[index].as_str());
            let ghost old_results = entries@;
            let ghost ws_view = ws@;
            entries.push(RepoWorkflows { repo_id: id, workflows: ws });
            assert(entries_view(entries@) =~= entries_view(old_results).push((ids@[index as int]@, ws_view)));
            k = index + 1;
        },
        None => {},
    }
    let ghost from = k as int;
    let ghost before = entries_view(entries@);
    proof {
        assert(entries_view(entries@) =~= before + empty_entries(ids@, from, k as int));
    }
    while k < ids.len()
        invariant
            from <= k <= ids@.len(),
            from <= ids@.len(),
            given == results@,
            from == (if last matches Some(Ok(_)) { index + 1 } else { index as int }),
            last matches Some(Err(_)) ==> false,
            before == (match last {
                Some(Ok(ws)) => entries_view(given).push((ids@[index as int]@, ws@)),
                _ => entries_view(given),
            }),
            next_listed(ids@, from) == next_listed(ids@, k as int),
            forall|t: int| from <= t < k ==> slash_free(#[trigger] ids@[t]@),
            entries_view(entries@) == before + empty_entries(ids@, from, k as int),
        decreases ids@.len() - k,
    {
        match split_repo_id(ids[k].as_str()) {
            Some((owner, repo)) => {
                assert(next_listed(ids@, k as int) == k);
                let r = WorkflowFetchStep::List { index: k, owner, repo, results: entries };
                return r;
            },
            None => {
                let id = owned(ids[k].as_str());
                let ghost old_results = entries@;
                entries.push(RepoWorkflows { repo_id: id, workflows: Vec::new() });
                proof {
                    assert(entries_view(entries@) =~= entries_view(old_results).push((ids@[k as int]@, Seq::<GitHubWorkflow>::empty())));
                    assert(empty_entries(ids@, from, k + 1) =~= empty_entries(ids@, from, k as int).push((ids@[k as int]@, Seq::<GitHubWorkflow>::empty())));
                    assert(entries_view(entries@) =~= before + empty_entries(ids@, from, k + 1));
                }
                k = k + 1;
            },
        }
    }
    WorkflowFetchStep::Done(WorkflowServiceMessage::FetchWorkflowsDone(Ok(entries)))
}

/// What a whole workflow fetch gives, from the id at `k` on with the
/// entries `acc` of the ids before it, when GitHub answers `answers[i]` for
/// the id at `i`: ids without a slash get an entry with no workflows, the
/// others the workflows of their answer, and the first failed answer ends
/// the fetch with its error.
pub open spec fn workflow_run(
    ids: Seq<String>,
    answers: Seq<Result<Vec<GitHubWorkflow>, String>>,
    k: int,
    acc: Seq<(Seq<char>, Seq<GitHubWorkflow>)>,
) -> Result<Seq<(Seq<char>, Seq<GitHubWorkflow>)>, WorkflowError>
    decreases ids.len() - k,
{
    if k < 0 || k >= ids.len() {
        Ok(acc)
    } else if slash_free(ids[k]@) {
        workflow_run(ids, answers, k + 1, acc.push((ids[k]@, Seq::<GitHubWorkflow>::empty())))
    } else {
        match answers[k] {
            Err(e) => Err(WorkflowError::Network(e)),
            Ok(ws) => workflow_run(ids, answers, k + 1, acc.push((ids[k]@, ws@))),
        }
    }
}

/// The next id with a slash lies between `from` and the end, and every id
/// before it holds no slash.
proof fn lemma_next_listed(ids: Seq<String>, from: int)
    requires
        0 <= from <= ids.len(),
    ensures
        from <= next_listed(ids, from) <= ids.len(),
        next_listed(ids, from) < ids.len() ==> !slash_free(ids[next_listed(ids, from)]@),
        forall|t: int| from <= t < next_listed(ids, from) ==> slash_free(#[trigger] ids[t]@),
    decreases ids.len() - from,
{
    if from < ids.len() && slash_free(ids[from]@) {
        lemma_next_listed(ids, from + 1);
    }
}

/// A fetch passes over the ids without a slash, giving each an empty
/// entry, up to the next id it asks GitHub for.
proof fn lemma_run_skips(
    ids: Seq<String>,
    answers: Seq<Result<Vec<GitHubWorkflow>, String>>,
    from: int,
    acc: Seq<(Seq<char>, Seq<GitHubWorkflow>)>,
)
    requires
        0 <= from <= ids.len(),
    ensures
        workflow_run(ids, answers, from, acc)
            == workflow_run(ids, answers, next_listed(ids, from), acc + empty_entries(ids, from, next_listed(ids, from))),
    decreases ids.len() - from,
{
    let j = next_listed(ids, from);
    if from < ids.len() && slash_free(ids[from]@) {
        let e = (ids[from]@, Seq::<GitHubWorkflow>::empty());
        lemma_run_skips(ids, answers, from + 1, acc.push(e));
        lemma_next_listed(ids, from + 1);
        assert(acc.push(e) + empty_entries(ids, from + 1, j) =~= acc + empty_entries(ids, from, j));
    } else {
        assert(acc + empty_entries(ids, from, j) =~= acc);
    }
}

/// The message a whole fetch ends with: the entries, or the error.
pub open spec fn run_message_matches(m: WorkflowServiceMessage, run: Result<Seq<(Seq<char>, Seq<GitHubWorkflow>)>, WorkflowError>) -> bool {
    match m {
        WorkflowServiceMessage::FetchWorkflowsDone(Ok(rs)) => run == Ok::<Seq<(Seq<char>, Seq<GitHubWorkflow>)>, WorkflowError>(entries_view(rs@)),
        WorkflowServiceMessage::FetchWorkflowsDone(Err(e)) => run == Err::<Seq<(Seq<char>, Seq<GitHubWorkflow>)>, WorkflowError>(e),
    }
}

/// Run a whole workflow fetch over `ids` (sorted, see `sort_repo_ids`) step
/// by step with `next_workflow_step`, taking GitHub's answer for the id at
/// `i` from `answers[i]` (answers for ids that are not asked for are not
/// looked at).  The message it ends with is `workflow_run` from the first
/// id: every id's entry in order, or the first failure.
pub fn run_workflow_fetch(ids: &Vec<String>, answers: Vec<Result<Vec<GitHubWorkflow>, String>>) -> (r: WorkflowServiceMessage)
    requires
        answers@.len() == ids@.len(),
    ensures
        run_message_matches(r, workflow_run(ids@, answers@, 0, Seq::empty())),
{
    let ghost all = answers@;
    let ghost run = workflow_run(ids@, all, 0, Seq::empty());
    let total = ids.len();
    proof {
        lemma_run_skips(ids@, all, 0, Seq::empty());
        lemma_next_listed(ids@, 0);
        assert(Seq::<(Seq<char>, Seq<GitHubWorkflow>)>::empty() + empty_entries(ids@, 0, next_listed(ids@, 0))
            =~= empty_entries(ids@, 0, next_listed(ids@, 0)));
    }
    let mut step = next_workflow_step(ids, 0, Vec::new(), None);
    proof {
        assert(entries_view(Seq::<RepoWorkflows>::empty()) =~= Seq::empty());
    }
    let mut rest = answers;
    let mut consumed: usize = 0;
    loop
        invariant
            ids@.len() == all.len(),
            total == ids@.len(),
            all == answers@,
            run == workflow_run(ids@, all, 0, Seq::empty()),
            consumed <= all.len(),
            rest@ == all.subrange(consumed as int, all.len() as int),
            match step {
                WorkflowFetchStep::List { index, owner, repo, results } => {
                    &&& consumed <= index < ids@.len()
                    &&& !slash_free(ids@[index as int]@)
                    &&& results@.len() == index
                    &&& run == workflow_run(ids@, all, index as int, entries_view(results@))
                },
                WorkflowFetchStep::Done(m) => run_message_matches(m, run),
            },
        decreases
            match step {
                WorkflowFetchStep::List { index, .. } => ids@.len() - index,
                WorkflowFetchStep::Done(_) => 0int,
            },
    {
        match step {
            WorkflowFetchStep::Done(m) => {
                return m;
            },
            WorkflowFetchStep::List { index, owner, repo, results } => {
                while consumed < index
                    invariant
                        consumed <= index < all.len(),
                        total == all.len(),
                        rest@ == all.subrange(consumed as int, all.len() as int),
                    decreases index - consumed,
                {
                    rest.remove(0);
                    consumed = consumed + 1;
                }
                let a = rest.remove(0);
                consumed = consumed + 1;
                assert(a == all[index as int]);
                let ghost acc = entries_view(results@);
                let ghost results_g = results@;
                let ghost idx = index as int;
                let ghost ag = a;
                let next = next_workflow_step(ids, index, results, Some(a));
                let ghost ng = next;
                proof {
                    assert(workflow_step_made(ids@, idx, results_g, Some(ag), ng));
                    match ag {
                        Err(e) => {
                            assert(workflow_run(ids@, all, idx, acc) == Err::<Seq<(Seq<char>, Seq<GitHubWorkflow>)>, WorkflowError>(WorkflowError::Network(e)));
                        },
                        Ok(ws) => {
                            let before = acc.push((ids@[idx]@, ws@));
                            assert(workflow_run(ids@, all, idx, acc) == workflow_run(ids@, all, idx + 1, before));
                            lemma_run_skips(ids@, all, idx + 1, before);
                            lemma_next_listed(ids@, idx + 1);
                            let j = next_listed(ids@, idx + 1);
                            assert(run == workflow_run(ids@, all, j, before + empty_entries(ids@, idx + 1, j)));
                            if j < ids@.len() {
                                match ng {
                                    WorkflowFetchStep::List { index: i2, owner: o2, repo: r2, results: rs2 } => {
                                        assert(ids@[j]@[o2@.len() as int] == '/');
                                        assert(entries_view(rs2@) == before + empty_entries(ids@, idx + 1, j));
                                        assert(rs2@.len() == entries_view(rs2@).len());
                                        assert(rs2@.len() == j);
                                    },
                                    _ => {},
                                }
                            } else {
                                assert(j == ids@.len());
                                match ng {
                                    WorkflowFetchStep::Done(m) => {
                                        assert(workflow_run(ids@, all, j, before + empty_entries(ids@, idx + 1, j)) == Ok::<Seq<(Seq<char>, Seq<GitHubWorkflow>)>, WorkflowError>(before + empty_entries(ids@, idx + 1, j)));
                                    },
                                    _ => {},
                                }
                            }
                        },
                    }
                }
                step = next;
            },
        }
    }
}

/// The texts are in ascending order.
pub open spec fn texts_sorted(s: Seq<String>) -> bool {
    forall|i: int, j: int| 0 <= i < j < s.len() ==> text_le((#[trigger] s[i])@, (#[trigger] s[j])@)
}

/// The repository ids in ascending order, the order in which their
/// workflows are fetched.
pub fn sort_repo_ids(repo_ids: Vec<String>) -> (r: Vec<String>)
    ensures
        texts_sorted(r@),
        r@.to_multiset() == repo_ids@.to_multiset(),
{
    broadcast use vstd::seq_lib::group_to_multiset_ensures;
    let mut input = repo_ids;
    let mut out: Vec<String> = Vec::new();
    while input.len() > 0
        invariant
            texts_sorted(out@),
            out@.to_multiset().add(input@.to_multiset()) == repo_ids@.to_multiset(),
        decreases input.len(),
    {
        let ghost before_input = input@;
        let x = input.remove(0);
        proof {
            assert(input@ =~= before_input.remove(0));
            vstd::seq_lib::to_multiset_remove(before_input, 0);
            vstd::seq_lib::to_multiset_contains(before_input, x);
            assert(before_input.contains(x)) by {
                assert(before_input[0] == x);
            }
        }
        let mut j = out.len();
        while j > 0 && compare_text(out[j - 1].as_str(), x.as_str()) > 0
            invariant
                j <= out.len(),
                texts_sorted(out@),
                forall|k: int| j <= k < out.len() ==> !text_le((#[trigger] out@[k])@, x@),
            decreases j,
        {
            j = j - 1;
        }
        proof {
            assert forall|k: int| 0 <= k < j implies text_le((#[trigger] out@[k])@, x@) by {
                if k < j - 1 {
                    lemma_text_le_trans(out@[k]@, out@[j - 1]@, x@);
                }
            }
            assert forall|k: int| j <= k < out@.len() implies text_le(x@, (#[trigger] out@[k])@) by {
                lemma_text_le_total(x@, out@[k]@);
            }
        }
        let ghost old_out = out@;
        out.insert(j, x);
        proof {
            assert forall|a: int, b: int| 0 <= a < b < out@.len() implies text_le((#[trigger] out@[a])@, (#[trigger] out@[b])@) by {
                if a < j as int && b > j as int {
                    assert(out@[a] == old_out[a]);
                    assert(out@[b] == old_out[b - 1]);
                    lemma_text_le_trans(old_out[a]@, x@, old_out[b - 1]@);
                } else if a < j as int && b == j as int {
                } else if a == j as int {
                    assert(out@[b] == old_out[b - 1]);
                } else if b < j as int {
                } else {
                    assert(out@[a] == old_out[a - 1]);
                    assert(out@[b] == old_out[b - 1]);
                }
            }
            vstd::seq_lib::to_multiset_insert(old_out, j as int, x);
            assert(out@ == old_out.insert(j as int, x));
            broadcast use vstd::multiset::group_multiset_axioms;
            assert(out@.to_multiset().add(input@.to_multiset()) =~= repo_ids@.to_multiset());
        }
    }
    proof {
        assert(input@.to_multiset() =~= Multiset::empty()) by {
            broadcast use vstd::multiset::group_multiset_axioms;
        }
        broadcast use vstd::multiset::group_multiset_axioms;
        assert(out@.to_multiset() =~= out@.to_multiset().add(Multiset::empty()));
    }
    out
}

} // verus!
