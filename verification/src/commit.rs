//! The committer: staging what changed and chaining a commit to `HEAD`.

use crate::error::PublishError;
use crate::gist::Gist;
use crate::git::{
    add_matching, commit_id, default_signature, find_commit, find_tree, head_reference,
    into_commit, open_index, peel_to_commit, resolve_reference, status_bits, write_commit,
    write_index, write_tree,
};
use crate::status::{staging_verdict, verdict_of};
use git2::{Commit, Error, Oid, Repository, Signature};
use std::path::Path;
use vstd::prelude::*;
use vstd::string::StringExecFns;

verus! {

/// What a commit is going to be made of, decided before anything is written:
/// the reference that moves to it, its message, its tree and its one parent.
#[derive(Debug)]
pub struct CommitPlan {
    pub update_ref: String,
    pub message: String,
    pub tree: Oid,
    pub parent: Oid,
}

/// The outcome of a repository operation, with any failure replaced by the
/// condition `failure` that the step stands for.
pub open spec fn classified<T>(outcome: Result<T, Error>, failure: PublishError) -> Result<
    T,
    PublishError,
> {
    match outcome {
        Ok(value) => Ok(value),
        Err(_) => Err(failure),
    }
}

/// Wraps the failure of one step into the condition that the step stands for
/// and hands a success through unchanged.
pub fn classify<T>(outcome: Result<T, Error>, failure: PublishError) -> (result: Result<
    T,
    PublishError,
>)
    ensures
        result == classified(outcome, failure),
{
    match outcome {
        Ok(value) => Ok(value),
        Err(_) => Err(failure),
    }
}

/// The pattern that the scan of the working tree is made with: it matches
/// every path.
pub fn match_everything() -> (pattern: &'static str)
    ensures
        pattern@ == "*"@,
{
    "*"
}

/// What became of the scan that stages the working tree.
#[derive(Clone, Copy, Debug, PartialEq, Eq, Structural)]
pub enum Scan {
    /// Every matched path was added, removed or skipped.
    Done,
    /// The staging policy ended the scan: the status of a path could not be
    /// resolved.
    Aborted,
    /// The scan failed by itself, reading the working tree or writing what
    /// was staged.
    Failed,
}

/// Outcome of the scan that stages the working tree: a scan that the policy
/// ended is a status-resolution failure, one that failed by itself is the
/// condition that the commit failed.
pub fn scan_outcome(scan: Scan) -> (scanned: Result<(), PublishError>)
    ensures
        scanned == match scan {
            Scan::Done => Ok::<(), PublishError>(()),
            Scan::Aborted => Err::<(), PublishError>(PublishError::StatusResolution),
            Scan::Failed => Err::<(), PublishError>(PublishError::CommitFailed),
        },
{
    match scan {
        Scan::Done => Ok(()),
        Scan::Aborted => Err(PublishError::StatusResolution),
        Scan::Failed => Err(PublishError::CommitFailed),
    }
}

/// Outcome of a step that reads or writes the index, the tree or the commit
/// object: whichever of them fails, it is the one condition that the commit
/// failed.
pub fn write_outcome<T>(outcome: Result<T, Error>) -> (written: Result<T, PublishError>)
    ensures
        written == classified(outcome, PublishError::CommitFailed),
{
    classify(outcome, PublishError::CommitFailed)
}

/// Outcome of a step on the way from `HEAD` to its commit: its failure is
/// the condition that no commit was found.
pub fn lookup_outcome<T>(outcome: Result<T, Error>) -> (found: Result<T, PublishError>)
    ensures
        found == classified(outcome, PublishError::NoCommitFound),
{
    classify(outcome, PublishError::NoCommitFound)
}

/// The commit to build on, or the condition that `HEAD` led to none.
pub fn observed_head(head: Option<Oid>) -> (parent: Result<Oid, PublishError>)
    ensures
        parent == match head {
            Some(id) => Ok::<Oid, PublishError>(id),
            None => Err::<Oid, PublishError>(PublishError::NoCommitFound),
        },
{
    match head {
        Some(id) => Ok(id),
        None => Err(PublishError::NoCommitFound),
    }
}

/// The commit that `HEAD` led to, or the condition that it led to none.
pub fn head_commit<'a>(found: Option<Commit<'a>>) -> (commit: Result<Commit<'a>, PublishError>)
    ensures
        commit == match found {
            Some(parent) => Ok::<Commit<'a>, PublishError>(parent),
            None => Err::<Commit<'a>, PublishError>(PublishError::NoCommitFound),
        },
{
    match found {
        Some(parent) => Ok(parent),
        None => Err(PublishError::NoCommitFound),
    }
}

/// Plans the commit of `tree` on top of `head`, the commit that `HEAD` was
/// seen to point at. The plan's only parent is that commit, and the plan
/// moves `HEAD`. Without such a commit there is no plan: a first commit of a
/// history is not made here.
pub fn plan_commit(tree: Oid, head: Option<Oid>, message: &str) -> (plan: Result<
    CommitPlan,
    PublishError,
>)
    ensures
        head is None ==> plan is Err && plan->Err_0 == PublishError::NoCommitFound,
        head is Some ==> plan is Ok,
        plan is Ok ==> {
            &&& plan->Ok_0.parent == head->Some_0
            &&& plan->Ok_0.tree == tree
            &&& plan->Ok_0.message@ == message@
            &&& plan->Ok_0.update_ref@ == "HEAD"@
        },
{
    match head {
        Some(parent) => Ok(
            CommitPlan {
                update_ref: String::from_str("HEAD"),
                message: String::from_str(message),
                tree: tree,
                parent: parent,
            },
        ),
        None => Err(PublishError::NoCommitFound),
    }
}

/// Answers the index for one matched path of `repo`: looks up the path's
/// status and applies the staging policy to whatever the lookup gave.
pub fn path_verdict(repo: &Repository, path: &Path) -> (verdict: i32)
    ensures
        exists|status: Option<u32>| verdict == verdict_of(status),
{
    let status = status_bits(repo, path);
    staging_verdict(status)
}

/// Writes the planned commit, signed by `signature` as author and committer. Any
/// failure is the condition that the commit failed; a message with a NUL always fails.
pub fn execute_plan(repo: &Repository, plan: &CommitPlan, signature: &Signature<'static>) -> (id:
    Result<Oid, PublishError>)
    ensures
        id is Err ==> id->Err_0 == PublishError::CommitFailed,
        plan.message@.contains('\0') ==> id is Err,
{
    let tree = write_outcome(find_tree(repo, plan.tree))?;
    let parent = write_outcome(find_commit(repo, plan.parent))?;
    let written = write_commit(
        repo,
        plan.update_ref.as_str(),
        signature,
        plan.message.as_str(),
        &tree,
        &parent,
    );
    write_outcome(written)
}

impl Gist {
    /// The commit that `HEAD` points at: `HEAD` is resolved to a direct
    /// reference and peeled to a commit. Whatever keeps a commit from being
    /// found is the one condition that there is none.
    pub fn find_last_commit<'a>(&self, repo: &'a Repository) -> (commit: Result<
        Commit<'a>,
        PublishError,
    >)
        ensures
            commit is Err ==> commit->Err_0 == PublishError::NoCommitFound,
    {
        let head = lookup_outcome(head_reference(repo))?;
        let direct = lookup_outcome(resolve_reference(&head))?;
        let object = lookup_outcome(peel_to_commit(&direct))?;
        head_commit(into_commit(object))
    }

    /// Resolves `HEAD`, then stages every path of the working tree that is
    /// modified, new or deleted, writes the index and its tree, and commits
    /// the tree with `message` on top of the commit that `HEAD` was seen to
    /// point at. A commit is made even where nothing was staged.
    ///
    /// `HEAD` is resolved before anything is staged or written: without a
    /// commit to build on, the run ends at once with the condition that no
    /// commit was found. After that the first failure ends the run: a failed
    /// scan is a status-resolution failure and every failed write, as that of
    /// a message with a NUL character, is the condition that the commit failed.
    pub fn add_all_to_index(&self, repo: &Repository, message: &str) -> (id: Result<
        Oid,
        PublishError,
    >)
        ensures
            id is Err ==> id->Err_0 == PublishError::StatusResolution || id->Err_0
                == PublishError::CommitFailed || id->Err_0 == PublishError::NoCommitFound,
            message@.contains('\0') ==> id is Err,
    {
        let head = match self.find_last_commit(repo) {
            Ok(parent) => Some(commit_id(&parent)),
            Err(_) => None,
        };
        self.commit_onto(repo, head, message)
    }

    /// Commits what changed on top of `head`, the commit that `HEAD` was seen
    /// to point at before anything was staged. Without such a commit nothing
    /// is staged and nothing is written. With one, the paths that match
    /// everything are scanned and staged by the staging policy, the index and
    /// its tree are written, and the planned commit is written; a failed scan
    /// is a status-resolution failure, every other failure is the condition
    /// that the commit failed.
    pub fn commit_onto(&self, repo: &Repository, head: Option<Oid>, message: &str) -> (id: Result<
        Oid,
        PublishError,
    >)
        ensures
            head is None ==> id == Err::<Oid, PublishError>(PublishError::NoCommitFound),
            head is Some && id is Err ==> id->Err_0 == PublishError::StatusResolution || id->Err_0
                == PublishError::CommitFailed,
            head is Some && message@.contains('\0') ==> id is Err,
    {
        let parent = observed_head(head)?;
        let mut index = write_outcome(open_index(repo))?;
        scan_outcome(add_matching(&mut index, repo, match_everything()))?;
        write_outcome(write_index(&mut index))?;
        let tree = write_outcome(write_tree(&mut index))?;
        let signature = write_outcome(default_signature(repo))?;
        let plan = plan_commit(tree, Some(parent), message)?;
        execute_plan(repo, &plan, &signature)
    }
}

} // verus!
