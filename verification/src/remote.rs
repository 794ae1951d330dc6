//! The remote: rewriting its address to the SSH form and pushing to it.

use crate::commit::{classified, classify};
use crate::error::PublishError;
use crate::gist::{ssh_url_of, Gist};
use crate::git::{
    config_get_string, config_remove, config_set_str, create_remote, local_level, push_refspec,
    remote_url, repository_config,
};
use git2::{Error, Oid, Remote, Repository};
use vstd::prelude::*;

verus! {

/// What became of the removal of a configuration entry.
#[derive(Clone, Copy, Debug, PartialEq, Eq, Structural)]
pub enum Removal {
    /// The entry was there and is gone.
    Removed,
    /// There was no such entry.
    Absent,
    /// The entry could not be removed.
    Failed,
}

/// Name of the remote that is pushed to.
pub fn origin_name() -> (name: &'static str)
    ensures
        name@ == "origin"@,
{
    "origin"
}

/// Key of the configuration entry that holds the address of `origin`.
pub fn origin_url_key() -> (key: &'static str)
    ensures
        key@ == "remote.origin.url"@,
{
    "remote.origin.url"
}

/// The refspec that is pushed: the local `master` to the remote's `master`.
pub fn master_refspec() -> (refspec: &'static str)
    ensures
        refspec@ == "refs/heads/master:refs/heads/master"@,
{
    "refs/heads/master:refs/heads/master"
}

/// Outcome of removing the earlier address: an entry that was not there is
/// as good as one that was removed; only a removal that failed is a
/// configuration failure.
pub fn removal_outcome(removal: Removal) -> (removed: Result<(), PublishError>)
    ensures
        removed == match removal {
            Removal::Failed => Err::<(), PublishError>(PublishError::Configuration),
            _ => Ok::<(), PublishError>(()),
        },
{
    match removal {
        Removal::Failed => Err(PublishError::Configuration),
        _ => Ok(()),
    }
}

/// Outcome of a step that opens or changes the configuration or the remote
/// built from it: its failure is a configuration failure.
pub fn configuration_outcome<T>(outcome: Result<T, Error>) -> (configured: Result<T, PublishError>)
    ensures
        configured == classified(outcome, PublishError::Configuration),
{
    classify(outcome, PublishError::Configuration)
}

/// Outcome of the push: whatever the transport rejects is the one condition
/// that the push failed.
pub fn push_outcome(outcome: Result<(), Error>) -> (pushed: Result<(), PublishError>)
    ensures
        pushed == classified(outcome, PublishError::PushFailed),
{
    classify(outcome, PublishError::PushFailed)
}

/// The remote as it stands once its address has been rewritten: the handle to
/// push through, the address that the configuration file holds and the
/// address that the handle points at, both as they were read back.
pub struct RemoteBinding<'a> {
    pub remote: Remote<'a>,
    pub persisted_url: String,
    pub handle_url: String,
}

/// Whether the two addresses that were read back are both `expected`.
pub open spec fn addresses_agree(
    expected: Seq<char>,
    persisted: Seq<char>,
    handle: Seq<char>,
) -> bool {
    persisted == expected && handle == expected
}

/// Holds the addresses that were read back against the one that was written:
/// both must have been read and both must be `expected`.
pub fn check_addresses(
    expected: &String,
    persisted: Result<String, Error>,
    handle: Result<String, Error>,
) -> (checked: Result<(String, String), PublishError>)
    ensures
        checked is Ok <==> persisted is Ok && handle is Ok && addresses_agree(
            expected@,
            persisted->Ok_0@,
            handle->Ok_0@,
        ),
        checked is Ok ==> checked->Ok_0.0 == persisted->Ok_0 && checked->Ok_0.1 == handle->Ok_0,
        checked is Err ==> checked->Err_0 == PublishError::Configuration,
{
    match (persisted, handle) {
        (Ok(persisted_url), Ok(handle_url)) => {
            if persisted_url == *expected && handle_url == *expected {
                Ok((persisted_url, handle_url))
            } else {
                Err(PublishError::Configuration)
            }
        },
        _ => Err(PublishError::Configuration),
    }
}

impl Gist {
    /// Points `origin` at the SSH address of the gist `gist_id` on the
    /// publisher's host: the entry `remote.origin.url` of the repository's
    /// configuration file is removed if there is one, a remote named `origin`
    /// is created with the new address, and the entry is set to it. The
    /// earlier address is not kept.
    ///
    /// Both addresses are then read back, and the binding is returned only
    /// where the file and the handle both hold the SSH address; every failure,
    /// and every disagreement, is a configuration failure. An id that holds a
    /// NUL character gives an address that no remote can have, and always fails.
    pub fn configure_remote<'a>(&self, repo: &'a Repository, gist_id: &str) -> (binding: Result<
        RemoteBinding<'a>,
        PublishError,
    >)
        ensures
            binding is Ok ==> {
                &&& binding->Ok_0.persisted_url@ == ssh_url_of(self@.sshuser, self@.host, gist_id@)
                &&& binding->Ok_0.handle_url@ == ssh_url_of(self@.sshuser, self@.host, gist_id@)
                &&& binding->Ok_0.persisted_url@ == binding->Ok_0.handle_url@
            },
            binding is Err ==> binding->Err_0 == PublishError::Configuration,
            gist_id@.contains('\0') ==> binding is Err,
    {
        let ssh_url = self.sshurl(gist_id);
        let layered = configuration_outcome(repository_config(repo))?;
        let mut config = configuration_outcome(local_level(&layered))?;
        removal_outcome(config_remove(&mut config, origin_url_key()))?;
        let created = create_remote(repo, origin_name(), ssh_url.as_str());
        let remote = configuration_outcome(created)?;
        configuration_outcome(config_set_str(&mut config, origin_url_key(), ssh_url.as_str()))?;
        let persisted = config_get_string(&config, origin_url_key());
        let handle = remote_url(&remote);
        let (persisted_url, handle_url) = check_addresses(&ssh_url, persisted, handle)?;
        Ok(RemoteBinding { remote, persisted_url, handle_url })
    }

    /// Pushes the local `master` to the remote's `master` through `remote`,
    /// with credentials from the key agent. Whatever the transport rejects is
    /// the one condition that the push failed; nothing is retried or forced.
    pub fn push<'a>(&self, remote: &mut Remote<'a>) -> (pushed: Result<(), PublishError>)
        ensures
            pushed is Err ==> pushed->Err_0 == PublishError::PushFailed,
    {
        push_outcome(push_refspec(remote, master_refspec()))
    }

    /// Rewrites the address of `origin` to the SSH form for `gist_id` and pushes
    /// `master` to it. An id with a NUL character fails before anything is pushed.
    pub fn push_reository(&self, repo: &Repository, gist_id: &str) -> (pushed: Result<
        (),
        PublishError,
    >)
        ensures
            pushed is Err ==> pushed->Err_0 == PublishError::Configuration || pushed->Err_0
                == PublishError::PushFailed,
            gist_id@.contains('\0') ==> pushed == Err::<(), _>(PublishError::Configuration),
    {
        self.push_configured(self.configure_remote(repo, gist_id))
    }

    /// Publishes the working tree of `repo` as the gist `gist_id`: stages and
    /// commits what changed, with an empty message, then rewrites the remote
    /// and pushes. The first failure is returned, and what was done before it
    /// stays done. An id that holds a NUL character always fails.
    pub fn add_and_commit_all(&self, repo: &Repository, gist_id: &str) -> (published: Result<
        (),
        PublishError,
    >)
        ensures
            gist_id@.contains('\0') ==> published is Err,
    {
        let committed = self.add_all_to_index(repo, "");
        self.publish_committed(committed, repo, gist_id)
    }

    /// Pushes through the remote whose address was rewritten. Where the
    /// rewriting failed, its failure is returned and nothing is pushed.
    pub fn push_configured<'a>(&self, configured: Result<RemoteBinding<'a>, PublishError>) -> (pushed:
        Result<(), PublishError>)
        ensures
            configured is Err ==> pushed == Err::<(), PublishError>(configured->Err_0),
            configured is Ok && pushed is Err ==> pushed->Err_0 == PublishError::PushFailed,
    {
        match configured {
            Ok(binding) => {
                let mut binding = binding;
                self.push(&mut binding.remote)
            },
            Err(failure) => Err(failure),
        }
    }

    /// Goes on from the commit step: where the commit failed, its failure is
    /// returned and the remote is left alone; where it was made, the remote
    /// is rewritten and pushed to.
    pub fn publish_committed(
        &self,
        committed: Result<Oid, PublishError>,
        repo: &Repository,
        gist_id: &str,
    ) -> (published: Result<(), PublishError>)
        ensures
            committed is Err ==> published == Err::<(), PublishError>(committed->Err_0),
            committed is Ok && published is Err ==> published->Err_0 == PublishError::Configuration
                || published->Err_0 == PublishError::PushFailed,
            committed is Ok && gist_id@.contains('\0') ==> published == Err::<(), PublishError>(
                PublishError::Configuration,
            ),
    {
        match committed {
            Ok(_id) => self.push_reository(repo, gist_id),
            Err(failure) => Err(failure),
        }
    }
}

} // verus!
