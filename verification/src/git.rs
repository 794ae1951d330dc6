//! The repository operations that the publisher relies on. Each function here
//! hands one operation of the `git2` crate to the verified code; what the
//! operation finds on disk, in the key agent or on the network is not
//! predicted, so most of them promise nothing about their result.

use crate::credential::answer_credential_request;
use crate::commit::{path_verdict, Scan};
use crate::remote::Removal;
use git2::{
    Commit, Config, Cred, Error, Index, Object, Oid, Reference, Remote, Repository, Signature,
    Tree,
};
use std::path::Path;
use vstd::prelude::*;

verus! {

/// `git2::Repository`, an open repository.
#[verifier::external_type_specification]
#[verifier::external_body]
pub struct ExRepository(git2::Repository);

/// `git2::Index`, the staging area of a repository.
#[verifier::external_type_specification]
#[verifier::external_body]
pub struct ExIndex(git2::Index);

/// `git2::Oid`, the id of an object in the object store.
#[verifier::external_type_specification]
#[verifier::external_body]
pub struct ExOid(git2::Oid);

/// `git2::Error`, the failure of a repository operation.
#[verifier::external_type_specification]
#[verifier::external_body]
pub struct ExError(git2::Error);

/// `git2::Signature`, the identity and time that a commit is signed with.
#[verifier::external_type_specification]
#[verifier::external_body]
pub struct ExSignature<'a>(git2::Signature<'a>);

/// `git2::Reference`, a named pointer into the history.
#[verifier::external_type_specification]
#[verifier::external_body]
pub struct ExReference<'a>(git2::Reference<'a>);

/// `git2::Object`, an object of any kind.
#[verifier::external_type_specification]
#[verifier::external_body]
pub struct ExObject<'a>(git2::Object<'a>);

/// `git2::Commit`, a commit object.
#[verifier::external_type_specification]
#[verifier::external_body]
pub struct ExCommit<'a>(git2::Commit<'a>);

/// `git2::Tree`, a tree object.
#[verifier::external_type_specification]
#[verifier::external_body]
pub struct ExTree<'a>(git2::Tree<'a>);

/// `git2::Config`, a configuration file.
#[verifier::external_type_specification]
#[verifier::external_body]
pub struct ExConfig(git2::Config);

/// `git2::Remote`, a handle on a remote repository.
#[verifier::external_type_specification]
#[verifier::external_body]
pub struct ExRemote<'a>(git2::Remote<'a>);

/// `git2::Cred`, a credential for the transport.
#[verifier::external_type_specification]
#[verifier::external_body]
pub struct ExCred(git2::Cred);

/// `std::path::Path`, carried through as an opaque value.
#[verifier::external_type_specification]
#[verifier::external_body]
pub struct ExPath(std::path::Path);

/// `Repository::index`: the repository's staging area, or the error that
/// kept it from being opened.
#[verifier::external_body]
pub(crate) fn open_index(repo: &Repository) -> (index: Result<Index, Error>) {
    repo.index()
}

/// `Repository::status_file`: the status bits of one path, or `None` where
/// the lookup failed.
#[verifier::external_body]
pub(crate) fn status_bits(repo: &Repository, path: &Path) -> (status: Option<u32>) {
    repo.status_file(path).ok().map(|status| status.bits())
}

/// `Index::add_all` with the default options: scans the working tree for
/// `pathspec` and asks the staging policy about each matched path. A scan
/// that ended on the policy's answer (the error code `User`) is told from
/// any other failure.
#[verifier::external_body]
pub(crate) fn add_matching(index: &mut Index, repo: &Repository, pathspec: &str) -> (scan: Scan) {
    let mut policy = |path: &Path, _matched: &[u8]| path_verdict(repo, path);
    match index.add_all([pathspec].iter(), git2::IndexAddOption::DEFAULT, Some(&mut policy)) {
        Ok(()) => Scan::Done,
        Err(error) => match error.code() {
            git2::ErrorCode::User => Scan::Aborted,
            _ => Scan::Failed,
        },
    }
}

/// `Index::write`: writes the staging area to disk.
#[verifier::external_body]
pub(crate) fn write_index(index: &mut Index) -> (written: Result<(), Error>) {
    index.write()
}

/// `Index::write_tree`: writes the staging area as a tree object and gives
/// the tree's id.
#[verifier::external_body]
pub(crate) fn write_tree(index: &mut Index) -> (tree: Result<Oid, Error>) {
    index.write_tree()
}

/// `Repository::signature`: the identity that the repository is configured
/// with, at the present time.
#[verifier::external_body]
pub(crate) fn default_signature(repo: &Repository) -> (signature: Result<
    Signature<'static>,
    Error,
>) {
    repo.signature()
}

/// `Repository::head`: the reference that `HEAD` points at.
#[verifier::external_body]
pub(crate) fn head_reference<'a>(repo: &'a Repository) -> (head: Result<Reference<'a>, Error>) {
    repo.head()
}

/// `Reference::resolve`: the direct reference behind a symbolic one.
#[verifier::external_body]
pub(crate) fn resolve_reference<'a>(reference: &Reference<'a>) -> (direct: Result<
    Reference<'a>,
    Error,
>) {
    reference.resolve()
}

/// `Reference::peel` to a commit: the commit object that the reference leads to.
#[verifier::external_body]
pub(crate) fn peel_to_commit<'a>(reference: &Reference<'a>) -> (object: Result<Object<'a>, Error>) {
    reference.peel(git2::ObjectType::Commit)
}

/// `Object::into_commit`: the object as a commit, or `None` where it is none.
#[verifier::external_body]
pub(crate) fn into_commit<'a>(object: Object<'a>) -> (commit: Option<Commit<'a>>) {
    object.into_commit().ok()
}

/// `Commit::id`: the id of a commit.
#[verifier::external_body]
pub(crate) fn commit_id<'a>(commit: &Commit<'a>) -> (id: Oid) {
    commit.id()
}

/// `Repository::find_commit`: the commit with the given id.
#[verifier::external_body]
pub(crate) fn find_commit<'a>(repo: &'a Repository, id: Oid) -> (commit: Result<Commit<'a>, Error>) {
    repo.find_commit(id)
}

/// `Repository::find_tree`: the tree with the given id.
#[verifier::external_body]
pub(crate) fn find_tree<'a>(repo: &'a Repository, id: Oid) -> (tree: Result<Tree<'a>, Error>) {
    repo.find_tree(id)
}

/// `Repository::commit` with one parent and one signature for author and
/// committer: writes the commit, moves `update_ref` to it and gives its id.
/// The message is handed on as a C string, so one that holds a NUL
/// character is refused before anything is written.
#[verifier::external_body]
pub(crate) fn write_commit<'a>(
    repo: &'a Repository,
    update_ref: &str,
    signature: &Signature<'static>,
    message: &str,
    tree: &Tree<'a>,
    parent: &Commit<'a>,
) -> (id: Result<Oid, Error>)
    ensures
        message@.contains('\0') ==> id is Err,
{
    repo.commit(Some(update_ref), signature, signature, message, tree, &[parent])
}

/// `Repository::config`: the configuration that the repository reads, its
/// own file together with the user's and the system's.
#[verifier::external_body]
pub(crate) fn repository_config(repo: &Repository) -> (config: Result<Config, Error>) {
    repo.config()
}

/// `Config::open_level` at the local level: the part of a configuration that
/// is the repository's own file.
#[verifier::external_body]
pub(crate) fn local_level(config: &Config) -> (local: Result<Config, Error>) {
    config.open_level(git2::ConfigLevel::Local)
}

/// `Config::remove`: deletes one entry, and tells an entry that was not
/// there (the error code `NotFound`) from any other failure.
#[verifier::external_body]
pub(crate) fn config_remove(config: &mut Config, key: &str) -> (removal: Removal) {
    match config.remove(key) {
        Ok(()) => Removal::Removed,
        Err(error) => match error.code() {
            git2::ErrorCode::NotFound => Removal::Absent,
            _ => Removal::Failed,
        },
    }
}

/// `Config::set_str`: sets one entry.
#[verifier::external_body]
pub(crate) fn config_set_str(config: &mut Config, key: &str, value: &str) -> (set: Result<
    (),
    Error,
>) {
    config.set_str(key, value)
}

/// `Config::get_string`: reads one entry.
#[verifier::external_body]
pub(crate) fn config_get_string(config: &Config, key: &str) -> (value: Result<String, Error>) {
    config.get_string(key)
}

/// `Repository::remote`: adds a remote to the configuration and gives a
/// handle on it. The address is handed on as a C string, so one that holds
/// a NUL character is refused before anything is changed.
#[verifier::external_body]
pub(crate) fn create_remote<'a>(repo: &'a Repository, name: &str, url: &str) -> (remote: Result<
    Remote<'a>,
    Error,
>)
    ensures
        url@.contains('\0') ==> remote is Err,
{
    repo.remote(name, url)
}

/// `Remote::url`: the address that a handle points at, where it is valid UTF-8.
#[verifier::external_body]
pub(crate) fn remote_url<'a>(remote: &Remote<'a>) -> (url: Result<String, Error>) {
    remote.url().map(|url| url.to_string())
}

/// `Remote::push` of one refspec, with `RemoteCallbacks::credentials` set to
/// the credential negotiator.
#[verifier::external_body]
pub(crate) fn push_refspec<'a>(remote: &mut Remote<'a>, refspec: &str) -> (pushed: Result<
    (),
    Error,
>) {
    let mut callbacks = git2::RemoteCallbacks::new();
    callbacks.credentials(|url, username, allowed| {
        answer_credential_request(url, username, allowed.bits())
    });
    let mut options = git2::PushOptions::new();
    options.remote_callbacks(callbacks);
    remote.push(&[refspec], Some(&mut options))
}

/// `Cred::ssh_key_from_agent`: a credential that asks the key agent for a
/// key of `username`. The name is handed on as a C string, so one that
/// holds a NUL character is refused.
#[verifier::external_body]
pub(crate) fn ssh_key_from_agent(username: &str) -> (credential: Result<Cred, Error>)
    ensures
        username@.contains('\0') ==> credential is Err,
{
    Cred::ssh_key_from_agent(username)
}

/// `Error::from_str`: an error that carries `message`.
#[verifier::external_body]
pub(crate) fn transport_error(message: &str) -> (error: Error) {
    Error::from_str(message)
}

} // verus!
