//! The credential negotiator: what the transport is given when it asks for
//! a credential.

use crate::error::CredentialError;
use crate::git::{ssh_key_from_agent, transport_error};
use git2::{Cred, Error};
use vstd::prelude::*;

verus! {

/// Bit of a credential request that stands for an SSH key.
pub const SSH_KEY: u32 = 2;

/// Whether a request with the accepted types `allowed` takes an SSH key.
pub open spec fn accepts_ssh_key(allowed: u32) -> bool {
    allowed & SSH_KEY == SSH_KEY
}

/// The user whose key the agent is asked for, or why the agent is not asked:
/// the transport takes no SSH key, or it named no user.
pub open spec fn agent_user(username: Option<Seq<char>>, allowed: u32) -> Result<
    Seq<char>,
    CredentialError,
> {
    if !accepts_ssh_key(allowed) {
        Err(CredentialError::NoAuthentication)
    } else {
        match username {
            Some(user) => Ok(user),
            None => Err(CredentialError::AuthenticationFailed),
        }
    }
}

/// A request that takes no SSH key is refused with the condition that no
/// authentication is available, whoever the user is, and the agent is not
/// asked for anyone.
pub proof fn lemma_without_ssh_key_no_authentication(username: Option<Seq<char>>, allowed: u32)
    requires
        !accepts_ssh_key(allowed),
    ensures
        agent_user(username, allowed) == Err::<Seq<char>, CredentialError>(
            CredentialError::NoAuthentication,
        ),
{
}

/// The user name of a request as a sequence of characters.
pub open spec fn option_view(username: Option<&str>) -> Option<Seq<char>> {
    match username {
        Some(user) => Some(user@),
        None => None,
    }
}

/// Decides whether the key agent is asked, and for whom.
pub fn select_agent_user<'a>(username: Option<&'a str>, allowed: u32) -> (user: Result<
    &'a str,
    CredentialError,
>)
    ensures
        user is Ok <==> agent_user(option_view(username), allowed) is Ok,
        user is Ok ==> user->Ok_0@ == agent_user(option_view(username), allowed)->Ok_0,
        user is Err ==> user->Err_0 == agent_user(option_view(username), allowed)->Err_0,
{
    if allowed & SSH_KEY != SSH_KEY {
        Err(CredentialError::NoAuthentication)
    } else {
        match username {
            Some(user) => Ok(user),
            None => Err(CredentialError::AuthenticationFailed),
        }
    }
}

/// Turns the agent's reply into the negotiator's answer: the credential, or
/// the failure to authenticate where the agent gave none.
pub fn conclude(reply: Result<Cred, Error>) -> (answer: Result<Cred, CredentialError>)
    ensures
        answer == match reply {
            Ok(credential) => Ok::<Cred, CredentialError>(credential),
            Err(_) => Err::<Cred, CredentialError>(CredentialError::AuthenticationFailed),
        },
{
    match reply {
        Ok(credential) => Ok(credential),
        Err(_) => Err(CredentialError::AuthenticationFailed),
    }
}

/// Answers one credential request. Only an SSH key is supported; the agent
/// is asked anew on every request and nothing is kept between requests.
/// Where the request takes no SSH key or names no user, the agent is not
/// asked; otherwise the answer is the agent's credential, or the failure to
/// authenticate. A user name that holds a NUL character names no user that
/// the agent could be asked for, and always fails to authenticate.
pub fn negotiate(username: Option<&str>, allowed: u32) -> (answer: Result<Cred, CredentialError>)
    ensures
        agent_user(option_view(username), allowed) is Err ==> answer is Err && answer->Err_0
            == agent_user(option_view(username), allowed)->Err_0,
        agent_user(option_view(username), allowed) is Ok && answer is Err ==> answer->Err_0
            == CredentialError::AuthenticationFailed,
        agent_user(option_view(username), allowed) is Ok && username->Some_0@.contains('\0')
            ==> answer is Err,
{
    match select_agent_user(username, allowed) {
        Err(refusal) => Err(refusal),
        Ok(user) => conclude(ssh_key_from_agent(user)),
    }
}

/// Answers the transport's callback: the credential that was negotiated, or
/// an error that carries the negotiator's description of why there is none.
pub fn answer_credential_request(_url: &str, username: Option<&str>, allowed: u32) -> (answer: Result<
    Cred,
    Error,
>)
    ensures
        agent_user(option_view(username), allowed) is Err ==> answer is Err,
        agent_user(option_view(username), allowed) is Ok && username->Some_0@.contains('\0')
            ==> answer is Err,
{
    transport_answer(negotiate(username, allowed))
}

/// Puts the negotiator's answer into the transport's terms: a credential is
/// handed on as it is, a refusal becomes an error with the refusal's
/// description.
pub fn transport_answer(negotiated: Result<Cred, CredentialError>) -> (answer: Result<Cred, Error>)
    ensures
        negotiated is Ok ==> answer == Ok::<Cred, Error>(negotiated->Ok_0),
        negotiated is Err ==> answer is Err,
{
    match negotiated {
        Ok(credential) => Ok(credential),
        Err(refusal) => {
            let text = refusal.message();
            Err(transport_error(text.as_str()))
        },
    }
}

} // verus!
